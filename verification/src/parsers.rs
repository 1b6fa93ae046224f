//! Source-level helpers around the parser: comment stripping, whole-contract
//! parsing and stack descriptions.

use crate::parser::parse_type_text;
use crate::parser::InstructionListParser;
use crate::types::ConcreteType;
use crate::types::Contract;
use crate::types::MType;
use crate::types::SomeValue;
use crate::types::StackState;
use vstd::prelude::*;
use vstd::string::StrSliceExecFns;
use vstd::string::StringExecFns;

verus! {

/// What stripping comments means: a `#` starts a comment that runs to the
/// end of the line; the comment and the line breaks right after it are
/// removed.  The walk is a three-state automaton: 0 reads source text, 1 is
/// inside a comment, 2 eats the line breaks that end one.
pub open spec fn sp_strip(s: Seq<u8>, i: int, st: int) -> Seq<u8>
    decreases s.len() - i when 0 <= i <= s.len()
{
    if i >= s.len() {
        Seq::<u8>::empty()
    } else if st == 0 {
        if s[i] == 35 {
            sp_strip(s, i + 1, 1)
        } else {
            seq![s[i]].add(sp_strip(s, i + 1, 0))
        }
    } else if st == 1 {
        if s[i] == 10 || s[i] == 13 {
            sp_strip(s, i + 1, 2)
        } else {
            sp_strip(s, i + 1, 1)
        }
    } else {
        if s[i] == 10 || s[i] == 13 {
            sp_strip(s, i + 1, 2)
        } else if s[i] == 35 {
            sp_strip(s, i + 1, 1)
        } else {
            seq![s[i]].add(sp_strip(s, i + 1, 0))
        }
    }
}

/// Remove `#` comments (with the line breaks that end them) from source
/// bytes.
pub fn strip_comments(v: &Vec<u8>) -> (r: Vec<u8>)
    ensures
        r@ == sp_strip(v@, 0, 0),
{
    let mut out: Vec<u8> = Vec::new();
    let mut i: usize = 0;
    let mut st: u8 = 0;
    while i < v.len()
        invariant
            i <= v@.len(),
            st == 0 || st == 1 || st == 2,
            sp_strip(v@, 0, 0) == out@.add(sp_strip(v@, i as int, st as int)),
        decreases v@.len() - i,
    {
        let c = v[i];
        if st == 0 {
            if c == 35 {
                st = 1;
            } else {
                out.push(c);
            }
        } else if st == 1 {
            if c == 10 || c == 13 {
                st = 2;
            }
        } else {
            if c == 10 || c == 13 {
            } else if c == 35 {
                st = 1;
            } else {
                st = 0;
                out.push(c);
            }
        }
        proof {
            assert(sp_strip(v@, 0, 0) =~= out@.add(sp_strip(v@, i + 1, st as int)));
        }
        i = i + 1;
    }
    proof {
        assert(out@.add(sp_strip(v@, i as int, st as int)) =~= out@);
    }
    out
}

/// Relies on `String::from_utf8_lossy`: ascii bytes decode to one character
/// each.
#[verifier::external_body]
fn bytes_to_ascii_string(v: Vec<u8>) -> (r: String)
    requires
        forall|k: int| 0 <= k < v@.len() ==> v@[k] < 128,
    ensures
        r@ == v@.map_values(|c: u8| c as char),
{
    String::from_utf8_lossy(&v).into_owned()
}

/// Parse a whole contract: comments are stripped, then the declared
/// `parameter` and `storage` types and the `code` block are read, in that
/// order, each ended by `;`.
pub fn parse_contract(src: &str) -> (r: Result<Contract<SomeValue>, String>) {
    if !src.is_ascii() {
        return Result::Err(String::from_str("The source must be ascii text"));
    }
    let bytes = src.as_bytes_vec();
    let clean = strip_comments(&bytes);
    proof {
        crate::parsers::lemma_strip_ascii(bytes@, 0, 0);
    }
    let text = bytes_to_ascii_string(clean);
    // The contract text is three `;`-ended clauses.
    let (pt, st, ct) = match split_contract(text.as_str()) {
        Result::Ok(p) => p,
        Result::Err(e) => {
            return Result::Err(e);
        },
    };
    let parameter = match parse_type_text(pt.as_str()) {
        Result::Ok(t) => t,
        Result::Err(e) => {
            return Result::Err(e);
        },
    };
    let storage = match parse_type_text(st.as_str()) {
        Result::Ok(t) => t,
        Result::Err(e) => {
            return Result::Err(e);
        },
    };
    let p = InstructionListParser::new();
    let code = match p.parse(ct.as_str()) {
        Result::Ok(c) => c,
        Result::Err(e) => {
            return Result::Err(e);
        },
    };
    Result::Ok(Contract { parameter, storage, code })
}

/// Stripping comments keeps bytes of the source, so ascii input stays ascii.
pub proof fn lemma_strip_ascii(s: Seq<u8>, i: int, st: int)
    requires
        0 <= i <= s.len(),
        forall|k: int| 0 <= k < s.len() ==> s[k] < 128,
    ensures
        forall|k: int| 0 <= k < sp_strip(s, i, st).len() ==> sp_strip(s, i, st)[k] < 128,
    decreases s.len() - i,
{
    if i < s.len() {
        lemma_strip_ascii(s, i + 1, 0);
        lemma_strip_ascii(s, i + 1, 1);
        lemma_strip_ascii(s, i + 1, 2);
        let r = sp_strip(s, i, st);
        assert forall|k: int| 0 <= k < r.len() implies r[k] < 128 by {
            if st == 0 {
                if s[i] == 35 {
                    assert(r == sp_strip(s, i + 1, 1));
                } else {
                    let tail = sp_strip(s, i + 1, 0);
                    assert(r == seq![s[i]].add(tail));
                    if k == 0 {
                        assert(r[k] == s[i]);
                    } else {
                        assert(r[k] == tail[k - 1]);
                    }
                }
            } else if st == 1 {
                if s[i] == 10 || s[i] == 13 {
                    assert(r == sp_strip(s, i + 1, 2));
                } else {
                    assert(r == sp_strip(s, i + 1, 1));
                }
            } else {
                if s[i] == 10 || s[i] == 13 {
                    assert(r == sp_strip(s, i + 1, 2));
                } else if s[i] == 35 {
                    assert(r == sp_strip(s, i + 1, 1));
                } else {
                    let tail = sp_strip(s, i + 1, 0);
                    assert(r == seq![s[i]].add(tail));
                    if k == 0 {
                        assert(r[k] == s[i]);
                    } else {
                        assert(r[k] == tail[k - 1]);
                    }
                }
            }
        }
    }
}

// Split contract text into the bodies of its `parameter`, `storage` and
// `code` clauses.
fn split_contract(src: &str) -> (r: Result<(String, String, String), String>) {
    if !src.is_ascii() {
        return Result::Err(String::from_str("The source must be ascii text"));
    }
    let v = src.as_bytes_vec();
    let (ka, kb) = scan_word(&v, 0);
    if !word_is(&v, ka, kb, "parameter") {
        return Result::Err(String::from_str("Expected the parameter clause"));
    }
    let (pt, i1) = match take_until_semi(&v, kb) {
        Result::Ok(p) => p,
        Result::Err(e) => {
            return Result::Err(e);
        },
    };
    let (ka2, kb2) = scan_word(&v, i1);
    if !word_is(&v, ka2, kb2, "storage") {
        return Result::Err(String::from_str("Expected the storage clause"));
    }
    let (st, i2) = match take_until_semi(&v, kb2) {
        Result::Ok(p) => p,
        Result::Err(e) => {
            return Result::Err(e);
        },
    };
    let (ka3, kb3) = scan_word(&v, i2);
    if !word_is(&v, ka3, kb3, "code") {
        return Result::Err(String::from_str("Expected the code clause"));
    }
    let (ct, _i3) = match take_braced(&v, kb3) {
        Result::Ok(p) => p,
        Result::Err(e) => {
            return Result::Err(e);
        },
    };
    Result::Ok((pt, st, ct))
}

fn scan_word(v: &Vec<u8>, i: usize) -> (r: (usize, usize))
    requires
        i <= v@.len(),
    ensures
        i <= r.0 <= r.1 <= v@.len(),
        forall|k: int| r.0 <= k < r.1 ==> v@[k] < 128,
{
    let mut a = i;
    while a < v.len() && (v[a] == 32 || v[a] == 9 || v[a] == 10 || v[a] == 13 || v[a] == 59)
        invariant
            i <= a <= v@.len(),
        decreases v@.len() - a,
    {
        a = a + 1;
    }
    let mut b = a;
    while b < v.len() && ((97 <= v[b] && v[b] <= 122) || v[b] == 95)
        invariant
            a <= b <= v@.len(),
            forall|k: int| a <= k < b ==> v@[k] < 128,
        decreases v@.len() - b,
    {
        b = b + 1;
    }
    (a, b)
}

fn word_is(v: &Vec<u8>, a: usize, b: usize, w: &str) -> (r: bool)
    requires
        a <= b <= v@.len(),
        forall|k: int| a <= k < b ==> v@[k] < 128,
{
    let mut out: Vec<u8> = Vec::new();
    let mut k = a;
    while k < b
        invariant
            a <= k <= b <= v@.len(),
            forall|q: int| a <= q < b ==> v@[q] < 128,
            forall|q: int| 0 <= q < out@.len() ==> out@[q] < 128,
        decreases b - k,
    {
        out.push(v[k]);
        k = k + 1;
    }
    let s = bytes_to_ascii_string(out);
    crate::instructions::str_eq(s.as_str(), w)
}

// The bytes up to the `;` that closes the clause (braces guard inner `;`).
fn take_until_semi(v: &Vec<u8>, i: usize) -> (r: Result<(String, usize), String>)
    requires
        i <= v@.len(),
    ensures
        r matches Result::Ok(p) ==> i <= p.1 <= v@.len(),
{
    let mut out: Vec<u8> = Vec::new();
    let mut j = i;
    while j < v.len() && v[j] != 59
        invariant
            i <= j <= v@.len(),
            forall|q: int| 0 <= q < out@.len() ==> out@[q] < 128,
        decreases v@.len() - j,
    {
        if v[j] >= 128 {
            return Result::Err(String::from_str("The source must be ascii text"));
        }
        out.push(v[j]);
        j = j + 1;
    }
    if j < v.len() {
        Result::Ok((bytes_to_ascii_string(out), j + 1))
    } else {
        Result::Err(String::from_str("Expected a semicolon after the clause"))
    }
}

// The contents of the braced code block that starts at or after `i`.
#[verifier::loop_isolation(false)]
fn take_braced(v: &Vec<u8>, i: usize) -> (r: Result<(String, usize), String>)
    requires
        i <= v@.len(),
    ensures
        r matches Result::Ok(p) ==> i <= p.1 <= v@.len(),
{
    let mut j = i;
    while j < v.len() && v[j] != 123
        invariant
            i <= j <= v@.len(),
        decreases v@.len() - j,
    {
        j = j + 1;
    }
    if j >= v.len() {
        return Result::Err(String::from_str("Expected a braced code block"));
    }
    let mut depth: usize = 1;
    let mut out: Vec<u8> = Vec::new();
    let mut k = j + 1;
    while k < v.len() && depth > 0
        invariant
            j < k <= v@.len(),
            forall|q: int| 0 <= q < out@.len() ==> out@[q] < 128,
        decreases v@.len() - k,
    {
        let c = v[k];
        if c == 123 {
            if depth == usize::MAX {
                return Result::Err(String::from_str("The code block nests too deep"));
            }
            depth = depth + 1;
        } else if c == 125 {
            depth = depth - 1;
            if depth == 0 {
                return Result::Ok((bytes_to_ascii_string(out), k + 1));
            }
        } else if c >= 128 {
            return Result::Err(String::from_str("The source must be ascii text"));
        }
        if depth > 0 && c < 128 {
            out.push(c);
        }
        k = k + 1;
    }
    Result::Err(String::from_str("Unterminated code block"))
}

/// Parse a stack description: type expressions separated by `;`, the top of
/// the stack first.
pub fn parse_stack(cs: &str) -> (r: Result<StackState<crate::types::MAtomic>, String>) {
    if !cs.is_ascii() {
        return Result::Err(String::from_str("The source must be ascii text"));
    }
    let v = cs.as_bytes_vec();
    let mut types: Vec<ConcreteType> = Vec::new();
    let mut i: usize = 0;
    loop
        invariant
            i <= v@.len(),
        decreases v@.len() + 1 - i,
    {
        // Skip separators and blanks.
        let mut q = i;
        while q < v.len() && (v[q] == 32 || v[q] == 9 || v[q] == 10 || v[q] == 13 || v[q] == 59)
            invariant
                i <= q <= v@.len(),
            decreases v@.len() - q,
        {
            q = q + 1;
        }
        if q >= v.len() {
            break ;
        }
        match crate::parser::parse_type_prefix(&v, q) {
            Result::Ok((t, j)) => {
                types.push(t);
                if j <= i {
                    return Result::Err(String::from_str("The parser made no progress"));
                }
                i = j;
            },
            Result::Err(e) => {
                return Result::Err(e);
            },
        }
    }
    Result::Ok(StackState::from(types))
}

} // verus!
