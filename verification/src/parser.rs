//! The concrete-syntax parser: a recursive-descent reader that turns source
//! text into the instruction trees, type expressions and literal values the
//! type checker consumes.  Mnemonics are uppercase identifiers, type names
//! lowercase; `%field`, `:type` and `@var` annotations are accepted and
//! discarded.

use crate::types::AtomicValue;
use crate::types::CompositeValue;
use crate::types::CompoundInstruction;
use crate::types::ConcreteType;
use crate::types::Instruction;
use crate::types::MAtomic;
use crate::types::MType;
use crate::types::SeqItem;
use crate::types::SomeValue;
use vstd::prelude::*;
use vstd::string::StrSliceExecFns;
use vstd::string::StringExecFns;

verus! {

/// Relies on `String::from_utf8`: bytes below 128 decode to one character
/// each.
#[verifier::external_body]
fn ascii_to_string(v: &Vec<u8>, a: usize, b: usize) -> (r: String)
    requires
        a <= b <= v@.len(),
        forall|k: int| a <= k < b ==> v@[k] < 128,
    ensures
        r@ == v@.subrange(a as int, b as int).map_values(|c: u8| c as char),
{
    match String::from_utf8(v[a..b].to_vec()) {
        Ok(s) => s,
        Err(_) => String::new(),
    }
}

#[verifier::allow_in_spec]
fn is_ws(c: u8) -> bool
    returns
        (c == 32 || c == 9 || c == 10 || c == 13),
{
    c == 32 || c == 9 || c == 10 || c == 13
}

#[verifier::allow_in_spec]
fn is_digit(c: u8) -> bool
    returns
        (48 <= c && c <= 57),
{
    48 <= c && c <= 57
}

#[verifier::allow_in_spec]
fn is_lower(c: u8) -> bool
    returns
        ((97 <= c && c <= 122) || c == 95),
{
    (97 <= c && c <= 122) || c == 95
}

#[verifier::allow_in_spec]
fn is_upper(c: u8) -> bool
    returns
        ((65 <= c && c <= 90) || c == 95),
{
    (65 <= c && c <= 90) || c == 95
}

#[verifier::allow_in_spec]
fn is_ident(c: u8) -> bool
    returns
        ((97 <= c && c <= 122) || (65 <= c && c <= 90) || (48 <= c && c <= 57) || c == 95),
{
    is_lower(c) || is_upper(c) || is_digit(c)
}

/// Skip whitespace.
#[verifier::loop_isolation(false)]
fn skip_ws(v: &Vec<u8>, i: usize) -> (r: usize)
    requires
        i <= v@.len(),
    ensures
        i <= r <= v@.len(),
{
    let mut j = i;
    while j < v.len() && is_ws(v[j])
        invariant
            i <= j <= v@.len(),
        decreases v@.len() - j,
    {
        j = j + 1;
    }
    j
}

/// Skip whitespace and the `%x`, `:x` and `@x` annotations the type checker
/// discards.
#[verifier::loop_isolation(false)]
fn skip_annotations(v: &Vec<u8>, i: usize) -> (r: usize)
    requires
        i <= v@.len(),
    ensures
        i <= r <= v@.len(),
{
    let mut j = skip_ws(v, i);
    while j < v.len() && (v[j] == 37 || v[j] == 58 || v[j] == 64)
        invariant
            i <= j <= v@.len(),
        decreases v@.len() - j,
    {
        let ghost jh = j;
        j = j + 1;
        while j < v.len() && is_ident(v[j])
            invariant
                jh < j <= v@.len(),
            decreases v@.len() - j,
        {
            j = j + 1;
        }
        j = skip_ws(v, j);
    }
    j
}

/// Read an identifier, returning its bounds.
#[verifier::loop_isolation(false)]
fn scan_ident(v: &Vec<u8>, i: usize) -> (r: (usize, usize))
    requires
        i <= v@.len(),
    ensures
        i <= r.0 <= r.1 <= v@.len(),
        forall|k: int| r.0 <= k < r.1 ==> v@[k] < 128,
{
    let a = skip_ws(v, i);
    let mut j = a;
    while j < v.len() && is_ident(v[j])
        invariant
            a <= j <= v@.len(),
            forall|k: int| a <= k < j ==> v@[k] < 128,
        decreases v@.len() - j,
    {
        j = j + 1;
    }
    (a, j)
}

/// Whether the identifier at `[a, b)` is exactly the given word.
fn ident_is(v: &Vec<u8>, a: usize, b: usize, w: &str) -> (r: bool)
    requires
        a <= b <= v@.len(),
        forall|k: int| a <= k < b ==> v@[k] < 128,
{
    let s = ascii_to_string(v, a, b);
    crate::instructions::str_eq(s.as_str(), w)
}

fn atomic_of_ident(v: &Vec<u8>, a: usize, b: usize) -> (r: Option<MAtomic>)
    requires
        a <= b <= v@.len(),
        forall|k: int| a <= k < b ==> v@[k] < 128,
{
    if ident_is(v, a, b, "nat") {
        Some(MAtomic::MNat)
    } else if ident_is(v, a, b, "int") {
        Some(MAtomic::MInt)
    } else if ident_is(v, a, b, "string") {
        Some(MAtomic::MString)
    } else if ident_is(v, a, b, "bytes") {
        Some(MAtomic::MBytes)
    } else if ident_is(v, a, b, "bool") {
        Some(MAtomic::MBool)
    } else if ident_is(v, a, b, "mutez") {
        Some(MAtomic::MMutez)
    } else if ident_is(v, a, b, "unit") {
        Some(MAtomic::MUnit)
    } else if ident_is(v, a, b, "timestamp") {
        Some(MAtomic::MTimestamp)
    } else if ident_is(v, a, b, "address") {
        Some(MAtomic::MAddress)
    } else if ident_is(v, a, b, "key") {
        Some(MAtomic::MKey)
    } else if ident_is(v, a, b, "key_hash") {
        Some(MAtomic::MKeyHash)
    } else if ident_is(v, a, b, "chain_id") {
        Some(MAtomic::MChainId)
    } else if ident_is(v, a, b, "signature") {
        Some(MAtomic::MSignature)
    } else if ident_is(v, a, b, "operation") {
        Some(MAtomic::MOperation)
    } else {
        None
    }
}

// Container kinds: 1 payload or 2 payloads (the latter right-nesting when
// more arguments follow).
fn container_of_ident(v: &Vec<u8>, a: usize, b: usize) -> (r: Option<(u8, bool)>)
    requires
        a <= b <= v@.len(),
        forall|k: int| a <= k < b ==> v@[k] < 128,
{
    if ident_is(v, a, b, "list") {
        Some((0, false))
    } else if ident_is(v, a, b, "set") {
        Some((1, false))
    } else if ident_is(v, a, b, "option") {
        Some((2, false))
    } else if ident_is(v, a, b, "contract") {
        Some((3, false))
    } else if ident_is(v, a, b, "ticket") {
        Some((4, false))
    } else if ident_is(v, a, b, "pair") {
        Some((5, true))
    } else if ident_is(v, a, b, "or") {
        Some((6, true))
    } else if ident_is(v, a, b, "lambda") {
        Some((7, true))
    } else if ident_is(v, a, b, "map") {
        Some((8, true))
    } else if ident_is(v, a, b, "big_map") {
        Some((9, true))
    } else {
        None
    }
}

fn mk_container1(kind: u8, t: ConcreteType) -> (r: ConcreteType) {
    if kind == 0 {
        MType::MList(Box::new(t))
    } else if kind == 1 {
        MType::MSet(Box::new(t))
    } else if kind == 2 {
        MType::MOption(Box::new(t))
    } else if kind == 3 {
        MType::MContract(Box::new(t))
    } else {
        MType::MTicket(Box::new(t))
    }
}

fn mk_container2(kind: u8, a: ConcreteType, b: ConcreteType) -> (r: ConcreteType) {
    if kind == 5 {
        MType::MPair(Box::new((a, b)))
    } else if kind == 6 {
        MType::MOr(Box::new((a, b)))
    } else if kind == 7 {
        MType::MLambda(Box::new((a, b)))
    } else if kind == 8 {
        MType::MMap(Box::new((a, b)))
    } else {
        MType::MBigMap(Box::new((a, b)))
    }
}

/// Fold two or more type arguments into a right-nested chain.
fn fold_right_types(kind: u8, args: Vec<ConcreteType>) -> (r: Result<ConcreteType, String>)
    decreases args@.len(),
{
    let mut args = args;
    if args.len() < 2 {
        return Result::Err(String::from_str("A type constructor is missing arguments"));
    }
    if args.len() == 2 {
        let b = match args.pop() {
            Some(x) => x,
            None => {
                return Result::Err(String::from_str("A type constructor is missing arguments"));
            },
        };
        let a = match args.pop() {
            Some(x) => x,
            None => {
                return Result::Err(String::from_str("A type constructor is missing arguments"));
            },
        };
        Result::Ok(mk_container2(kind, a, b))
    } else {
        let a = args.remove(0);
        match fold_right_types(if kind == 8 || kind == 9 || kind == 7 {
            5
        } else {
            kind
        }, args) {
            Result::Ok(rest) => Result::Ok(mk_container2(kind, a, rest)),
            Result::Err(e) => Result::Err(e),
        }
    }
}

/// Parse a full type expression: a type name possibly followed by arguments.
#[verifier::loop_isolation(false)]
fn parse_type(v: &Vec<u8>, i: usize) -> (r: Result<(ConcreteType, usize), String>)
    requires
        i <= v@.len(),
    ensures
        r matches Result::Ok(p) ==> i < p.1 <= v@.len(),
    decreases v@.len() - i, 3nat,
{
    let j = skip_ws(v, i);
    if j < v.len() && v[j] == 40 {
        // A parenthesised type is a full type expression of its own.
        match parse_type(v, j + 1) {
            Result::Ok((t, j2)) => {
                let j3 = skip_annotations(v, j2);
                if j3 < v.len() && v[j3] == 41 {
                    Result::Ok((t, j3 + 1))
                } else {
                    Result::Err(String::from_str("Expected a closing parenthesis in a type"))
                }
            },
            Result::Err(e) => Result::Err(e),
        }
    } else {
        let (a, b) = scan_ident(v, j);
        if a == b {
            return Result::Err(String::from_str("Expected a type name"));
        }
        match atomic_of_ident(v, a, b) {
            Some(at) => {
                let b2 = skip_annotations(v, b);
                Result::Ok((MType::MWrapped(at), b2))
            },
            None => match container_of_ident(v, a, b) {
                None => Result::Err(String::from_str("Unknown type name")),
                Some((kind, two)) => {
                    let b2 = skip_annotations(v, b);
                    if !two {
                        match parse_simple_type(v, b2) {
                            Result::Ok((t, j2)) => Result::Ok((mk_container1(kind, t), j2)),
                            Result::Err(e) => Result::Err(e),
                        }
                    } else {
                        let mut args: Vec<ConcreteType> = Vec::new();
                        let mut pos = b2;
                        loop
                            invariant
                                i < pos <= v@.len(),
                            decreases v@.len() - pos,
                        {
                            let q = skip_ws(v, pos);
                            let starts = q < v.len() && (v[q] == 40 || is_lower(v[q]));
                            if !starts {
                                break ;
                            }
                            match parse_simple_type(v, pos) {
                                Result::Ok((t, j2)) => {
                                    args.push(t);
                                    pos = j2;
                                },
                                Result::Err(e) => {
                                    return Result::Err(e);
                                },
                            }
                        }
                        match fold_right_types(kind, args) {
                            Result::Ok(t) => Result::Ok((t, pos)),
                            Result::Err(e) => Result::Err(e),
                        }
                    }
                },
            },
        }
    }
}

/// Parse a simple type: an atomic name or a parenthesised type expression.
#[verifier::loop_isolation(false)]
fn parse_simple_type(v: &Vec<u8>, i: usize) -> (r: Result<(ConcreteType, usize), String>)
    requires
        i <= v@.len(),
    ensures
        r matches Result::Ok(p) ==> i < p.1 <= v@.len(),
    decreases v@.len() - i, 4nat,
{
    let j = skip_ws(v, i);
    if j < v.len() && v[j] == 40 {
        match parse_type(v, j + 1) {
            Result::Ok((t, j2)) => {
                let j3 = skip_annotations(v, j2);
                if j3 < v.len() && v[j3] == 41 {
                    Result::Ok((t, j3 + 1))
                } else {
                    Result::Err(String::from_str("Expected a closing parenthesis in a type"))
                }
            },
            Result::Err(e) => Result::Err(e),
        }
    } else {
        let (a, b) = scan_ident(v, j);
        if a == b {
            return Result::Err(String::from_str("Expected a type name"));
        }
        match atomic_of_ident(v, a, b) {
            Some(at) => {
                let b2 = skip_annotations(v, b);
                Result::Ok((MType::MWrapped(at), b2))
            },
            None => Result::Err(String::from_str("Expected an atomic type or parentheses")),
        }
    }
}

/// Parse a number literal (an optional minus sign and digits).
#[verifier::loop_isolation(false)]
fn parse_number(v: &Vec<u8>, i: usize) -> (r: Result<(i32, usize), String>)
    requires
        i <= v@.len(),
    ensures
        r matches Result::Ok(p) ==> i < p.1 <= v@.len(),
{
    let mut j = skip_ws(v, i);
    let mut neg = false;
    if j < v.len() && v[j] == 45 {
        neg = true;
        j = j + 1;
    }
    let start = j;
    let mut acc: i32 = 0;
    while j < v.len() && is_digit(v[j])
        invariant
            start <= j <= v@.len(),
            0 <= acc <= 2147483639,
        decreases v@.len() - j,
    {
        let d = (v[j] - 48) as i32;
        if acc > 214748363 {
            return Result::Err(String::from_str("Number literal out of range"));
        }
        acc = acc * 10 + d;
        j = j + 1;
    }
    if j == start {
        return Result::Err(String::from_str("Expected a number"));
    }
    if neg {
        Result::Ok((0 - acc, j))
    } else {
        Result::Ok((acc, j))
    }
}

} // verus!

verus! {

// Uppercase words that begin a literal value rather than an instruction.
fn is_value_word(v: &Vec<u8>, a: usize, b: usize) -> (r: bool)
    requires
        a <= b <= v@.len(),
        forall|k: int| a <= k < b ==> v@[k] < 128,
{
    ident_is(v, a, b, "True") || ident_is(v, a, b, "False") || ident_is(v, a, b, "Unit")
        || ident_is(v, a, b, "None") || ident_is(v, a, b, "Some") || ident_is(v, a, b, "Left")
        || ident_is(v, a, b, "Right") || ident_is(v, a, b, "Pair") || ident_is(v, a, b, "Elt")
}

/// Parse a literal value.
#[verifier::loop_isolation(false)]
fn parse_value(v: &Vec<u8>, i: usize) -> (r: Result<(SomeValue, usize), String>)
    requires
        i <= v@.len(),
    ensures
        r matches Result::Ok(p) ==> i < p.1 <= v@.len(),
    decreases v@.len() - i, 1nat,
{
    let q = skip_ws(v, i);
    if q >= v.len() {
        return Result::Err(String::from_str("Expected a value"));
    }
    let c = v[q];
    if c == 40 {
        // A parenthesised value.
        match parse_value(v, q + 1) {
            Result::Ok((val, j)) => {
                let j2 = skip_ws(v, j);
                if j2 < v.len() && v[j2] == 41 {
                    Result::Ok((val, j2 + 1))
                } else {
                    Result::Err(String::from_str("Expected a closing parenthesis in a value"))
                }
            },
            Result::Err(e) => Result::Err(e),
        }
    } else if c == 34 {
        // A string literal.
        let mut j = q + 1;
        let start = j;
        while j < v.len() && v[j] != 34 && v[j] < 128
            invariant
                start <= j <= v@.len(),
                forall|k: int| start <= k < j ==> v@[k] < 128,
            decreases v@.len() - j,
        {
            j = j + 1;
        }
        if j < v.len() && v[j] == 34 {
            let s = ascii_to_string(v, start, j);
            Result::Ok((SomeValue::Atomic(AtomicValue::AVString(s)), j + 1))
        } else {
            Result::Err(String::from_str("Unterminated or non-ascii string literal"))
        }
    } else if is_digit(c) || c == 45 {
        match parse_number(v, q) {
            Result::Ok((n, j)) => Result::Ok((SomeValue::Atomic(AtomicValue::AVNumber(n)), j)),
            Result::Err(e) => Result::Err(e),
        }
    } else if c == 123 {
        match parse_braced_value(v, q) {
            Result::Ok((cv, j)) => Result::Ok((SomeValue::Composite(Box::new(cv)), j)),
            Result::Err(e) => Result::Err(e),
        }
    } else {
        let (a, b) = scan_ident(v, q);
        if a == b {
            return Result::Err(String::from_str("Expected a value"));
        }
        if ident_is(v, a, b, "True") {
            Result::Ok((SomeValue::Atomic(AtomicValue::AVBool(true)), b))
        } else if ident_is(v, a, b, "False") {
            Result::Ok((SomeValue::Atomic(AtomicValue::AVBool(false)), b))
        } else if ident_is(v, a, b, "Unit") {
            Result::Ok((SomeValue::Atomic(AtomicValue::AVUnit), b))
        } else if ident_is(v, a, b, "None") {
            Result::Ok((SomeValue::Composite(Box::new(CompositeValue::CVNone)), b))
        } else if ident_is(v, a, b, "Some") {
            match parse_value(v, b) {
                Result::Ok((val, j)) => Result::Ok(
                    (SomeValue::Composite(Box::new(CompositeValue::CVSome(val))), j),
                ),
                Result::Err(e) => Result::Err(e),
            }
        } else if ident_is(v, a, b, "Left") {
            match parse_value(v, b) {
                Result::Ok((val, j)) => Result::Ok(
                    (SomeValue::Composite(Box::new(CompositeValue::CVLeft(val))), j),
                ),
                Result::Err(e) => Result::Err(e),
            }
        } else if ident_is(v, a, b, "Right") {
            match parse_value(v, b) {
                Result::Ok((val, j)) => Result::Ok(
                    (SomeValue::Composite(Box::new(CompositeValue::CVRight(val))), j),
                ),
                Result::Err(e) => Result::Err(e),
            }
        } else if ident_is(v, a, b, "Pair") {
            let (v1, j1) = match parse_value(v, b) {
                Result::Ok(p) => p,
                Result::Err(e) => {
                    return Result::Err(e);
                },
            };
            let mut items: Vec<SomeValue> = Vec::new();
            items.push(v1);
            let mut pos = j1;
            loop
                invariant
                    i < pos <= v@.len(),
                    items@.len() >= 1,
                decreases v@.len() - pos,
            {
                let w = skip_ws(v, pos);
                let more = w < v.len() && (v[w] == 40 || v[w] == 34 || v[w] == 123 || is_digit(
                    v[w],
                ) || v[w] == 45 || is_upper(v[w]));
                if !more {
                    break ;
                }
                match parse_value(v, pos) {
                    Result::Ok((val, j2)) => {
                        items.push(val);
                        pos = j2;
                    },
                    Result::Err(e) => {
                        return Result::Err(e);
                    },
                }
            }
            match fold_right_pairs(items) {
                Result::Ok(cv) => Result::Ok((SomeValue::Composite(Box::new(cv)), pos)),
                Result::Err(e) => Result::Err(e),
            }
        } else {
            Result::Err(String::from_str("Expected a value"))
        }
    }
}

/// Fold two or more values into a right-nested pair value.
fn fold_right_pairs(items: Vec<SomeValue>) -> (r: Result<CompositeValue, String>)
    decreases items@.len(),
{
    let mut items = items;
    if items.len() < 2 {
        return Result::Err(String::from_str("Pair needs at least two components"));
    }
    if items.len() == 2 {
        let b = match items.pop() {
            Some(x) => x,
            None => {
                return Result::Err(String::from_str("Pair needs at least two components"));
            },
        };
        let a = match items.pop() {
            Some(x) => x,
            None => {
                return Result::Err(String::from_str("Pair needs at least two components"));
            },
        };
        Result::Ok(CompositeValue::CVPair(a, b))
    } else {
        let a = items.remove(0);
        match fold_right_pairs(items) {
            Result::Ok(rest) => Result::Ok(
                CompositeValue::CVPair(a, SomeValue::Composite(Box::new(rest))),
            ),
            Result::Err(e) => Result::Err(e),
        }
    }
}

/// Parse a braced sequence: an empty sequence, a key/value list, a list of
/// values, or an instruction block.
#[verifier::loop_isolation(false)]
fn parse_braced_value(v: &Vec<u8>, i: usize) -> (r: Result<(CompositeValue, usize), String>)
    requires
        i <= v@.len(),
    ensures
        r matches Result::Ok(p) ==> i < p.1 <= v@.len(),
    decreases v@.len() - i, 0nat,
{
    let q = skip_ws(v, i);
    if !(q < v.len() && v[q] == 123) {
        return Result::Err(String::from_str("Expected an opening brace"));
    }
    let mut pos = skip_ws(v, q + 1);
    if pos < v.len() && v[pos] == 125 {
        return Result::Ok((CompositeValue::CVSeq(SeqItem::SqValue(Vec::new())), pos + 1));
    }
    let (a, b) = scan_ident(v, pos);
    if a < b && ident_is(v, a, b, "Elt") {
        // A key/value list.
        let mut kvs: Vec<(SomeValue, SomeValue)> = Vec::new();
        loop
            invariant
                i < pos <= v@.len(),
            decreases v@.len() - pos,
        {
            let (ea, eb) = scan_ident(v, pos);
            if !(ea < eb && ident_is(v, ea, eb, "Elt")) {
                return Result::Err(String::from_str("Expected Elt in a key/value list"));
            }
            let (kv, j1) = match parse_value(v, eb) {
                Result::Ok(p) => p,
                Result::Err(e) => {
                    return Result::Err(e);
                },
            };
            let (vv, j2) = match parse_value(v, j1) {
                Result::Ok(p) => p,
                Result::Err(e) => {
                    return Result::Err(e);
                },
            };
            kvs.push((kv, vv));
            let mut j3 = skip_ws(v, j2);
            while j3 < v.len() && v[j3] == 59
                invariant
                    i < j3 <= v@.len(),
                decreases v@.len() - j3,
            {
                j3 = skip_ws(v, j3 + 1);
            }
            if j3 < v.len() && v[j3] == 125 {
                return Result::Ok((CompositeValue::CKVList(kvs), j3 + 1));
            }
            if j3 >= v.len() {
                return Result::Err(String::from_str("Unterminated key/value list"));
            }
            if j3 <= pos {
                return Result::Err(String::from_str("Unterminated key/value list"));
            }
            pos = j3;
        }
    } else if a < b && is_upper(v[a]) && !is_value_word(v, a, b) {
        // An instruction block.
        match parse_instr_list(v, pos) {
            Result::Ok((ins, j)) => {
                let j2 = skip_ws(v, j);
                if j2 < v.len() && v[j2] == 125 {
                    Result::Ok((CompositeValue::CVSeq(SeqItem::SqInstr(ins)), j2 + 1))
                } else {
                    Result::Err(String::from_str("Expected a closing brace"))
                }
            },
            Result::Err(e) => Result::Err(e),
        }
    } else {
        // A list of values.
        let mut items: Vec<SomeValue> = Vec::new();
        loop
            invariant
                i < pos <= v@.len(),
            decreases v@.len() - pos,
        {
            let (val, j1) = match parse_value(v, pos) {
                Result::Ok(p) => p,
                Result::Err(e) => {
                    return Result::Err(e);
                },
            };
            items.push(val);
            let mut j2 = skip_ws(v, j1);
            while j2 < v.len() && v[j2] == 59
                invariant
                    i < j2 <= v@.len(),
                decreases v@.len() - j2,
            {
                j2 = skip_ws(v, j2 + 1);
            }
            if j2 < v.len() && v[j2] == 125 {
                return Result::Ok((CompositeValue::CVSeq(SeqItem::SqValue(items)), j2 + 1));
            }
            if j2 >= v.len() {
                return Result::Err(String::from_str("Unterminated value list"));
            }
            if j2 <= pos {
                return Result::Err(String::from_str("Unterminated value list"));
            }
            pos = j2;
        }
    }
}

/// Parse a braced instruction block.
fn parse_block(v: &Vec<u8>, i: usize) -> (r: Result<(Vec<CompoundInstruction<SomeValue>>, usize), String>)
    requires
        i <= v@.len(),
    ensures
        r matches Result::Ok(p) ==> i < p.1 <= v@.len(),
    decreases v@.len() - i, 0nat,
{
    let q = skip_ws(v, i);
    if !(q < v.len() && v[q] == 123) {
        return Result::Err(String::from_str("Expected an opening brace"));
    }
    match parse_instr_list(v, q + 1) {
        Result::Ok((ins, j)) => {
            let j2 = skip_ws(v, j);
            if j2 < v.len() && v[j2] == 125 {
                Result::Ok((ins, j2 + 1))
            } else {
                Result::Err(String::from_str("Expected a closing brace"))
            }
        },
        Result::Err(e) => Result::Err(e),
    }
}

/// Parse instructions separated by `;` until a closing brace or the end of
/// the input.
#[verifier::loop_isolation(false)]
fn parse_instr_list(v: &Vec<u8>, i: usize) -> (r: Result<
    (Vec<CompoundInstruction<SomeValue>>, usize),
    String,
>)
    requires
        i <= v@.len(),
    ensures
        r matches Result::Ok(p) ==> i <= p.1 <= v@.len(),
    decreases v@.len() - i, 1nat,
{
    let mut out: Vec<CompoundInstruction<SomeValue>> = Vec::new();
    let mut pos = i;
    loop
        invariant
            i <= pos <= v@.len(),
        decreases v@.len() - pos,
    {
        let mut q = skip_ws(v, pos);
        while q < v.len() && v[q] == 59
            invariant
                i <= q <= v@.len(),
            decreases v@.len() - q,
        {
            q = skip_ws(v, q + 1);
        }
        if q >= v.len() || v[q] == 125 {
            return Result::Ok((out, q));
        }
        match parse_instruction(v, q) {
            Result::Ok((ins, j)) => {
                out.push(ins);
                if j <= pos {
                    return Result::Err(String::from_str("The parser made no progress"));
                }
                pos = j;
            },
            Result::Err(e) => {
                return Result::Err(e);
            },
        }
    }
}

// An optional arity argument: a number where one stands, else the given
// default.
fn parse_opt_arity(v: &Vec<u8>, i: usize, dflt: usize) -> (r: Result<(usize, usize), String>)
    requires
        i <= v@.len(),
    ensures
        r matches Result::Ok(p) ==> i <= p.1 <= v@.len(),
{
    let q = skip_annotations(v, i);
    if q < v.len() && is_digit(v[q]) {
        match parse_number(v, q) {
            Result::Ok((n, j)) => {
                if n < 0 {
                    Result::Err(String::from_str("A negative arity is not accepted"))
                } else {
                    Result::Ok((n as usize, j))
                }
            },
            Result::Err(e) => Result::Err(e),
        }
    } else {
        Result::Ok((dflt, q))
    }
}

/// Parse one instruction: a control-flow construct or a schema-driven
/// instruction with its arguments.
#[verifier::loop_isolation(false)]
fn parse_instruction(v: &Vec<u8>, i: usize) -> (r: Result<
    (CompoundInstruction<SomeValue>, usize),
    String,
>)
    requires
        i <= v@.len(),
    ensures
        r matches Result::Ok(p) ==> i < p.1 <= v@.len(),
    decreases v@.len() - i, 0nat,
{
    let (a, b) = scan_ident(v, i);
    if a == b {
        return Result::Err(String::from_str("Expected an instruction"));
    }
    if ident_is(v, a, b, "IF") || ident_is(v, a, b, "IF_CONS") || ident_is(v, a, b, "IF_SOME")
        || ident_is(v, a, b, "IF_NONE") || ident_is(v, a, b, "IF_LEFT") {
        let c = skip_annotations(v, b);
        let (tb, j1) = match parse_block(v, c) {
            Result::Ok(p) => p,
            Result::Err(e) => {
                return Result::Err(e);
            },
        };
        let (fb, j2) = match parse_block(v, j1) {
            Result::Ok(p) => p,
            Result::Err(e) => {
                return Result::Err(e);
            },
        };
        if ident_is(v, a, b, "IF") {
            Result::Ok((CompoundInstruction::IF(tb, fb), j2))
        } else if ident_is(v, a, b, "IF_CONS") {
            Result::Ok((CompoundInstruction::IF_CONS(tb, fb), j2))
        } else if ident_is(v, a, b, "IF_SOME") {
            Result::Ok((CompoundInstruction::IF_SOME(tb, fb), j2))
        } else if ident_is(v, a, b, "IF_NONE") {
            Result::Ok((CompoundInstruction::IF_NONE(tb, fb), j2))
        } else {
            Result::Ok((CompoundInstruction::IF_LEFT(tb, fb), j2))
        }
    } else if ident_is(v, a, b, "ITER") || ident_is(v, a, b, "MAP") || ident_is(v, a, b, "LOOP")
        || ident_is(v, a, b, "LOOP_LEFT") {
        let c = skip_annotations(v, b);
        let (body, j1) = match parse_block(v, c) {
            Result::Ok(p) => p,
            Result::Err(e) => {
                return Result::Err(e);
            },
        };
        if ident_is(v, a, b, "ITER") {
            Result::Ok((CompoundInstruction::ITER(body), j1))
        } else if ident_is(v, a, b, "MAP") {
            Result::Ok((CompoundInstruction::MAP(body), j1))
        } else if ident_is(v, a, b, "LOOP") {
            Result::Ok((CompoundInstruction::LOOP(body), j1))
        } else {
            Result::Ok((CompoundInstruction::LOOP_LEFT(body), j1))
        }
    } else if ({
        let d = ident_is(v, a, b, "DIP");
        d
    } || is_dip_macro(v, a, b)) {
        let is_plain_dip = ident_is(v, a, b, "DIP");
        let dmac = is_dip_macro(v, a, b);
        if !is_plain_dip && !dmac {
            return Result::Err(String::from_str("Expected DIP"));
        }
        let (n, j1) = if is_plain_dip {
            match parse_opt_arity(v, b, 1) {
                Result::Ok(p) => p,
                Result::Err(e) => {
                    return Result::Err(e);
                },
            }
        } else {
            (b - a - 2, skip_annotations(v, b))
        };
        let (body, j2) = match parse_block(v, j1) {
            Result::Ok(p) => p,
            Result::Err(e) => {
                return Result::Err(e);
            },
        };
        Result::Ok((CompoundInstruction::DIP(n, body), j2))
    } else if ident_is(v, a, b, "LAMBDA_REC") {
        let (it, j1) = match parse_simple_type(v, b) {
            Result::Ok(p) => p,
            Result::Err(e) => {
                return Result::Err(e);
            },
        };
        let (ot, j2) = match parse_simple_type(v, j1) {
            Result::Ok(p) => p,
            Result::Err(e) => {
                return Result::Err(e);
            },
        };
        let (body, j3) = match parse_block(v, j2) {
            Result::Ok(p) => p,
            Result::Err(e) => {
                return Result::Err(e);
            },
        };
        Result::Ok((CompoundInstruction::LAMBDA_REC(it, ot, body), j3))
    } else if ident_is(v, a, b, "SELF") {
        Result::Ok((CompoundInstruction::SELF, skip_annotations(v, b)))
    } else if ident_is(v, a, b, "FAIL") {
        Result::Ok((CompoundInstruction::FAIL, skip_annotations(v, b)))
    } else if ident_is(v, a, b, "FAILWITH") {
        Result::Ok((CompoundInstruction::FAILWITH, skip_annotations(v, b)))
    } else if ident_is(v, a, b, "PAIR") || ident_is(v, a, b, "UNPAIR") || ident_is(v, a, b, "DUP")
        || ident_is(v, a, b, "DROP") || ident_is(v, a, b, "DIG") || ident_is(v, a, b, "DUG") {
        let dflt: usize = if ident_is(v, a, b, "PAIR") || ident_is(v, a, b, "UNPAIR") {
            2
        } else {
            1
        };
        let (n, j1) = match parse_opt_arity(v, b, dflt) {
            Result::Ok(p) => p,
            Result::Err(e) => {
                return Result::Err(e);
            },
        };
        if ident_is(v, a, b, "PAIR") {
            Result::Ok((CompoundInstruction::PAIR(n), j1))
        } else if ident_is(v, a, b, "UNPAIR") {
            Result::Ok((CompoundInstruction::UNPAIR(n), j1))
        } else if ident_is(v, a, b, "DUP") {
            Result::Ok((CompoundInstruction::DUP(n), j1))
        } else if ident_is(v, a, b, "DROP") {
            Result::Ok((CompoundInstruction::DROP(n), j1))
        } else if ident_is(v, a, b, "DIG") {
            Result::Ok((CompoundInstruction::DIG(n), j1))
        } else {
            Result::Ok((CompoundInstruction::DUG(n), j1))
        }
    } else if ident_is(v, a, b, "GET") || ident_is(v, a, b, "UPDATE") {
        // With an explicit index these address a pair chain; without one they
        // are schema-driven map operations.
        let q = skip_annotations(v, b);
        if q < v.len() && is_digit(v[q]) {
            match parse_number(v, q) {
                Result::Ok((n, j1)) => {
                    if n < 0 {
                        Result::Err(String::from_str("A negative index is not accepted"))
                    } else if ident_is(v, a, b, "GET") {
                        Result::Ok((CompoundInstruction::GET(n as usize), j1))
                    } else {
                        Result::Ok((CompoundInstruction::UPDATE(n as usize), j1))
                    }
                },
                Result::Err(e) => Result::Err(e),
            }
        } else {
            let name = ascii_to_string(v, a, b);
            Result::Ok(
                (
                    CompoundInstruction::Other(
                        Instruction { location: a, name, args: Vec::new() },
                    ),
                    q,
                ),
            )
        }
    } else {
        // A schema-driven instruction with its static arguments.
        let name = ascii_to_string(v, a, b);
        let mut args: Vec<crate::types::ArgValue<SomeValue>> = Vec::new();
        let mut pos = skip_annotations(v, b);
        loop
            invariant
                i < pos <= v@.len(),
            decreases v@.len() - pos,
        {
            let q = skip_ws(v, pos);
            if q >= v.len() {
                break ;
            }
            let c = v[q];
            if c == 34 || c == 123 || is_digit(c) || c == 45 {
                match parse_value(v, q) {
                    Result::Ok((val, j)) => {
                        args.push(crate::types::ArgValue::ValueArg(val));
                        pos = skip_annotations(v, j);
                    },
                    Result::Err(e) => {
                        return Result::Err(e);
                    },
                }
            } else if c == 40 {
                // Look inside the parentheses: a lowercase word opens a type,
                // anything else a value.
                let q2 = skip_ws(v, q + 1);
                if q2 < v.len() && is_lower(v[q2]) {
                    match parse_simple_type(v, q) {
                        Result::Ok((t, j)) => {
                            args.push(crate::types::ArgValue::TypeArg(t));
                            pos = skip_annotations(v, j);
                        },
                        Result::Err(e) => {
                            return Result::Err(e);
                        },
                    }
                } else {
                    match parse_value(v, q) {
                        Result::Ok((val, j)) => {
                            args.push(crate::types::ArgValue::ValueArg(val));
                            pos = skip_annotations(v, j);
                        },
                        Result::Err(e) => {
                            return Result::Err(e);
                        },
                    }
                }
            } else if is_lower(c) {
                match parse_type(v, q) {
                    Result::Ok((t, j)) => {
                        args.push(crate::types::ArgValue::TypeArg(t));
                        pos = skip_annotations(v, j);
                    },
                    Result::Err(e) => {
                        return Result::Err(e);
                    },
                }
            } else if is_upper(c) {
                let (wa, wb) = scan_ident(v, q);
                if wa < wb && is_value_word(v, wa, wb) {
                    match parse_value(v, q) {
                        Result::Ok((val, j)) => {
                            args.push(crate::types::ArgValue::ValueArg(val));
                            pos = skip_annotations(v, j);
                        },
                        Result::Err(e) => {
                            return Result::Err(e);
                        },
                    }
                } else {
                    break ;
                }
            } else {
                break ;
            }
        }
        Result::Ok(
            (
                CompoundInstruction::Other(Instruction { location: a, name, args }),
                pos,
            ),
        )
    }
}

// `DIIP`, `DIIIP`, ...: `n` nested `DIP`s written as one word.
fn is_dip_macro(v: &Vec<u8>, a: usize, b: usize) -> (r: bool)
    requires
        a <= b <= v@.len(),
    ensures
        r ==> b >= a + 4,
{
    if b - a < 4 {
        return false;
    }
    if !(v[a] == 68 && v[b - 1] == 80) {
        return false;
    }
    let mut k = a + 1;
    while k < b - 1
        invariant
            a < k <= b - 1,
            b <= v@.len(),
        decreases b - k,
    {
        if v[k] != 73 {
            return false;
        }
        k = k + 1;
    }
    true
}

/// The entry point of the parser: it reads a whole instruction list.
pub struct InstructionListParser {}

impl InstructionListParser {
    /// A fresh parser.
    pub fn new() -> (r: InstructionListParser) {
        InstructionListParser {  }
    }

    /// Parse an instruction list from source text.  The source must be
    /// ASCII; instructions are separated by `;`, blocks stand in braces, and
    /// `#` comments are not accepted here (see `parse_contract`).
    pub fn parse(&self, src: &str) -> (r: Result<Vec<CompoundInstruction<SomeValue>>, String>) {
        if !src.is_ascii() {
            return Result::Err(String::from_str("The source must be ascii text"));
        }
        let v = src.as_bytes_vec();
        match parse_instr_list(&v, 0) {
            Result::Ok((ins, j)) => {
                let j2 = skip_ws(&v, j);
                if j2 < v.len() {
                    Result::Err(String::from_str("Unexpected trailing input"))
                } else {
                    Result::Ok(ins)
                }
            },
            Result::Err(e) => Result::Err(e),
        }
    }
}

/// Parse one type expression at a position in a byte buffer, returning the
/// position after it.
pub(crate) fn parse_type_prefix(v: &Vec<u8>, i: usize) -> (r: Result<(ConcreteType, usize), String>)
    requires
        i <= v@.len(),
    ensures
        r matches Result::Ok(p) ==> i < p.1 <= v@.len(),
{
    parse_type(v, i)
}

/// Parse one full type expression from source text.
pub fn parse_type_text(src: &str) -> (r: Result<ConcreteType, String>) {
    if !src.is_ascii() {
        return Result::Err(String::from_str("The source must be ascii text"));
    }
    let v = src.as_bytes_vec();
    match parse_type(&v, 0) {
        Result::Ok((t, j)) => {
            let j2 = skip_ws(&v, j);
            if j2 < v.len() {
                Result::Err(String::from_str("Unexpected trailing input"))
            } else {
                Result::Ok(t)
            }
        },
        Result::Err(e) => Result::Err(e),
    }
}

} // verus!
