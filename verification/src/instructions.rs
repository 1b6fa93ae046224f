//! The instruction schema registry: the polymorphic signatures of every
//! schema-driven instruction, keyed by mnemonic.

use crate::types::ArgConstraint;
use crate::types::AttrSet;
use crate::types::Constraint;
use crate::types::InstructionDef;
use crate::types::MAtomic;
use crate::types::MType;
use crate::types::SchemaModel;
use crate::types::StackResult;
use crate::types::StackResultElem;
use vstd::prelude::*;

verus! {

/// Relies on `str::eq`: two string slices are equal exactly when their
/// characters are.
#[verifier::external_body]
pub fn str_eq(a: &str, b: &str) -> (r: bool)
    ensures
        r == (a@ == b@),
{
    a == b
}

// Builders for the leaves and containers of schema expressions.  Each can be
// used in specifications as well, so the table below is written once.
/// The requirement set holding only *pushable*.
#[verifier::allow_in_spec]
pub fn a_pushable() -> AttrSet
    returns
        (AttrSet {
            comparable: false,
            passable: false,
            pushable: true,
            storable: false,
            packable: false,
            bigmap_value: false,
            duplicable: false,
        }),
{
    AttrSet {
        comparable: false,
        passable: false,
        pushable: true,
        storable: false,
        packable: false,
        bigmap_value: false,
        duplicable: false,
    }
}

/// The requirement set holding only *comparable*.
#[verifier::allow_in_spec]
pub fn a_comparable() -> AttrSet
    returns
        (AttrSet {
            comparable: true,
            passable: false,
            pushable: false,
            storable: false,
            packable: false,
            bigmap_value: false,
            duplicable: false,
        }),
{
    AttrSet {
        comparable: true,
        passable: false,
        pushable: false,
        storable: false,
        packable: false,
        bigmap_value: false,
        duplicable: false,
    }
}

/// A fresh type variable with no attribute requirement.
#[verifier::allow_in_spec]
pub fn wild(v: char) -> Constraint
    returns
        MType::MWrapped(ArgConstraint::CWarg(v, AttrSet::spec_none())),
{
    MType::MWrapped(ArgConstraint::CWarg(v, AttrSet::none()))
}

/// A fresh type variable that must satisfy the given attributes.
#[verifier::allow_in_spec]
pub fn wild_a(v: char, s: AttrSet) -> Constraint
    returns
        MType::MWrapped(ArgConstraint::CWarg(v, s)),
{
    MType::MWrapped(ArgConstraint::CWarg(v, s))
}

/// A type-annotation argument with no attribute requirement.
#[verifier::allow_in_spec]
pub fn targ(v: char) -> Constraint
    returns
        MType::MWrapped(ArgConstraint::CTypeArg(v, AttrSet::spec_none())),
{
    MType::MWrapped(ArgConstraint::CTypeArg(v, AttrSet::none()))
}

/// A type-annotation argument that must satisfy the given attributes.
#[verifier::allow_in_spec]
pub fn targ_a(v: char, s: AttrSet) -> Constraint
    returns
        MType::MWrapped(ArgConstraint::CTypeArg(v, s)),
{
    MType::MWrapped(ArgConstraint::CTypeArg(v, s))
}

/// A reuse of a variable bound earlier in the same schema.
#[verifier::allow_in_spec]
pub fn tref(v: char) -> Constraint
    returns
        MType::MWrapped(ArgConstraint::CTypeArgRef(v)),
{
    MType::MWrapped(ArgConstraint::CTypeArgRef(v))
}

/// Exactly this atomic ground type.
#[verifier::allow_in_spec]
pub fn atom(m: MAtomic) -> Constraint
    returns
        MType::MWrapped(ArgConstraint::CAtomic(m)),
{
    MType::MWrapped(ArgConstraint::CAtomic(m))
}

/// An output-stack reference to a bound variable.
#[verifier::allow_in_spec]
pub fn rref(v: char) -> StackResult
    returns
        MType::MWrapped(StackResultElem::TRef(v)),
{
    MType::MWrapped(StackResultElem::TRef(v))
}

/// An output-stack atomic ground type.
#[verifier::allow_in_spec]
pub fn ratom(m: MAtomic) -> StackResult
    returns
        MType::MWrapped(StackResultElem::ElemType(m)),
{
    MType::MWrapped(StackResultElem::ElemType(m))
}

/// A `list` node.
#[verifier::allow_in_spec]
pub fn t_list<T>(x: MType<T>) -> MType<T>
    returns
        MType::MList(Box::new(x)),
{
    MType::MList(Box::new(x))
}

/// A `set` node.
#[verifier::allow_in_spec]
pub fn t_set<T>(x: MType<T>) -> MType<T>
    returns
        MType::MSet(Box::new(x)),
{
    MType::MSet(Box::new(x))
}

/// An `option` node.
#[verifier::allow_in_spec]
pub fn t_option<T>(x: MType<T>) -> MType<T>
    returns
        MType::MOption(Box::new(x)),
{
    MType::MOption(Box::new(x))
}

/// A `contract` node.
#[verifier::allow_in_spec]
pub fn t_contract<T>(x: MType<T>) -> MType<T>
    returns
        MType::MContract(Box::new(x)),
{
    MType::MContract(Box::new(x))
}

/// A `pair` node.
#[verifier::allow_in_spec]
pub fn t_pair<T>(a: MType<T>, b: MType<T>) -> MType<T>
    returns
        MType::MPair(Box::new((a, b))),
{
    MType::MPair(Box::new((a, b)))
}

/// An `or` node.
#[verifier::allow_in_spec]
pub fn t_or<T>(a: MType<T>, b: MType<T>) -> MType<T>
    returns
        MType::MOr(Box::new((a, b))),
{
    MType::MOr(Box::new((a, b)))
}

/// A `lambda` node.
#[verifier::allow_in_spec]
pub fn t_lambda<T>(a: MType<T>, b: MType<T>) -> MType<T>
    returns
        MType::MLambda(Box::new((a, b))),
{
    MType::MLambda(Box::new((a, b)))
}

/// A `map` node.
#[verifier::allow_in_spec]
pub fn t_map<T>(a: MType<T>, b: MType<T>) -> MType<T>
    returns
        MType::MMap(Box::new((a, b))),
{
    MType::MMap(Box::new((a, b)))
}

/// A `big_map` node.
#[verifier::allow_in_spec]
pub fn t_big_map<T>(a: MType<T>, b: MType<T>) -> MType<T>
    returns
        MType::MBigMap(Box::new((a, b))),
{
    MType::MBigMap(Box::new((a, b)))
}

/// The schemas a list of instruction definitions stands for.
pub open spec fn defs_view(v: Vec<InstructionDef>) -> Seq<SchemaModel> {
    v@.map_values(|d: InstructionDef| d@)
}

/// The schemas of `APPLY`.
pub open spec fn s_apply() -> Seq<SchemaModel> {
    seq![
        SchemaModel { args: seq![], input_stack: seq![wild('a'), t_lambda(t_pair(tref('a'), wild('b')), wild('c'))], output_stack: seq![t_lambda(rref('b'), rref('c'))] },
    ]
}

fn d_apply() -> (r: Vec<InstructionDef>)
    ensures
        defs_view(r) == s_apply(),
{
    let r = vec![
        InstructionDef { args: vec![], input_stack: vec![wild('a'), t_lambda(t_pair(tref('a'), wild('b')), wild('c'))], output_stack: vec![t_lambda(rref('b'), rref('c'))] },
    ];
    proof {
        assert(defs_view(r)[0] =~~= s_apply()[0]);
        assert(defs_view(r) =~~= s_apply());
    }
    r
}

/// The schemas of `CAR`.
pub open spec fn s_car() -> Seq<SchemaModel> {
    seq![
        SchemaModel { args: seq![], input_stack: seq![t_pair(wild('a'), wild('b'))], output_stack: seq![rref('a')] },
    ]
}

fn d_car() -> (r: Vec<InstructionDef>)
    ensures
        defs_view(r) == s_car(),
{
    let r = vec![
        InstructionDef { args: vec![], input_stack: vec![t_pair(wild('a'), wild('b'))], output_stack: vec![rref('a')] },
    ];
    proof {
        assert(defs_view(r)[0] =~~= s_car()[0]);
        assert(defs_view(r) =~~= s_car());
    }
    r
}

/// The schemas of `CDR`.
pub open spec fn s_cdr() -> Seq<SchemaModel> {
    seq![
        SchemaModel { args: seq![], input_stack: seq![t_pair(wild('a'), wild('b'))], output_stack: seq![rref('b')] },
    ]
}

fn d_cdr() -> (r: Vec<InstructionDef>)
    ensures
        defs_view(r) == s_cdr(),
{
    let r = vec![
        InstructionDef { args: vec![], input_stack: vec![t_pair(wild('a'), wild('b'))], output_stack: vec![rref('b')] },
    ];
    proof {
        assert(defs_view(r)[0] =~~= s_cdr()[0]);
        assert(defs_view(r) =~~= s_cdr());
    }
    r
}

/// The schemas of `HASH_KEY`.
pub open spec fn s_hash_key() -> Seq<SchemaModel> {
    seq![
        SchemaModel { args: seq![], input_stack: seq![atom(MAtomic::MKey)], output_stack: seq![ratom(MAtomic::MKeyHash)] },
    ]
}

fn d_hash_key() -> (r: Vec<InstructionDef>)
    ensures
        defs_view(r) == s_hash_key(),
{
    let r = vec![
        InstructionDef { args: vec![], input_stack: vec![atom(MAtomic::MKey)], output_stack: vec![ratom(MAtomic::MKeyHash)] },
    ];
    proof {
        assert(defs_view(r)[0] =~~= s_hash_key()[0]);
        assert(defs_view(r) =~~= s_hash_key());
    }
    r
}

/// The schemas of `IMPLICIT_ACCOUNT`.
pub open spec fn s_implicit_account() -> Seq<SchemaModel> {
    seq![
        SchemaModel { args: seq![], input_stack: seq![atom(MAtomic::MKeyHash)], output_stack: seq![t_contract(ratom(MAtomic::MUnit))] },
    ]
}

fn d_implicit_account() -> (r: Vec<InstructionDef>)
    ensures
        defs_view(r) == s_implicit_account(),
{
    let r = vec![
        InstructionDef { args: vec![], input_stack: vec![atom(MAtomic::MKeyHash)], output_stack: vec![t_contract(ratom(MAtomic::MUnit))] },
    ];
    proof {
        assert(defs_view(r)[0] =~~= s_implicit_account()[0]);
        assert(defs_view(r) =~~= s_implicit_account());
    }
    r
}

/// The schemas of `SWAP`.
pub open spec fn s_swap() -> Seq<SchemaModel> {
    seq![
        SchemaModel { args: seq![], input_stack: seq![wild('a'), wild('b')], output_stack: seq![rref('b'), rref('a')] },
    ]
}

fn d_swap() -> (r: Vec<InstructionDef>)
    ensures
        defs_view(r) == s_swap(),
{
    let r = vec![
        InstructionDef { args: vec![], input_stack: vec![wild('a'), wild('b')], output_stack: vec![rref('b'), rref('a')] },
    ];
    proof {
        assert(defs_view(r)[0] =~~= s_swap()[0]);
        assert(defs_view(r) =~~= s_swap());
    }
    r
}

/// The schemas of `NIL`.
pub open spec fn s_nil() -> Seq<SchemaModel> {
    seq![
        SchemaModel { args: seq![targ('a')], input_stack: seq![], output_stack: seq![t_list(rref('a'))] },
    ]
}

fn d_nil() -> (r: Vec<InstructionDef>)
    ensures
        defs_view(r) == s_nil(),
{
    let r = vec![
        InstructionDef { args: vec![targ('a')], input_stack: vec![], output_stack: vec![t_list(rref('a'))] },
    ];
    proof {
        assert(defs_view(r)[0] =~~= s_nil()[0]);
        assert(defs_view(r) =~~= s_nil());
    }
    r
}

/// The schemas of `CAST`.
pub open spec fn s_cast() -> Seq<SchemaModel> {
    seq![
        SchemaModel { args: seq![], input_stack: seq![], output_stack: seq![] },
    ]
}

fn d_cast() -> (r: Vec<InstructionDef>)
    ensures
        defs_view(r) == s_cast(),
{
    let r = vec![
        InstructionDef { args: vec![], input_stack: vec![], output_stack: vec![] },
    ];
    proof {
        assert(defs_view(r)[0] =~~= s_cast()[0]);
        assert(defs_view(r) =~~= s_cast());
    }
    r
}

/// The schemas of `VIEW`.
pub open spec fn s_view() -> Seq<SchemaModel> {
    seq![
        SchemaModel { args: seq![atom(MAtomic::MString), targ('a')], input_stack: seq![wild('b'), atom(MAtomic::MAddress)], output_stack: seq![t_option(rref('a'))] },
    ]
}

fn d_view() -> (r: Vec<InstructionDef>)
    ensures
        defs_view(r) == s_view(),
{
    let r = vec![
        InstructionDef { args: vec![atom(MAtomic::MString), targ('a')], input_stack: vec![wild('b'), atom(MAtomic::MAddress)], output_stack: vec![t_option(rref('a'))] },
    ];
    proof {
        assert(defs_view(r)[0] =~~= s_view()[0]);
        assert(defs_view(r) =~~= s_view());
    }
    r
}

/// The schemas of `SENDER`.
pub open spec fn s_sender() -> Seq<SchemaModel> {
    seq![
        SchemaModel { args: seq![], input_stack: seq![], output_stack: seq![ratom(MAtomic::MAddress)] },
    ]
}

fn d_sender() -> (r: Vec<InstructionDef>)
    ensures
        defs_view(r) == s_sender(),
{
    let r = vec![
        InstructionDef { args: vec![], input_stack: vec![], output_stack: vec![ratom(MAtomic::MAddress)] },
    ];
    proof {
        assert(defs_view(r)[0] =~~= s_sender()[0]);
        assert(defs_view(r) =~~= s_sender());
    }
    r
}

/// The schemas of `EMPTY_BIG_MAP`.
pub open spec fn s_empty_big_map() -> Seq<SchemaModel> {
    seq![
        SchemaModel { args: seq![targ('a'), targ('b')], input_stack: seq![], output_stack: seq![t_big_map(rref('a'), rref('b'))] },
    ]
}

fn d_empty_big_map() -> (r: Vec<InstructionDef>)
    ensures
        defs_view(r) == s_empty_big_map(),
{
    let r = vec![
        InstructionDef { args: vec![targ('a'), targ('b')], input_stack: vec![], output_stack: vec![t_big_map(rref('a'), rref('b'))] },
    ];
    proof {
        assert(defs_view(r)[0] =~~= s_empty_big_map()[0]);
        assert(defs_view(r) =~~= s_empty_big_map());
    }
    r
}

/// The schemas of `NOT`.
pub open spec fn s_not() -> Seq<SchemaModel> {
    seq![
        SchemaModel { args: seq![], input_stack: seq![atom(MAtomic::MBool)], output_stack: seq![ratom(MAtomic::MBool)] },
        SchemaModel { args: seq![], input_stack: seq![atom(MAtomic::MNat)], output_stack: seq![ratom(MAtomic::MInt)] },
        SchemaModel { args: seq![], input_stack: seq![atom(MAtomic::MInt)], output_stack: seq![ratom(MAtomic::MInt)] },
        SchemaModel { args: seq![], input_stack: seq![atom(MAtomic::MBytes)], output_stack: seq![ratom(MAtomic::MBytes)] },
    ]
}

fn d_not() -> (r: Vec<InstructionDef>)
    ensures
        defs_view(r) == s_not(),
{
    let r = vec![
        InstructionDef { args: vec![], input_stack: vec![atom(MAtomic::MBool)], output_stack: vec![ratom(MAtomic::MBool)] },
        InstructionDef { args: vec![], input_stack: vec![atom(MAtomic::MNat)], output_stack: vec![ratom(MAtomic::MInt)] },
        InstructionDef { args: vec![], input_stack: vec![atom(MAtomic::MInt)], output_stack: vec![ratom(MAtomic::MInt)] },
        InstructionDef { args: vec![], input_stack: vec![atom(MAtomic::MBytes)], output_stack: vec![ratom(MAtomic::MBytes)] },
    ];
    proof {
        assert(defs_view(r)[0] =~~= s_not()[0]);
        assert(defs_view(r)[1] =~~= s_not()[1]);
        assert(defs_view(r)[2] =~~= s_not()[2]);
        assert(defs_view(r)[3] =~~= s_not()[3]);
        assert(defs_view(r) =~~= s_not());
    }
    r
}

/// The schemas of `MEM`.
pub open spec fn s_mem() -> Seq<SchemaModel> {
    seq![
        SchemaModel { args: seq![], input_stack: seq![wild('k'), t_set(tref('k'))], output_stack: seq![ratom(MAtomic::MBool)] },
        SchemaModel { args: seq![], input_stack: seq![wild('k'), t_map(tref('k'), wild('b'))], output_stack: seq![ratom(MAtomic::MBool)] },
        SchemaModel { args: seq![], input_stack: seq![wild('k'), t_big_map(tref('k'), wild('b'))], output_stack: seq![ratom(MAtomic::MBool)] },
    ]
}

fn d_mem() -> (r: Vec<InstructionDef>)
    ensures
        defs_view(r) == s_mem(),
{
    let r = vec![
        InstructionDef { args: vec![], input_stack: vec![wild('k'), t_set(tref('k'))], output_stack: vec![ratom(MAtomic::MBool)] },
        InstructionDef { args: vec![], input_stack: vec![wild('k'), t_map(tref('k'), wild('b'))], output_stack: vec![ratom(MAtomic::MBool)] },
        InstructionDef { args: vec![], input_stack: vec![wild('k'), t_big_map(tref('k'), wild('b'))], output_stack: vec![ratom(MAtomic::MBool)] },
    ];
    proof {
        assert(defs_view(r)[0] =~~= s_mem()[0]);
        assert(defs_view(r)[1] =~~= s_mem()[1]);
        assert(defs_view(r)[2] =~~= s_mem()[2]);
        assert(defs_view(r) =~~= s_mem());
    }
    r
}

/// The schemas of `MUL`.
pub open spec fn s_mul() -> Seq<SchemaModel> {
    seq![
        SchemaModel { args: seq![], input_stack: seq![atom(MAtomic::MInt), atom(MAtomic::MNat)], output_stack: seq![ratom(MAtomic::MInt)] },
        SchemaModel { args: seq![], input_stack: seq![atom(MAtomic::MNat), atom(MAtomic::MMutez)], output_stack: seq![ratom(MAtomic::MMutez)] },
        SchemaModel { args: seq![], input_stack: seq![atom(MAtomic::MMutez), atom(MAtomic::MNat)], output_stack: seq![ratom(MAtomic::MMutez)] },
        SchemaModel { args: seq![], input_stack: seq![atom(MAtomic::MInt), atom(MAtomic::MInt)], output_stack: seq![ratom(MAtomic::MInt)] },
        SchemaModel { args: seq![], input_stack: seq![atom(MAtomic::MNat), atom(MAtomic::MNat)], output_stack: seq![ratom(MAtomic::MNat)] },
        SchemaModel { args: seq![], input_stack: seq![atom(MAtomic::MNat), atom(MAtomic::MInt)], output_stack: seq![ratom(MAtomic::MInt)] },
    ]
}

fn d_mul() -> (r: Vec<InstructionDef>)
    ensures
        defs_view(r) == s_mul(),
{
    let r = vec![
        InstructionDef { args: vec![], input_stack: vec![atom(MAtomic::MInt), atom(MAtomic::MNat)], output_stack: vec![ratom(MAtomic::MInt)] },
        InstructionDef { args: vec![], input_stack: vec![atom(MAtomic::MNat), atom(MAtomic::MMutez)], output_stack: vec![ratom(MAtomic::MMutez)] },
        InstructionDef { args: vec![], input_stack: vec![atom(MAtomic::MMutez), atom(MAtomic::MNat)], output_stack: vec![ratom(MAtomic::MMutez)] },
        InstructionDef { args: vec![], input_stack: vec![atom(MAtomic::MInt), atom(MAtomic::MInt)], output_stack: vec![ratom(MAtomic::MInt)] },
        InstructionDef { args: vec![], input_stack: vec![atom(MAtomic::MNat), atom(MAtomic::MNat)], output_stack: vec![ratom(MAtomic::MNat)] },
        InstructionDef { args: vec![], input_stack: vec![atom(MAtomic::MNat), atom(MAtomic::MInt)], output_stack: vec![ratom(MAtomic::MInt)] },
    ];
    proof {
        assert(defs_view(r)[0] =~~= s_mul()[0]);
        assert(defs_view(r)[1] =~~= s_mul()[1]);
        assert(defs_view(r)[2] =~~= s_mul()[2]);
        assert(defs_view(r)[3] =~~= s_mul()[3]);
        assert(defs_view(r)[4] =~~= s_mul()[4]);
        assert(defs_view(r)[5] =~~= s_mul()[5]);
        assert(defs_view(r) =~~= s_mul());
    }
    r
}

/// The schemas of `SIZE`.
pub open spec fn s_size() -> Seq<SchemaModel> {
    seq![
        SchemaModel { args: seq![], input_stack: seq![t_set(wild('b'))], output_stack: seq![ratom(MAtomic::MNat)] },
        SchemaModel { args: seq![], input_stack: seq![t_map(wild('a'), wild('b'))], output_stack: seq![ratom(MAtomic::MNat)] },
        SchemaModel { args: seq![], input_stack: seq![t_list(wild('a'))], output_stack: seq![ratom(MAtomic::MNat)] },
        SchemaModel { args: seq![], input_stack: seq![atom(MAtomic::MString)], output_stack: seq![ratom(MAtomic::MNat)] },
        SchemaModel { args: seq![], input_stack: seq![atom(MAtomic::MBytes)], output_stack: seq![ratom(MAtomic::MNat)] },
    ]
}

fn d_size() -> (r: Vec<InstructionDef>)
    ensures
        defs_view(r) == s_size(),
{
    let r = vec![
        InstructionDef { args: vec![], input_stack: vec![t_set(wild('b'))], output_stack: vec![ratom(MAtomic::MNat)] },
        InstructionDef { args: vec![], input_stack: vec![t_map(wild('a'), wild('b'))], output_stack: vec![ratom(MAtomic::MNat)] },
        InstructionDef { args: vec![], input_stack: vec![t_list(wild('a'))], output_stack: vec![ratom(MAtomic::MNat)] },
        InstructionDef { args: vec![], input_stack: vec![atom(MAtomic::MString)], output_stack: vec![ratom(MAtomic::MNat)] },
        InstructionDef { args: vec![], input_stack: vec![atom(MAtomic::MBytes)], output_stack: vec![ratom(MAtomic::MNat)] },
    ];
    proof {
        assert(defs_view(r)[0] =~~= s_size()[0]);
        assert(defs_view(r)[1] =~~= s_size()[1]);
        assert(defs_view(r)[2] =~~= s_size()[2]);
        assert(defs_view(r)[3] =~~= s_size()[3]);
        assert(defs_view(r)[4] =~~= s_size()[4]);
        assert(defs_view(r) =~~= s_size());
    }
    r
}

/// The schemas of `ADD`.
pub open spec fn s_add() -> Seq<SchemaModel> {
    seq![
        SchemaModel { args: seq![], input_stack: seq![atom(MAtomic::MMutez), atom(MAtomic::MMutez)], output_stack: seq![ratom(MAtomic::MMutez)] },
        SchemaModel { args: seq![], input_stack: seq![atom(MAtomic::MInt), atom(MAtomic::MTimestamp)], output_stack: seq![ratom(MAtomic::MTimestamp)] },
        SchemaModel { args: seq![], input_stack: seq![atom(MAtomic::MTimestamp), atom(MAtomic::MInt)], output_stack: seq![ratom(MAtomic::MTimestamp)] },
        SchemaModel { args: seq![], input_stack: seq![atom(MAtomic::MInt), atom(MAtomic::MNat)], output_stack: seq![ratom(MAtomic::MInt)] },
        SchemaModel { args: seq![], input_stack: seq![atom(MAtomic::MNat), atom(MAtomic::MInt)], output_stack: seq![ratom(MAtomic::MInt)] },
        SchemaModel { args: seq![], input_stack: seq![atom(MAtomic::MNat), atom(MAtomic::MNat)], output_stack: seq![ratom(MAtomic::MNat)] },
        SchemaModel { args: seq![], input_stack: seq![atom(MAtomic::MInt), atom(MAtomic::MInt)], output_stack: seq![ratom(MAtomic::MInt)] },
    ]
}

fn d_add() -> (r: Vec<InstructionDef>)
    ensures
        defs_view(r) == s_add(),
{
    let r = vec![
        InstructionDef { args: vec![], input_stack: vec![atom(MAtomic::MMutez), atom(MAtomic::MMutez)], output_stack: vec![ratom(MAtomic::MMutez)] },
        InstructionDef { args: vec![], input_stack: vec![atom(MAtomic::MInt), atom(MAtomic::MTimestamp)], output_stack: vec![ratom(MAtomic::MTimestamp)] },
        InstructionDef { args: vec![], input_stack: vec![atom(MAtomic::MTimestamp), atom(MAtomic::MInt)], output_stack: vec![ratom(MAtomic::MTimestamp)] },
        InstructionDef { args: vec![], input_stack: vec![atom(MAtomic::MInt), atom(MAtomic::MNat)], output_stack: vec![ratom(MAtomic::MInt)] },
        InstructionDef { args: vec![], input_stack: vec![atom(MAtomic::MNat), atom(MAtomic::MInt)], output_stack: vec![ratom(MAtomic::MInt)] },
        InstructionDef { args: vec![], input_stack: vec![atom(MAtomic::MNat), atom(MAtomic::MNat)], output_stack: vec![ratom(MAtomic::MNat)] },
        InstructionDef { args: vec![], input_stack: vec![atom(MAtomic::MInt), atom(MAtomic::MInt)], output_stack: vec![ratom(MAtomic::MInt)] },
    ];
    proof {
        assert(defs_view(r)[0] =~~= s_add()[0]);
        assert(defs_view(r)[1] =~~= s_add()[1]);
        assert(defs_view(r)[2] =~~= s_add()[2]);
        assert(defs_view(r)[3] =~~= s_add()[3]);
        assert(defs_view(r)[4] =~~= s_add()[4]);
        assert(defs_view(r)[5] =~~= s_add()[5]);
        assert(defs_view(r)[6] =~~= s_add()[6]);
        assert(defs_view(r) =~~= s_add());
    }
    r
}

/// The schemas of `AND`.
pub open spec fn s_and() -> Seq<SchemaModel> {
    seq![
        SchemaModel { args: seq![], input_stack: seq![atom(MAtomic::MBool), atom(MAtomic::MBool)], output_stack: seq![ratom(MAtomic::MBool)] },
        SchemaModel { args: seq![], input_stack: seq![atom(MAtomic::MNat), atom(MAtomic::MNat)], output_stack: seq![ratom(MAtomic::MNat)] },
        SchemaModel { args: seq![], input_stack: seq![atom(MAtomic::MInt), atom(MAtomic::MNat)], output_stack: seq![ratom(MAtomic::MNat)] },
        SchemaModel { args: seq![], input_stack: seq![atom(MAtomic::MBytes), atom(MAtomic::MBytes)], output_stack: seq![ratom(MAtomic::MBytes)] },
    ]
}

fn d_and() -> (r: Vec<InstructionDef>)
    ensures
        defs_view(r) == s_and(),
{
    let r = vec![
        InstructionDef { args: vec![], input_stack: vec![atom(MAtomic::MBool), atom(MAtomic::MBool)], output_stack: vec![ratom(MAtomic::MBool)] },
        InstructionDef { args: vec![], input_stack: vec![atom(MAtomic::MNat), atom(MAtomic::MNat)], output_stack: vec![ratom(MAtomic::MNat)] },
        InstructionDef { args: vec![], input_stack: vec![atom(MAtomic::MInt), atom(MAtomic::MNat)], output_stack: vec![ratom(MAtomic::MNat)] },
        InstructionDef { args: vec![], input_stack: vec![atom(MAtomic::MBytes), atom(MAtomic::MBytes)], output_stack: vec![ratom(MAtomic::MBytes)] },
    ];
    proof {
        assert(defs_view(r)[0] =~~= s_and()[0]);
        assert(defs_view(r)[1] =~~= s_and()[1]);
        assert(defs_view(r)[2] =~~= s_and()[2]);
        assert(defs_view(r)[3] =~~= s_and()[3]);
        assert(defs_view(r) =~~= s_and());
    }
    r
}

/// The schemas of `SUB`.
pub open spec fn s_sub() -> Seq<SchemaModel> {
    seq![
        SchemaModel { args: seq![], input_stack: seq![atom(MAtomic::MNat), atom(MAtomic::MNat)], output_stack: seq![ratom(MAtomic::MInt)] },
        SchemaModel { args: seq![], input_stack: seq![atom(MAtomic::MInt), atom(MAtomic::MInt)], output_stack: seq![ratom(MAtomic::MInt)] },
        SchemaModel { args: seq![], input_stack: seq![atom(MAtomic::MInt), atom(MAtomic::MNat)], output_stack: seq![ratom(MAtomic::MInt)] },
        SchemaModel { args: seq![], input_stack: seq![atom(MAtomic::MNat), atom(MAtomic::MInt)], output_stack: seq![ratom(MAtomic::MInt)] },
        SchemaModel { args: seq![], input_stack: seq![atom(MAtomic::MTimestamp), atom(MAtomic::MInt)], output_stack: seq![ratom(MAtomic::MTimestamp)] },
        SchemaModel { args: seq![], input_stack: seq![atom(MAtomic::MTimestamp), atom(MAtomic::MTimestamp)], output_stack: seq![ratom(MAtomic::MInt)] },
        SchemaModel { args: seq![], input_stack: seq![atom(MAtomic::MMutez), atom(MAtomic::MMutez)], output_stack: seq![t_option(ratom(MAtomic::MMutez))] },
    ]
}

fn d_sub() -> (r: Vec<InstructionDef>)
    ensures
        defs_view(r) == s_sub(),
{
    let r = vec![
        InstructionDef { args: vec![], input_stack: vec![atom(MAtomic::MNat), atom(MAtomic::MNat)], output_stack: vec![ratom(MAtomic::MInt)] },
        InstructionDef { args: vec![], input_stack: vec![atom(MAtomic::MInt), atom(MAtomic::MInt)], output_stack: vec![ratom(MAtomic::MInt)] },
        InstructionDef { args: vec![], input_stack: vec![atom(MAtomic::MInt), atom(MAtomic::MNat)], output_stack: vec![ratom(MAtomic::MInt)] },
        InstructionDef { args: vec![], input_stack: vec![atom(MAtomic::MNat), atom(MAtomic::MInt)], output_stack: vec![ratom(MAtomic::MInt)] },
        InstructionDef { args: vec![], input_stack: vec![atom(MAtomic::MTimestamp), atom(MAtomic::MInt)], output_stack: vec![ratom(MAtomic::MTimestamp)] },
        InstructionDef { args: vec![], input_stack: vec![atom(MAtomic::MTimestamp), atom(MAtomic::MTimestamp)], output_stack: vec![ratom(MAtomic::MInt)] },
        InstructionDef { args: vec![], input_stack: vec![atom(MAtomic::MMutez), atom(MAtomic::MMutez)], output_stack: vec![t_option(ratom(MAtomic::MMutez))] },
    ];
    proof {
        assert(defs_view(r)[0] =~~= s_sub()[0]);
        assert(defs_view(r)[1] =~~= s_sub()[1]);
        assert(defs_view(r)[2] =~~= s_sub()[2]);
        assert(defs_view(r)[3] =~~= s_sub()[3]);
        assert(defs_view(r)[4] =~~= s_sub()[4]);
        assert(defs_view(r)[5] =~~= s_sub()[5]);
        assert(defs_view(r)[6] =~~= s_sub()[6]);
        assert(defs_view(r) =~~= s_sub());
    }
    r
}

/// The schemas of `OR`.
pub open spec fn s_or() -> Seq<SchemaModel> {
    seq![
        SchemaModel { args: seq![], input_stack: seq![atom(MAtomic::MBool), atom(MAtomic::MBool)], output_stack: seq![ratom(MAtomic::MBool)] },
        SchemaModel { args: seq![], input_stack: seq![atom(MAtomic::MNat), atom(MAtomic::MNat)], output_stack: seq![ratom(MAtomic::MNat)] },
        SchemaModel { args: seq![], input_stack: seq![atom(MAtomic::MBytes), atom(MAtomic::MBytes)], output_stack: seq![ratom(MAtomic::MBytes)] },
    ]
}

fn d_or() -> (r: Vec<InstructionDef>)
    ensures
        defs_view(r) == s_or(),
{
    let r = vec![
        InstructionDef { args: vec![], input_stack: vec![atom(MAtomic::MBool), atom(MAtomic::MBool)], output_stack: vec![ratom(MAtomic::MBool)] },
        InstructionDef { args: vec![], input_stack: vec![atom(MAtomic::MNat), atom(MAtomic::MNat)], output_stack: vec![ratom(MAtomic::MNat)] },
        InstructionDef { args: vec![], input_stack: vec![atom(MAtomic::MBytes), atom(MAtomic::MBytes)], output_stack: vec![ratom(MAtomic::MBytes)] },
    ];
    proof {
        assert(defs_view(r)[0] =~~= s_or()[0]);
        assert(defs_view(r)[1] =~~= s_or()[1]);
        assert(defs_view(r)[2] =~~= s_or()[2]);
        assert(defs_view(r) =~~= s_or());
    }
    r
}

/// The schemas of `XOR`.
pub open spec fn s_xor() -> Seq<SchemaModel> {
    seq![
        SchemaModel { args: seq![], input_stack: seq![atom(MAtomic::MBool), atom(MAtomic::MBool)], output_stack: seq![ratom(MAtomic::MBool)] },
        SchemaModel { args: seq![], input_stack: seq![atom(MAtomic::MNat), atom(MAtomic::MNat)], output_stack: seq![ratom(MAtomic::MNat)] },
        SchemaModel { args: seq![], input_stack: seq![atom(MAtomic::MBytes), atom(MAtomic::MBytes)], output_stack: seq![ratom(MAtomic::MBytes)] },
    ]
}

fn d_xor() -> (r: Vec<InstructionDef>)
    ensures
        defs_view(r) == s_xor(),
{
    let r = vec![
        InstructionDef { args: vec![], input_stack: vec![atom(MAtomic::MBool), atom(MAtomic::MBool)], output_stack: vec![ratom(MAtomic::MBool)] },
        InstructionDef { args: vec![], input_stack: vec![atom(MAtomic::MNat), atom(MAtomic::MNat)], output_stack: vec![ratom(MAtomic::MNat)] },
        InstructionDef { args: vec![], input_stack: vec![atom(MAtomic::MBytes), atom(MAtomic::MBytes)], output_stack: vec![ratom(MAtomic::MBytes)] },
    ];
    proof {
        assert(defs_view(r)[0] =~~= s_xor()[0]);
        assert(defs_view(r)[1] =~~= s_xor()[1]);
        assert(defs_view(r)[2] =~~= s_xor()[2]);
        assert(defs_view(r) =~~= s_xor());
    }
    r
}

/// The schemas of `GET`.
pub open spec fn s_get() -> Seq<SchemaModel> {
    seq![
        SchemaModel { args: seq![], input_stack: seq![wild('k'), t_map(tref('k'), wild('v'))], output_stack: seq![t_option(rref('v'))] },
        SchemaModel { args: seq![], input_stack: seq![wild('k'), t_big_map(tref('k'), wild('v'))], output_stack: seq![t_option(rref('v'))] },
    ]
}

fn d_get() -> (r: Vec<InstructionDef>)
    ensures
        defs_view(r) == s_get(),
{
    let r = vec![
        InstructionDef { args: vec![], input_stack: vec![wild('k'), t_map(tref('k'), wild('v'))], output_stack: vec![t_option(rref('v'))] },
        InstructionDef { args: vec![], input_stack: vec![wild('k'), t_big_map(tref('k'), wild('v'))], output_stack: vec![t_option(rref('v'))] },
    ];
    proof {
        assert(defs_view(r)[0] =~~= s_get()[0]);
        assert(defs_view(r)[1] =~~= s_get()[1]);
        assert(defs_view(r) =~~= s_get());
    }
    r
}

/// The schemas of `EDIV`.
pub open spec fn s_ediv() -> Seq<SchemaModel> {
    seq![
        SchemaModel { args: seq![], input_stack: seq![atom(MAtomic::MNat), atom(MAtomic::MNat)], output_stack: seq![t_option(t_pair(ratom(MAtomic::MNat), ratom(MAtomic::MNat)))] },
        SchemaModel { args: seq![], input_stack: seq![atom(MAtomic::MNat), atom(MAtomic::MInt)], output_stack: seq![t_option(t_pair(ratom(MAtomic::MInt), ratom(MAtomic::MNat)))] },
        SchemaModel { args: seq![], input_stack: seq![atom(MAtomic::MInt), atom(MAtomic::MNat)], output_stack: seq![t_option(t_pair(ratom(MAtomic::MInt), ratom(MAtomic::MNat)))] },
        SchemaModel { args: seq![], input_stack: seq![atom(MAtomic::MInt), atom(MAtomic::MInt)], output_stack: seq![t_option(t_pair(ratom(MAtomic::MInt), ratom(MAtomic::MNat)))] },
        SchemaModel { args: seq![], input_stack: seq![atom(MAtomic::MMutez), atom(MAtomic::MNat)], output_stack: seq![t_option(t_pair(ratom(MAtomic::MMutez), ratom(MAtomic::MMutez)))] },
        SchemaModel { args: seq![], input_stack: seq![atom(MAtomic::MMutez), atom(MAtomic::MMutez)], output_stack: seq![t_option(t_pair(ratom(MAtomic::MNat), ratom(MAtomic::MMutez)))] },
    ]
}

fn d_ediv() -> (r: Vec<InstructionDef>)
    ensures
        defs_view(r) == s_ediv(),
{
    let r = vec![
        InstructionDef { args: vec![], input_stack: vec![atom(MAtomic::MNat), atom(MAtomic::MNat)], output_stack: vec![t_option(t_pair(ratom(MAtomic::MNat), ratom(MAtomic::MNat)))] },
        InstructionDef { args: vec![], input_stack: vec![atom(MAtomic::MNat), atom(MAtomic::MInt)], output_stack: vec![t_option(t_pair(ratom(MAtomic::MInt), ratom(MAtomic::MNat)))] },
        InstructionDef { args: vec![], input_stack: vec![atom(MAtomic::MInt), atom(MAtomic::MNat)], output_stack: vec![t_option(t_pair(ratom(MAtomic::MInt), ratom(MAtomic::MNat)))] },
        InstructionDef { args: vec![], input_stack: vec![atom(MAtomic::MInt), atom(MAtomic::MInt)], output_stack: vec![t_option(t_pair(ratom(MAtomic::MInt), ratom(MAtomic::MNat)))] },
        InstructionDef { args: vec![], input_stack: vec![atom(MAtomic::MMutez), atom(MAtomic::MNat)], output_stack: vec![t_option(t_pair(ratom(MAtomic::MMutez), ratom(MAtomic::MMutez)))] },
        InstructionDef { args: vec![], input_stack: vec![atom(MAtomic::MMutez), atom(MAtomic::MMutez)], output_stack: vec![t_option(t_pair(ratom(MAtomic::MNat), ratom(MAtomic::MMutez)))] },
    ];
    proof {
        assert(defs_view(r)[0] =~~= s_ediv()[0]);
        assert(defs_view(r)[1] =~~= s_ediv()[1]);
        assert(defs_view(r)[2] =~~= s_ediv()[2]);
        assert(defs_view(r)[3] =~~= s_ediv()[3]);
        assert(defs_view(r)[4] =~~= s_ediv()[4]);
        assert(defs_view(r)[5] =~~= s_ediv()[5]);
        assert(defs_view(r) =~~= s_ediv());
    }
    r
}

/// The schemas of `INT`.
pub open spec fn s_int() -> Seq<SchemaModel> {
    seq![
        SchemaModel { args: seq![], input_stack: seq![atom(MAtomic::MNat)], output_stack: seq![ratom(MAtomic::MInt)] },
    ]
}

fn d_int() -> (r: Vec<InstructionDef>)
    ensures
        defs_view(r) == s_int(),
{
    let r = vec![
        InstructionDef { args: vec![], input_stack: vec![atom(MAtomic::MNat)], output_stack: vec![ratom(MAtomic::MInt)] },
    ];
    proof {
        assert(defs_view(r)[0] =~~= s_int()[0]);
        assert(defs_view(r) =~~= s_int());
    }
    r
}

/// The schemas of `SOME`.
pub open spec fn s_some() -> Seq<SchemaModel> {
    seq![
        SchemaModel { args: seq![], input_stack: seq![wild('a')], output_stack: seq![t_option(rref('a'))] },
    ]
}

fn d_some() -> (r: Vec<InstructionDef>)
    ensures
        defs_view(r) == s_some(),
{
    let r = vec![
        InstructionDef { args: vec![], input_stack: vec![wild('a')], output_stack: vec![t_option(rref('a'))] },
    ];
    proof {
        assert(defs_view(r)[0] =~~= s_some()[0]);
        assert(defs_view(r) =~~= s_some());
    }
    r
}

/// The schemas of `NONE`.
pub open spec fn s_none() -> Seq<SchemaModel> {
    seq![
        SchemaModel { args: seq![targ('a')], input_stack: seq![], output_stack: seq![t_option(rref('a'))] },
    ]
}

fn d_none() -> (r: Vec<InstructionDef>)
    ensures
        defs_view(r) == s_none(),
{
    let r = vec![
        InstructionDef { args: vec![targ('a')], input_stack: vec![], output_stack: vec![t_option(rref('a'))] },
    ];
    proof {
        assert(defs_view(r)[0] =~~= s_none()[0]);
        assert(defs_view(r) =~~= s_none());
    }
    r
}

/// The schemas of `UPDATE`.
pub open spec fn s_update() -> Seq<SchemaModel> {
    seq![
        SchemaModel { args: seq![], input_stack: seq![wild('k'), t_option(wild('v')), t_map(tref('k'), tref('v'))], output_stack: seq![t_map(rref('k'), rref('v'))] },
        SchemaModel { args: seq![], input_stack: seq![wild('k'), t_option(wild('v')), t_big_map(tref('k'), tref('v'))], output_stack: seq![t_big_map(rref('k'), rref('v'))] },
        SchemaModel { args: seq![], input_stack: seq![wild('k'), atom(MAtomic::MBool), t_set(tref('k'))], output_stack: seq![t_set(rref('k'))] },
    ]
}

fn d_update() -> (r: Vec<InstructionDef>)
    ensures
        defs_view(r) == s_update(),
{
    let r = vec![
        InstructionDef { args: vec![], input_stack: vec![wild('k'), t_option(wild('v')), t_map(tref('k'), tref('v'))], output_stack: vec![t_map(rref('k'), rref('v'))] },
        InstructionDef { args: vec![], input_stack: vec![wild('k'), t_option(wild('v')), t_big_map(tref('k'), tref('v'))], output_stack: vec![t_big_map(rref('k'), rref('v'))] },
        InstructionDef { args: vec![], input_stack: vec![wild('k'), atom(MAtomic::MBool), t_set(tref('k'))], output_stack: vec![t_set(rref('k'))] },
    ];
    proof {
        assert(defs_view(r)[0] =~~= s_update()[0]);
        assert(defs_view(r)[1] =~~= s_update()[1]);
        assert(defs_view(r)[2] =~~= s_update()[2]);
        assert(defs_view(r) =~~= s_update());
    }
    r
}

/// The schemas of `CONS`.
pub open spec fn s_cons() -> Seq<SchemaModel> {
    seq![
        SchemaModel { args: seq![], input_stack: seq![wild('a'), t_list(tref('a'))], output_stack: seq![t_list(rref('a'))] },
    ]
}

fn d_cons() -> (r: Vec<InstructionDef>)
    ensures
        defs_view(r) == s_cons(),
{
    let r = vec![
        InstructionDef { args: vec![], input_stack: vec![wild('a'), t_list(tref('a'))], output_stack: vec![t_list(rref('a'))] },
    ];
    proof {
        assert(defs_view(r)[0] =~~= s_cons()[0]);
        assert(defs_view(r) =~~= s_cons());
    }
    r
}

/// The schemas of `LEFT`.
pub open spec fn s_left() -> Seq<SchemaModel> {
    seq![
        SchemaModel { args: seq![targ('a')], input_stack: seq![wild('b')], output_stack: seq![t_or(rref('b'), rref('a'))] },
    ]
}

fn d_left() -> (r: Vec<InstructionDef>)
    ensures
        defs_view(r) == s_left(),
{
    let r = vec![
        InstructionDef { args: vec![targ('a')], input_stack: vec![wild('b')], output_stack: vec![t_or(rref('b'), rref('a'))] },
    ];
    proof {
        assert(defs_view(r)[0] =~~= s_left()[0]);
        assert(defs_view(r) =~~= s_left());
    }
    r
}

/// The schemas of `RIGHT`.
pub open spec fn s_right() -> Seq<SchemaModel> {
    seq![
        SchemaModel { args: seq![targ('a')], input_stack: seq![wild('b')], output_stack: seq![t_or(rref('a'), rref('b'))] },
    ]
}

fn d_right() -> (r: Vec<InstructionDef>)
    ensures
        defs_view(r) == s_right(),
{
    let r = vec![
        InstructionDef { args: vec![targ('a')], input_stack: vec![wild('b')], output_stack: vec![t_or(rref('a'), rref('b'))] },
    ];
    proof {
        assert(defs_view(r)[0] =~~= s_right()[0]);
        assert(defs_view(r) =~~= s_right());
    }
    r
}

/// The schemas of `CONTRACT`.
pub open spec fn s_contract() -> Seq<SchemaModel> {
    seq![
        SchemaModel { args: seq![targ('a')], input_stack: seq![atom(MAtomic::MAddress)], output_stack: seq![t_option(t_contract(rref('a')))] },
    ]
}

fn d_contract() -> (r: Vec<InstructionDef>)
    ensures
        defs_view(r) == s_contract(),
{
    let r = vec![
        InstructionDef { args: vec![targ('a')], input_stack: vec![atom(MAtomic::MAddress)], output_stack: vec![t_option(t_contract(rref('a')))] },
    ];
    proof {
        assert(defs_view(r)[0] =~~= s_contract()[0]);
        assert(defs_view(r) =~~= s_contract());
    }
    r
}

/// The schemas of `BLAKE2B`.
pub open spec fn s_blake2b() -> Seq<SchemaModel> {
    seq![
        SchemaModel { args: seq![], input_stack: seq![atom(MAtomic::MBytes)], output_stack: seq![ratom(MAtomic::MBytes)] },
    ]
}

fn d_blake2b() -> (r: Vec<InstructionDef>)
    ensures
        defs_view(r) == s_blake2b(),
{
    let r = vec![
        InstructionDef { args: vec![], input_stack: vec![atom(MAtomic::MBytes)], output_stack: vec![ratom(MAtomic::MBytes)] },
    ];
    proof {
        assert(defs_view(r)[0] =~~= s_blake2b()[0]);
        assert(defs_view(r) =~~= s_blake2b());
    }
    r
}

/// The schemas of `PUSH`.
pub open spec fn s_push() -> Seq<SchemaModel> {
    seq![
        SchemaModel { args: seq![targ_a('a', a_pushable()), tref('a')], input_stack: seq![], output_stack: seq![rref('a')] },
    ]
}

fn d_push() -> (r: Vec<InstructionDef>)
    ensures
        defs_view(r) == s_push(),
{
    let r = vec![
        InstructionDef { args: vec![targ_a('a', a_pushable()), tref('a')], input_stack: vec![], output_stack: vec![rref('a')] },
    ];
    proof {
        assert(defs_view(r)[0] =~~= s_push()[0]);
        assert(defs_view(r) =~~= s_push());
    }
    r
}

/// The schemas of `ADDRESS`.
pub open spec fn s_address() -> Seq<SchemaModel> {
    seq![
        SchemaModel { args: seq![], input_stack: seq![t_contract(wild('a'))], output_stack: seq![ratom(MAtomic::MAddress)] },
    ]
}

fn d_address() -> (r: Vec<InstructionDef>)
    ensures
        defs_view(r) == s_address(),
{
    let r = vec![
        InstructionDef { args: vec![], input_stack: vec![t_contract(wild('a'))], output_stack: vec![ratom(MAtomic::MAddress)] },
    ];
    proof {
        assert(defs_view(r)[0] =~~= s_address()[0]);
        assert(defs_view(r) =~~= s_address());
    }
    r
}

/// The schemas of `CHAIN_ID`.
pub open spec fn s_chain_id() -> Seq<SchemaModel> {
    seq![
        SchemaModel { args: seq![], input_stack: seq![], output_stack: seq![ratom(MAtomic::MChainId)] },
    ]
}

fn d_chain_id() -> (r: Vec<InstructionDef>)
    ensures
        defs_view(r) == s_chain_id(),
{
    let r = vec![
        InstructionDef { args: vec![], input_stack: vec![], output_stack: vec![ratom(MAtomic::MChainId)] },
    ];
    proof {
        assert(defs_view(r)[0] =~~= s_chain_id()[0]);
        assert(defs_view(r) =~~= s_chain_id());
    }
    r
}

/// The schemas of `EQ`.
pub open spec fn s_eq() -> Seq<SchemaModel> {
    seq![
        SchemaModel { args: seq![], input_stack: seq![atom(MAtomic::MInt)], output_stack: seq![ratom(MAtomic::MBool)] },
    ]
}

fn d_eq() -> (r: Vec<InstructionDef>)
    ensures
        defs_view(r) == s_eq(),
{
    let r = vec![
        InstructionDef { args: vec![], input_stack: vec![atom(MAtomic::MInt)], output_stack: vec![ratom(MAtomic::MBool)] },
    ];
    proof {
        assert(defs_view(r)[0] =~~= s_eq()[0]);
        assert(defs_view(r) =~~= s_eq());
    }
    r
}

/// The schemas of `GE`.
pub open spec fn s_ge() -> Seq<SchemaModel> {
    seq![
        SchemaModel { args: seq![], input_stack: seq![atom(MAtomic::MInt)], output_stack: seq![ratom(MAtomic::MBool)] },
    ]
}

fn d_ge() -> (r: Vec<InstructionDef>)
    ensures
        defs_view(r) == s_ge(),
{
    let r = vec![
        InstructionDef { args: vec![], input_stack: vec![atom(MAtomic::MInt)], output_stack: vec![ratom(MAtomic::MBool)] },
    ];
    proof {
        assert(defs_view(r)[0] =~~= s_ge()[0]);
        assert(defs_view(r) =~~= s_ge());
    }
    r
}

/// The schemas of `GT`.
pub open spec fn s_gt() -> Seq<SchemaModel> {
    seq![
        SchemaModel { args: seq![], input_stack: seq![atom(MAtomic::MInt)], output_stack: seq![ratom(MAtomic::MBool)] },
    ]
}

fn d_gt() -> (r: Vec<InstructionDef>)
    ensures
        defs_view(r) == s_gt(),
{
    let r = vec![
        InstructionDef { args: vec![], input_stack: vec![atom(MAtomic::MInt)], output_stack: vec![ratom(MAtomic::MBool)] },
    ];
    proof {
        assert(defs_view(r)[0] =~~= s_gt()[0]);
        assert(defs_view(r) =~~= s_gt());
    }
    r
}

/// The schemas of `NEQ`.
pub open spec fn s_neq() -> Seq<SchemaModel> {
    seq![
        SchemaModel { args: seq![], input_stack: seq![atom(MAtomic::MInt)], output_stack: seq![ratom(MAtomic::MBool)] },
    ]
}

fn d_neq() -> (r: Vec<InstructionDef>)
    ensures
        defs_view(r) == s_neq(),
{
    let r = vec![
        InstructionDef { args: vec![], input_stack: vec![atom(MAtomic::MInt)], output_stack: vec![ratom(MAtomic::MBool)] },
    ];
    proof {
        assert(defs_view(r)[0] =~~= s_neq()[0]);
        assert(defs_view(r) =~~= s_neq());
    }
    r
}

/// The schemas of `ISNAT`.
pub open spec fn s_isnat() -> Seq<SchemaModel> {
    seq![
        SchemaModel { args: seq![], input_stack: seq![atom(MAtomic::MInt)], output_stack: seq![t_option(ratom(MAtomic::MNat))] },
    ]
}

fn d_isnat() -> (r: Vec<InstructionDef>)
    ensures
        defs_view(r) == s_isnat(),
{
    let r = vec![
        InstructionDef { args: vec![], input_stack: vec![atom(MAtomic::MInt)], output_stack: vec![t_option(ratom(MAtomic::MNat))] },
    ];
    proof {
        assert(defs_view(r)[0] =~~= s_isnat()[0]);
        assert(defs_view(r) =~~= s_isnat());
    }
    r
}

/// The schemas of `LEVEL`.
pub open spec fn s_level() -> Seq<SchemaModel> {
    seq![
        SchemaModel { args: seq![], input_stack: seq![], output_stack: seq![ratom(MAtomic::MNat)] },
    ]
}

fn d_level() -> (r: Vec<InstructionDef>)
    ensures
        defs_view(r) == s_level(),
{
    let r = vec![
        InstructionDef { args: vec![], input_stack: vec![], output_stack: vec![ratom(MAtomic::MNat)] },
    ];
    proof {
        assert(defs_view(r)[0] =~~= s_level()[0]);
        assert(defs_view(r) =~~= s_level());
    }
    r
}

/// The schemas of `COMPARE`.
pub open spec fn s_compare() -> Seq<SchemaModel> {
    seq![
        SchemaModel { args: seq![], input_stack: seq![wild_a('a', a_comparable()), tref('a')], output_stack: seq![ratom(MAtomic::MInt)] },
    ]
}

fn d_compare() -> (r: Vec<InstructionDef>)
    ensures
        defs_view(r) == s_compare(),
{
    let r = vec![
        InstructionDef { args: vec![], input_stack: vec![wild_a('a', a_comparable()), tref('a')], output_stack: vec![ratom(MAtomic::MInt)] },
    ];
    proof {
        assert(defs_view(r)[0] =~~= s_compare()[0]);
        assert(defs_view(r) =~~= s_compare());
    }
    r
}

/// The schemas of `LT`.
pub open spec fn s_lt() -> Seq<SchemaModel> {
    seq![
        SchemaModel { args: seq![], input_stack: seq![atom(MAtomic::MInt)], output_stack: seq![ratom(MAtomic::MBool)] },
    ]
}

fn d_lt() -> (r: Vec<InstructionDef>)
    ensures
        defs_view(r) == s_lt(),
{
    let r = vec![
        InstructionDef { args: vec![], input_stack: vec![atom(MAtomic::MInt)], output_stack: vec![ratom(MAtomic::MBool)] },
    ];
    proof {
        assert(defs_view(r)[0] =~~= s_lt()[0]);
        assert(defs_view(r) =~~= s_lt());
    }
    r
}

/// The schemas of `CHECK_SIGNATURE`.
pub open spec fn s_check_signature() -> Seq<SchemaModel> {
    seq![
        SchemaModel { args: seq![], input_stack: seq![atom(MAtomic::MKey), atom(MAtomic::MSignature), atom(MAtomic::MBytes)], output_stack: seq![ratom(MAtomic::MBool)] },
    ]
}

fn d_check_signature() -> (r: Vec<InstructionDef>)
    ensures
        defs_view(r) == s_check_signature(),
{
    let r = vec![
        InstructionDef { args: vec![], input_stack: vec![atom(MAtomic::MKey), atom(MAtomic::MSignature), atom(MAtomic::MBytes)], output_stack: vec![ratom(MAtomic::MBool)] },
    ];
    proof {
        assert(defs_view(r)[0] =~~= s_check_signature()[0]);
        assert(defs_view(r) =~~= s_check_signature());
    }
    r
}

/// The schemas of `PACK`.
pub open spec fn s_pack() -> Seq<SchemaModel> {
    seq![
        SchemaModel { args: seq![], input_stack: seq![wild('a')], output_stack: seq![ratom(MAtomic::MBytes)] },
    ]
}

fn d_pack() -> (r: Vec<InstructionDef>)
    ensures
        defs_view(r) == s_pack(),
{
    let r = vec![
        InstructionDef { args: vec![], input_stack: vec![wild('a')], output_stack: vec![ratom(MAtomic::MBytes)] },
    ];
    proof {
        assert(defs_view(r)[0] =~~= s_pack()[0]);
        assert(defs_view(r) =~~= s_pack());
    }
    r
}

/// The schemas of `UNPACK`.
pub open spec fn s_unpack() -> Seq<SchemaModel> {
    seq![
        SchemaModel { args: seq![targ('a')], input_stack: seq![atom(MAtomic::MBytes)], output_stack: seq![t_option(rref('a'))] },
    ]
}

fn d_unpack() -> (r: Vec<InstructionDef>)
    ensures
        defs_view(r) == s_unpack(),
{
    let r = vec![
        InstructionDef { args: vec![targ('a')], input_stack: vec![atom(MAtomic::MBytes)], output_stack: vec![t_option(rref('a'))] },
    ];
    proof {
        assert(defs_view(r)[0] =~~= s_unpack()[0]);
        assert(defs_view(r) =~~= s_unpack());
    }
    r
}

/// The schemas of `SELF_ADDRESS`.
pub open spec fn s_self_address() -> Seq<SchemaModel> {
    seq![
        SchemaModel { args: seq![], input_stack: seq![], output_stack: seq![ratom(MAtomic::MAddress)] },
    ]
}

fn d_self_address() -> (r: Vec<InstructionDef>)
    ensures
        defs_view(r) == s_self_address(),
{
    let r = vec![
        InstructionDef { args: vec![], input_stack: vec![], output_stack: vec![ratom(MAtomic::MAddress)] },
    ];
    proof {
        assert(defs_view(r)[0] =~~= s_self_address()[0]);
        assert(defs_view(r) =~~= s_self_address());
    }
    r
}

/// The schemas of `SOURCE`.
pub open spec fn s_source() -> Seq<SchemaModel> {
    seq![
        SchemaModel { args: seq![], input_stack: seq![], output_stack: seq![ratom(MAtomic::MAddress)] },
    ]
}

fn d_source() -> (r: Vec<InstructionDef>)
    ensures
        defs_view(r) == s_source(),
{
    let r = vec![
        InstructionDef { args: vec![], input_stack: vec![], output_stack: vec![ratom(MAtomic::MAddress)] },
    ];
    proof {
        assert(defs_view(r)[0] =~~= s_source()[0]);
        assert(defs_view(r) =~~= s_source());
    }
    r
}

/// The schemas of `AMOUNT`.
pub open spec fn s_amount() -> Seq<SchemaModel> {
    seq![
        SchemaModel { args: seq![], input_stack: seq![], output_stack: seq![ratom(MAtomic::MMutez)] },
    ]
}

fn d_amount() -> (r: Vec<InstructionDef>)
    ensures
        defs_view(r) == s_amount(),
{
    let r = vec![
        InstructionDef { args: vec![], input_stack: vec![], output_stack: vec![ratom(MAtomic::MMutez)] },
    ];
    proof {
        assert(defs_view(r)[0] =~~= s_amount()[0]);
        assert(defs_view(r) =~~= s_amount());
    }
    r
}

/// The schemas of `UNIT`.
pub open spec fn s_unit() -> Seq<SchemaModel> {
    seq![
        SchemaModel { args: seq![], input_stack: seq![], output_stack: seq![ratom(MAtomic::MUnit)] },
    ]
}

fn d_unit() -> (r: Vec<InstructionDef>)
    ensures
        defs_view(r) == s_unit(),
{
    let r = vec![
        InstructionDef { args: vec![], input_stack: vec![], output_stack: vec![ratom(MAtomic::MUnit)] },
    ];
    proof {
        assert(defs_view(r)[0] =~~= s_unit()[0]);
        assert(defs_view(r) =~~= s_unit());
    }
    r
}

/// The schemas of `TRANSFER_TOKENS`.
pub open spec fn s_transfer_tokens() -> Seq<SchemaModel> {
    seq![
        SchemaModel { args: seq![], input_stack: seq![wild('a'), atom(MAtomic::MMutez), t_contract(tref('a'))], output_stack: seq![ratom(MAtomic::MOperation)] },
    ]
}

fn d_transfer_tokens() -> (r: Vec<InstructionDef>)
    ensures
        defs_view(r) == s_transfer_tokens(),
{
    let r = vec![
        InstructionDef { args: vec![], input_stack: vec![wild('a'), atom(MAtomic::MMutez), t_contract(tref('a'))], output_stack: vec![ratom(MAtomic::MOperation)] },
    ];
    proof {
        assert(defs_view(r)[0] =~~= s_transfer_tokens()[0]);
        assert(defs_view(r) =~~= s_transfer_tokens());
    }
    r
}

/// The schemas of `SET_DELEGATE`.
pub open spec fn s_set_delegate() -> Seq<SchemaModel> {
    seq![
        SchemaModel { args: seq![], input_stack: seq![t_option(atom(MAtomic::MKeyHash))], output_stack: seq![ratom(MAtomic::MOperation)] },
    ]
}

fn d_set_delegate() -> (r: Vec<InstructionDef>)
    ensures
        defs_view(r) == s_set_delegate(),
{
    let r = vec![
        InstructionDef { args: vec![], input_stack: vec![t_option(atom(MAtomic::MKeyHash))], output_stack: vec![ratom(MAtomic::MOperation)] },
    ];
    proof {
        assert(defs_view(r)[0] =~~= s_set_delegate()[0]);
        assert(defs_view(r) =~~= s_set_delegate());
    }
    r
}

/// The schemas of `LAMBDA`.
pub open spec fn s_lambda() -> Seq<SchemaModel> {
    seq![
        SchemaModel { args: seq![targ('a'), targ('b'), t_lambda(tref('a'), tref('b'))], input_stack: seq![], output_stack: seq![t_lambda(rref('a'), rref('b'))] },
    ]
}

fn d_lambda() -> (r: Vec<InstructionDef>)
    ensures
        defs_view(r) == s_lambda(),
{
    let r = vec![
        InstructionDef { args: vec![targ('a'), targ('b'), t_lambda(tref('a'), tref('b'))], input_stack: vec![], output_stack: vec![t_lambda(rref('a'), rref('b'))] },
    ];
    proof {
        assert(defs_view(r)[0] =~~= s_lambda()[0]);
        assert(defs_view(r) =~~= s_lambda());
    }
    r
}

/// The schemas of `EXEC`.
pub open spec fn s_exec() -> Seq<SchemaModel> {
    seq![
        SchemaModel { args: seq![], input_stack: seq![wild('a'), t_lambda(tref('a'), wild('b'))], output_stack: seq![rref('b')] },
    ]
}

fn d_exec() -> (r: Vec<InstructionDef>)
    ensures
        defs_view(r) == s_exec(),
{
    let r = vec![
        InstructionDef { args: vec![], input_stack: vec![wild('a'), t_lambda(tref('a'), wild('b'))], output_stack: vec![rref('b')] },
    ];
    proof {
        assert(defs_view(r)[0] =~~= s_exec()[0]);
        assert(defs_view(r) =~~= s_exec());
    }
    r
}

/// The schemas of `ASSERT`.
pub open spec fn s_assert() -> Seq<SchemaModel> {
    seq![
        SchemaModel { args: seq![], input_stack: seq![atom(MAtomic::MBool)], output_stack: seq![] },
    ]
}

fn d_assert() -> (r: Vec<InstructionDef>)
    ensures
        defs_view(r) == s_assert(),
{
    let r = vec![
        InstructionDef { args: vec![], input_stack: vec![atom(MAtomic::MBool)], output_stack: vec![] },
    ];
    proof {
        assert(defs_view(r)[0] =~~= s_assert()[0]);
        assert(defs_view(r) =~~= s_assert());
    }
    r
}

/// The schemas of `ASSERT_CMPEQ`.
pub open spec fn s_assert_cmpeq() -> Seq<SchemaModel> {
    seq![
        SchemaModel { args: seq![], input_stack: seq![wild('a'), wild('b')], output_stack: seq![] },
    ]
}

fn d_assert_cmpeq() -> (r: Vec<InstructionDef>)
    ensures
        defs_view(r) == s_assert_cmpeq(),
{
    let r = vec![
        InstructionDef { args: vec![], input_stack: vec![wild('a'), wild('b')], output_stack: vec![] },
    ];
    proof {
        assert(defs_view(r)[0] =~~= s_assert_cmpeq()[0]);
        assert(defs_view(r) =~~= s_assert_cmpeq());
    }
    r
}

/// The schemas of `ASSERT_CMPLE`.
pub open spec fn s_assert_cmple() -> Seq<SchemaModel> {
    seq![
        SchemaModel { args: seq![], input_stack: seq![wild('a'), wild('b')], output_stack: seq![] },
    ]
}

fn d_assert_cmple() -> (r: Vec<InstructionDef>)
    ensures
        defs_view(r) == s_assert_cmple(),
{
    let r = vec![
        InstructionDef { args: vec![], input_stack: vec![wild('a'), wild('b')], output_stack: vec![] },
    ];
    proof {
        assert(defs_view(r)[0] =~~= s_assert_cmple()[0]);
        assert(defs_view(r) =~~= s_assert_cmple());
    }
    r
}

/// The schema table: the list of signatures an instruction mnemonic stands
/// for, or nothing for an unknown mnemonic.
pub open spec fn spec_instruction_schemas(name: Seq<char>) -> Option<Seq<SchemaModel>> {
    if name == "APPLY"@ {
        Some(s_apply())
    } else if name == "CAR"@ {
        Some(s_car())
    } else if name == "CDR"@ {
        Some(s_cdr())
    } else if name == "HASH_KEY"@ {
        Some(s_hash_key())
    } else if name == "IMPLICIT_ACCOUNT"@ {
        Some(s_implicit_account())
    } else if name == "SWAP"@ {
        Some(s_swap())
    } else if name == "NIL"@ {
        Some(s_nil())
    } else if name == "CAST"@ {
        Some(s_cast())
    } else if name == "VIEW"@ {
        Some(s_view())
    } else if name == "SENDER"@ {
        Some(s_sender())
    } else if name == "EMPTY_BIG_MAP"@ {
        Some(s_empty_big_map())
    } else if name == "NOT"@ {
        Some(s_not())
    } else if name == "MEM"@ {
        Some(s_mem())
    } else if name == "MUL"@ {
        Some(s_mul())
    } else if name == "SIZE"@ {
        Some(s_size())
    } else if name == "ADD"@ {
        Some(s_add())
    } else if name == "AND"@ {
        Some(s_and())
    } else if name == "SUB"@ {
        Some(s_sub())
    } else if name == "OR"@ {
        Some(s_or())
    } else if name == "XOR"@ {
        Some(s_xor())
    } else if name == "GET"@ {
        Some(s_get())
    } else if name == "EDIV"@ {
        Some(s_ediv())
    } else if name == "INT"@ {
        Some(s_int())
    } else if name == "SOME"@ {
        Some(s_some())
    } else if name == "NONE"@ {
        Some(s_none())
    } else if name == "UPDATE"@ {
        Some(s_update())
    } else if name == "CONS"@ {
        Some(s_cons())
    } else if name == "LEFT"@ {
        Some(s_left())
    } else if name == "RIGHT"@ {
        Some(s_right())
    } else if name == "CONTRACT"@ {
        Some(s_contract())
    } else if name == "BLAKE2B"@ {
        Some(s_blake2b())
    } else if name == "PUSH"@ {
        Some(s_push())
    } else if name == "ADDRESS"@ {
        Some(s_address())
    } else if name == "CHAIN_ID"@ {
        Some(s_chain_id())
    } else if name == "EQ"@ {
        Some(s_eq())
    } else if name == "GE"@ {
        Some(s_ge())
    } else if name == "GT"@ {
        Some(s_gt())
    } else if name == "NEQ"@ {
        Some(s_neq())
    } else if name == "ISNAT"@ {
        Some(s_isnat())
    } else if name == "LEVEL"@ {
        Some(s_level())
    } else if name == "COMPARE"@ {
        Some(s_compare())
    } else if name == "LT"@ {
        Some(s_lt())
    } else if name == "CHECK_SIGNATURE"@ {
        Some(s_check_signature())
    } else if name == "PACK"@ {
        Some(s_pack())
    } else if name == "UNPACK"@ {
        Some(s_unpack())
    } else if name == "SELF_ADDRESS"@ {
        Some(s_self_address())
    } else if name == "SOURCE"@ {
        Some(s_source())
    } else if name == "AMOUNT"@ {
        Some(s_amount())
    } else if name == "UNIT"@ {
        Some(s_unit())
    } else if name == "TRANSFER_TOKENS"@ {
        Some(s_transfer_tokens())
    } else if name == "SET_DELEGATE"@ {
        Some(s_set_delegate())
    } else if name == "LAMBDA"@ {
        Some(s_lambda())
    } else if name == "EXEC"@ {
        Some(s_exec())
    } else if name == "ASSERT"@ {
        Some(s_assert())
    } else if name == "ASSERT_CMPEQ"@ {
        Some(s_assert_cmpeq())
    } else if name == "ASSERT_CMPLE"@ {
        Some(s_assert_cmple())
    } else {
        None
    }
}

/// Look an instruction mnemonic up in the schema table.
pub fn michelson_instructions(name: &str) -> (r: Option<Vec<InstructionDef>>)
    ensures
        match r {
            Some(v) => spec_instruction_schemas(name@) == Some(defs_view(v)),
            None => spec_instruction_schemas(name@) is None,
        },
{
    if str_eq(name, "APPLY") {
        Some(d_apply())
    } else if str_eq(name, "CAR") {
        Some(d_car())
    } else if str_eq(name, "CDR") {
        Some(d_cdr())
    } else if str_eq(name, "HASH_KEY") {
        Some(d_hash_key())
    } else if str_eq(name, "IMPLICIT_ACCOUNT") {
        Some(d_implicit_account())
    } else if str_eq(name, "SWAP") {
        Some(d_swap())
    } else if str_eq(name, "NIL") {
        Some(d_nil())
    } else if str_eq(name, "CAST") {
        Some(d_cast())
    } else if str_eq(name, "VIEW") {
        Some(d_view())
    } else if str_eq(name, "SENDER") {
        Some(d_sender())
    } else if str_eq(name, "EMPTY_BIG_MAP") {
        Some(d_empty_big_map())
    } else if str_eq(name, "NOT") {
        Some(d_not())
    } else if str_eq(name, "MEM") {
        Some(d_mem())
    } else if str_eq(name, "MUL") {
        Some(d_mul())
    } else if str_eq(name, "SIZE") {
        Some(d_size())
    } else if str_eq(name, "ADD") {
        Some(d_add())
    } else if str_eq(name, "AND") {
        Some(d_and())
    } else if str_eq(name, "SUB") {
        Some(d_sub())
    } else if str_eq(name, "OR") {
        Some(d_or())
    } else if str_eq(name, "XOR") {
        Some(d_xor())
    } else if str_eq(name, "GET") {
        Some(d_get())
    } else if str_eq(name, "EDIV") {
        Some(d_ediv())
    } else if str_eq(name, "INT") {
        Some(d_int())
    } else if str_eq(name, "SOME") {
        Some(d_some())
    } else if str_eq(name, "NONE") {
        Some(d_none())
    } else if str_eq(name, "UPDATE") {
        Some(d_update())
    } else if str_eq(name, "CONS") {
        Some(d_cons())
    } else if str_eq(name, "LEFT") {
        Some(d_left())
    } else if str_eq(name, "RIGHT") {
        Some(d_right())
    } else if str_eq(name, "CONTRACT") {
        Some(d_contract())
    } else if str_eq(name, "BLAKE2B") {
        Some(d_blake2b())
    } else if str_eq(name, "PUSH") {
        Some(d_push())
    } else if str_eq(name, "ADDRESS") {
        Some(d_address())
    } else if str_eq(name, "CHAIN_ID") {
        Some(d_chain_id())
    } else if str_eq(name, "EQ") {
        Some(d_eq())
    } else if str_eq(name, "GE") {
        Some(d_ge())
    } else if str_eq(name, "GT") {
        Some(d_gt())
    } else if str_eq(name, "NEQ") {
        Some(d_neq())
    } else if str_eq(name, "ISNAT") {
        Some(d_isnat())
    } else if str_eq(name, "LEVEL") {
        Some(d_level())
    } else if str_eq(name, "COMPARE") {
        Some(d_compare())
    } else if str_eq(name, "LT") {
        Some(d_lt())
    } else if str_eq(name, "CHECK_SIGNATURE") {
        Some(d_check_signature())
    } else if str_eq(name, "PACK") {
        Some(d_pack())
    } else if str_eq(name, "UNPACK") {
        Some(d_unpack())
    } else if str_eq(name, "SELF_ADDRESS") {
        Some(d_self_address())
    } else if str_eq(name, "SOURCE") {
        Some(d_source())
    } else if str_eq(name, "AMOUNT") {
        Some(d_amount())
    } else if str_eq(name, "UNIT") {
        Some(d_unit())
    } else if str_eq(name, "TRANSFER_TOKENS") {
        Some(d_transfer_tokens())
    } else if str_eq(name, "SET_DELEGATE") {
        Some(d_set_delegate())
    } else if str_eq(name, "LAMBDA") {
        Some(d_lambda())
    } else if str_eq(name, "EXEC") {
        Some(d_exec())
    } else if str_eq(name, "ASSERT") {
        Some(d_assert())
    } else if str_eq(name, "ASSERT_CMPEQ") {
        Some(d_assert_cmpeq())
    } else if str_eq(name, "ASSERT_CMPLE") {
        Some(d_assert_cmple())
    } else {
        None
    }
}

} // verus!
