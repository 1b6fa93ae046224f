//! The type checker: the unifier that matches instruction schemas against
//! the symbolic stack, the literal value checker, and the driver that walks
//! instruction trees and reconciles branch outcomes.
//!
//! Every executable function here is pinned to a specification mirror
//! (`sp_*`): the verdict and the resulting stack are a pure function of the
//! program, the declared parameter type and the schema table.

use crate::attributes::check_attr_set;
use crate::attributes::check_attribute;
use crate::attributes::spec_check_attr_set;
use crate::attributes::spec_check_attribute;
use crate::instructions::michelson_instructions;
use crate::instructions::spec_instruction_schemas;
use crate::types::sp_get_n;
use crate::types::sp_mk_pair;
use crate::types::sp_unpair_list;
use crate::types::sp_update_n;
use crate::types::ArgConstraint;
use crate::types::ArgValue;
use crate::types::Attribute;
use crate::types::AtomicValue;
use crate::types::CompositeValue;
use crate::types::CompoundInstruction;
use crate::types::ConcreteStack;
use crate::types::ConcreteType;
use crate::types::Constraint;
use crate::types::Contract;
use crate::types::Instruction;
use crate::types::InstructionDef;
use crate::types::MAtomic;
use crate::types::MType;
use crate::types::MValue;
use crate::types::SchemaModel;
use crate::types::SeqItem;
use crate::types::SomeValue;
use crate::types::StackModel;
use crate::types::StackResult;
use crate::types::StackResultElem;
use crate::types::StackState;
use crate::types::StackDerived;
use crate::types::TcEnv;
use crate::types::get_n_pair;
use crate::types::mk_pair;
use crate::types::mt_clone;
use crate::types::mt_eq;
use crate::types::unmk_pair;
use crate::types::update_n_pair;
use crate::types::argv_size;
use crate::types::argvs_size;
use crate::types::ci_size;
use crate::types::cis_size;
use crate::types::cv_size;
use crate::types::kvs_size;
use crate::types::lemma_argvs_size_index;
use crate::types::lemma_cis_size_index;
use crate::types::lemma_kvs_size_index;
use crate::types::lemma_svs_size_index;
use crate::types::sq_size;
use crate::types::sv_size;
use crate::types::svs_size;
use vstd::prelude::*;
use vstd::string::StringExecFns;

verus! {

/// The per-instruction binding of schema variables to ground types, latest
/// binding last.
pub type ResolveCache = Vec<(char, ConcreteType)>;

/// The ground type a variable is bound to: the latest binding wins.
pub open spec fn sp_lookup(m: Seq<(char, ConcreteType)>, c: char) -> Option<ConcreteType>
    decreases m.len(),
{
    if m.len() == 0 {
        None
    } else if m.last().0 == c {
        Some(m.last().1)
    } else {
        sp_lookup(m.drop_last(), c)
    }
}

/// Bind a schema variable to a ground type.
pub fn add_symbol(resolved: &mut ResolveCache, arg_con: char, type_: &ConcreteType)
    ensures
        final(resolved)@ == old(resolved)@.push((arg_con, *type_)),
{
    resolved.push((arg_con, mt_clone(type_)));
}

/// Look a schema variable up in the cache.
pub fn lookup_symbol(resolved: &ResolveCache, c: char) -> (r: Option<ConcreteType>)
    ensures
        r == sp_lookup(resolved@, c),
{
    let mut i: usize = resolved.len();
    proof {
        assert(resolved@.subrange(0, i as int) =~= resolved@);
    }
    while i > 0
        invariant
            i <= resolved@.len(),
            sp_lookup(resolved@, c) == sp_lookup(resolved@.subrange(0, i as int), c),
        decreases i,
    {
        i = i - 1;
        if resolved[i].0 == c {
            proof {
                assert(resolved@.subrange(0, i + 1).last() == resolved@[i as int]);
            }
            return Some(mt_clone(&resolved[i].1));
        }
        proof {
            assert(resolved@.subrange(0, i + 1).drop_last() =~= resolved@.subrange(0, i as int));
        }
    }
    proof {
        assert(resolved@.subrange(0, 0).len() == 0);
    }
    None
}

/// Unification of a ground type against a constraint: a variable binds (after
/// its attribute check), a variable reuse demands the very type bound before,
/// an atomic constraint demands that atomic type, and containers unify
/// pointwise.  The result is the extended cache.
pub open spec fn sp_unify_concrete(
    m: Seq<(char, ConcreteType)>,
    arg: ConcreteType,
    con: Constraint,
) -> Option<Seq<(char, ConcreteType)>>
    decreases con,
{
    match con {
        MType::MWrapped(w) => match w {
            ArgConstraint::CWarg(c, attrs) => if spec_check_attr_set(attrs, arg) {
                Some(m.push((c, arg)))
            } else {
                None
            },
            ArgConstraint::CTypeArg(c, attrs) => if spec_check_attr_set(attrs, arg) {
                Some(m.push((c, arg)))
            } else {
                None
            },
            ArgConstraint::CTypeArgRef(c) => match sp_lookup(m, c) {
                Some(tt) => if arg == tt {
                    Some(m)
                } else {
                    None
                },
                None => None,
            },
            ArgConstraint::CAtomic(at) => match arg {
                MType::MWrapped(cn) => if at == cn {
                    Some(m)
                } else {
                    None
                },
                _ => None,
            },
        },
        MType::MList(ic) => match arg {
            MType::MList(iv) => sp_unify_concrete(m, *iv, *ic),
            _ => None,
        },
        MType::MTicket(ic) => match arg {
            MType::MTicket(iv) => sp_unify_concrete(m, *iv, *ic),
            _ => None,
        },
        MType::MContract(ic) => match arg {
            MType::MContract(iv) => sp_unify_concrete(m, *iv, *ic),
            _ => None,
        },
        MType::MOption(ic) => match arg {
            MType::MOption(iv) => sp_unify_concrete(m, *iv, *ic),
            _ => None,
        },
        MType::MSet(ic) => match arg {
            MType::MSet(iv) => sp_unify_concrete(m, *iv, *ic),
            _ => None,
        },
        MType::MLambda(b) => match arg {
            MType::MLambda(b1) => match sp_unify_concrete(m, b1.0, b.0) {
                Some(m1) => sp_unify_concrete(m1, b1.1, b.1),
                None => None,
            },
            _ => None,
        },
        MType::MOr(b) => match arg {
            MType::MOr(b1) => match sp_unify_concrete(m, b1.0, b.0) {
                Some(m1) => sp_unify_concrete(m1, b1.1, b.1),
                None => None,
            },
            _ => None,
        },
        MType::MPair(b) => match arg {
            MType::MPair(b1) => match sp_unify_concrete(m, b1.0, b.0) {
                Some(m1) => sp_unify_concrete(m1, b1.1, b.1),
                None => None,
            },
            _ => None,
        },
        MType::MBigMap(b) => match arg {
            MType::MBigMap(b1) => match sp_unify_concrete(m, b1.0, b.0) {
                Some(m1) => sp_unify_concrete(m1, b1.1, b.1),
                None => None,
            },
            _ => None,
        },
        MType::MMap(b) => match arg {
            MType::MMap(b1) => match sp_unify_concrete(m, b1.0, b.0) {
                Some(m1) => sp_unify_concrete(m1, b1.1, b.1),
                None => None,
            },
            _ => None,
        },
    }
}

/// Unify a ground type against a constraint, extending the cache (see
/// [`sp_unify_concrete`]).
pub fn unify_concrete_arg(
    resolved: &mut ResolveCache,
    arg: &ConcreteType,
    arg_con: &Constraint,
) -> (r: Result<(), String>)
    ensures
        match sp_unify_concrete(old(resolved)@, *arg, *arg_con) {
            Some(m2) => r is Ok && final(resolved)@ == m2,
            None => r is Err,
        },
    decreases arg_con,
{
    match arg_con {
        MType::MWrapped(w) => match w {
            ArgConstraint::CWarg(c, attrs) => {
                if check_attr_set(attrs, arg) {
                    add_symbol(resolved, *c, arg);
                    Result::Ok(())
                } else {
                    Result::Err(
                        String::from_str("Type does not meet the required constraints"),
                    )
                }
            },
            ArgConstraint::CTypeArg(c, attrs) => {
                if check_attr_set(attrs, arg) {
                    add_symbol(resolved, *c, arg);
                    Result::Ok(())
                } else {
                    Result::Err(
                        String::from_str("Type does not meet the required constraints"),
                    )
                }
            },
            ArgConstraint::CTypeArgRef(c) => match lookup_symbol(resolved, *c) {
                Some(tt) => {
                    if mt_eq(arg, &tt) {
                        Result::Ok(())
                    } else {
                        Result::Err(String::from_str("Type mismatch against bound variable"))
                    }
                },
                None => Result::Err(String::from_str("Unknown type ref")),
            },
            ArgConstraint::CAtomic(at) => match arg {
                MType::MWrapped(cn) => {
                    if at == cn {
                        Result::Ok(())
                    } else {
                        Result::Err(String::from_str("Unexpected atomic type"))
                    }
                },
                _ => Result::Err(
                    String::from_str("Expecting an atomic type, but found something else"),
                ),
            },
        },
        MType::MList(ic) => match arg {
            MType::MList(iv) => unify_concrete_arg(resolved, iv, ic),
            _ => Result::Err(String::from_str("Expecting a list but got something else...")),
        },
        MType::MTicket(ic) => match arg {
            MType::MTicket(iv) => unify_concrete_arg(resolved, iv, ic),
            _ => Result::Err(String::from_str("Expecting a Ticket but got something else...")),
        },
        MType::MContract(ic) => match arg {
            MType::MContract(iv) => unify_concrete_arg(resolved, iv, ic),
            _ => Result::Err(String::from_str("Expecting a Contract but got something else...")),
        },
        MType::MOption(ic) => match arg {
            MType::MOption(iv) => unify_concrete_arg(resolved, iv, ic),
            _ => Result::Err(String::from_str("Expecting an Option but got something else...")),
        },
        MType::MSet(ic) => match arg {
            MType::MSet(iv) => unify_concrete_arg(resolved, iv, ic),
            _ => Result::Err(String::from_str("Expecting a set but got something else...")),
        },
        MType::MLambda(b) => match arg {
            MType::MLambda(b1) => match unify_concrete_arg(resolved, &b1.0, &b.0) {
                Result::Ok(_) => unify_concrete_arg(resolved, &b1.1, &b.1),
                Result::Err(e) => Result::Err(e),
            },
            _ => Result::Err(String::from_str("Expecting a lambda but got something else...")),
        },
        MType::MOr(b) => match arg {
            MType::MOr(b1) => match unify_concrete_arg(resolved, &b1.0, &b.0) {
                Result::Ok(_) => unify_concrete_arg(resolved, &b1.1, &b.1),
                Result::Err(e) => Result::Err(e),
            },
            _ => Result::Err(String::from_str("Expecting an or but got something else...")),
        },
        MType::MPair(b) => match arg {
            MType::MPair(b1) => match unify_concrete_arg(resolved, &b1.0, &b.0) {
                Result::Ok(_) => unify_concrete_arg(resolved, &b1.1, &b.1),
                Result::Err(e) => Result::Err(e),
            },
            _ => Result::Err(String::from_str("Expecting a pair but got something else...")),
        },
        MType::MBigMap(b) => match arg {
            MType::MBigMap(b1) => match unify_concrete_arg(resolved, &b1.0, &b.0) {
                Result::Ok(_) => unify_concrete_arg(resolved, &b1.1, &b.1),
                Result::Err(e) => Result::Err(e),
            },
            _ => Result::Err(String::from_str("Expecting a big_map but got something else...")),
        },
        MType::MMap(b) => match arg {
            MType::MMap(b1) => match unify_concrete_arg(resolved, &b1.0, &b.0) {
                Result::Ok(_) => unify_concrete_arg(resolved, &b1.1, &b.1),
                Result::Err(e) => Result::Err(e),
            },
            _ => Result::Err(String::from_str("Expecting a map but got something else...")),
        },
    }
}

} // verus!

verus! {

/// The ground type a constraint itself denotes, where it denotes one:
/// variable reuses read the cache, atomic constraints are themselves, and
/// `pair`, `list` and `lambda` shapes recurse.
pub open spec fn sp_constraint_to_concrete(m: Seq<(char, ConcreteType)>, c: Constraint) -> Option<
    ConcreteType,
>
    decreases c,
{
    match c {
        MType::MWrapped(w) => match w {
            ArgConstraint::CTypeArgRef(v) => sp_lookup(m, v),
            ArgConstraint::CAtomic(x) => Some(MType::MWrapped(x)),
            _ => None,
        },
        MType::MPair(b) => match (
            sp_constraint_to_concrete(m, b.0),
            sp_constraint_to_concrete(m, b.1),
        ) {
            (Some(l), Some(r)) => Some(MType::MPair(Box::new((l, r)))),
            _ => None,
        },
        MType::MList(l) => match sp_constraint_to_concrete(m, *l) {
            Some(t) => Some(MType::MList(Box::new(t))),
            None => None,
        },
        MType::MLambda(b) => match (
            sp_constraint_to_concrete(m, b.0),
            sp_constraint_to_concrete(m, b.1),
        ) {
            (Some(l), Some(r)) => Some(MType::MLambda(Box::new((l, r)))),
            _ => None,
        },
        _ => None,
    }
}

/// The ground type a constraint denotes (see [`sp_constraint_to_concrete`]).
pub fn constraint_to_concrete(resolved: &ResolveCache, c: &Constraint) -> (r: Option<ConcreteType>)
    ensures
        r == sp_constraint_to_concrete(resolved@, *c),
    decreases c,
{
    match c {
        MType::MWrapped(w) => match w {
            ArgConstraint::CTypeArgRef(v) => lookup_symbol(resolved, *v),
            ArgConstraint::CAtomic(x) => Some(MType::MWrapped(*x)),
            _ => None,
        },
        MType::MPair(b) => match (
            constraint_to_concrete(resolved, &b.0),
            constraint_to_concrete(resolved, &b.1),
        ) {
            (Some(l), Some(r)) => Some(MType::MPair(Box::new((l, r)))),
            _ => None,
        },
        MType::MList(l) => match constraint_to_concrete(resolved, l) {
            Some(t) => Some(MType::MList(Box::new(t))),
            None => None,
        },
        MType::MLambda(b) => match (
            constraint_to_concrete(resolved, &b.0),
            constraint_to_concrete(resolved, &b.1),
        ) {
            (Some(l), Some(r)) => Some(MType::MLambda(Box::new((l, r)))),
            _ => None,
        },
        _ => None,
    }
}

/// The ground type an output-stack entry denotes: references read the cache
/// (and fail where unbound), atomics are themselves, containers recurse.
pub open spec fn sp_stack_result_ty(m: Seq<(char, ConcreteType)>, sr: StackResult) -> Option<
    ConcreteType,
>
    decreases sr,
{
    match sr {
        MType::MWrapped(w) => match w {
            StackResultElem::ElemType(et) => Some(MType::MWrapped(et)),
            StackResultElem::TRef(c) => sp_lookup(m, c),
        },
        MType::MList(l) => match sp_stack_result_ty(m, *l) {
            Some(t) => Some(MType::MList(Box::new(t))),
            None => None,
        },
        MType::MContract(l) => match sp_stack_result_ty(m, *l) {
            Some(t) => Some(MType::MContract(Box::new(t))),
            None => None,
        },
        MType::MTicket(l) => match sp_stack_result_ty(m, *l) {
            Some(t) => Some(MType::MTicket(Box::new(t))),
            None => None,
        },
        MType::MOption(l) => match sp_stack_result_ty(m, *l) {
            Some(t) => Some(MType::MOption(Box::new(t))),
            None => None,
        },
        MType::MSet(l) => match sp_stack_result_ty(m, *l) {
            Some(t) => Some(MType::MSet(Box::new(t))),
            None => None,
        },
        MType::MMap(b) => match (sp_stack_result_ty(m, b.0), sp_stack_result_ty(m, b.1)) {
            (Some(l), Some(r)) => Some(MType::MMap(Box::new((l, r)))),
            _ => None,
        },
        MType::MBigMap(b) => match (sp_stack_result_ty(m, b.0), sp_stack_result_ty(m, b.1)) {
            (Some(l), Some(r)) => Some(MType::MBigMap(Box::new((l, r)))),
            _ => None,
        },
        MType::MOr(b) => match (sp_stack_result_ty(m, b.0), sp_stack_result_ty(m, b.1)) {
            (Some(l), Some(r)) => Some(MType::MOr(Box::new((l, r)))),
            _ => None,
        },
        MType::MPair(b) => match (sp_stack_result_ty(m, b.0), sp_stack_result_ty(m, b.1)) {
            (Some(l), Some(r)) => Some(MType::MPair(Box::new((l, r)))),
            _ => None,
        },
        MType::MLambda(b) => match (sp_stack_result_ty(m, b.0), sp_stack_result_ty(m, b.1)) {
            (Some(l), Some(r)) => Some(MType::MLambda(Box::new((l, r)))),
            _ => None,
        },
    }
}

/// Materialise an output-stack entry from the cache (see
/// [`sp_stack_result_ty`]); an error where a referenced variable is unbound.
pub fn stack_result_to_concrete_type(resolved: &ResolveCache, sr: &StackResult) -> (r: Result<
    ConcreteType,
    String,
>)
    ensures
        match r {
            Result::Ok(t) => sp_stack_result_ty(resolved@, *sr) == Some(t),
            Result::Err(_) => sp_stack_result_ty(resolved@, *sr) is None,
        },
    decreases sr,
{
    match sr {
        MType::MWrapped(w) => match w {
            StackResultElem::ElemType(et) => Result::Ok(MType::MWrapped(*et)),
            StackResultElem::TRef(c) => match lookup_symbol(resolved, *c) {
                Some(ct) => Result::Ok(ct),
                None => Result::Err(String::from_str("Symbol resolution failed")),
            },
        },
        MType::MList(l) => match stack_result_to_concrete_type(resolved, l) {
            Result::Ok(t) => Result::Ok(MType::MList(Box::new(t))),
            Result::Err(e) => Result::Err(e),
        },
        MType::MContract(l) => match stack_result_to_concrete_type(resolved, l) {
            Result::Ok(t) => Result::Ok(MType::MContract(Box::new(t))),
            Result::Err(e) => Result::Err(e),
        },
        MType::MTicket(l) => match stack_result_to_concrete_type(resolved, l) {
            Result::Ok(t) => Result::Ok(MType::MTicket(Box::new(t))),
            Result::Err(e) => Result::Err(e),
        },
        MType::MOption(l) => match stack_result_to_concrete_type(resolved, l) {
            Result::Ok(t) => Result::Ok(MType::MOption(Box::new(t))),
            Result::Err(e) => Result::Err(e),
        },
        MType::MSet(l) => match stack_result_to_concrete_type(resolved, l) {
            Result::Ok(t) => Result::Ok(MType::MSet(Box::new(t))),
            Result::Err(e) => Result::Err(e),
        },
        MType::MMap(b) => match (
            stack_result_to_concrete_type(resolved, &b.0),
            stack_result_to_concrete_type(resolved, &b.1),
        ) {
            (Result::Ok(l), Result::Ok(r)) => Result::Ok(MType::MMap(Box::new((l, r)))),
            (Result::Err(e), _) => Result::Err(e),
            (_, Result::Err(e)) => Result::Err(e),
        },
        MType::MBigMap(b) => match (
            stack_result_to_concrete_type(resolved, &b.0),
            stack_result_to_concrete_type(resolved, &b.1),
        ) {
            (Result::Ok(l), Result::Ok(r)) => Result::Ok(MType::MBigMap(Box::new((l, r)))),
            (Result::Err(e), _) => Result::Err(e),
            (_, Result::Err(e)) => Result::Err(e),
        },
        MType::MOr(b) => match (
            stack_result_to_concrete_type(resolved, &b.0),
            stack_result_to_concrete_type(resolved, &b.1),
        ) {
            (Result::Ok(l), Result::Ok(r)) => Result::Ok(MType::MOr(Box::new((l, r)))),
            (Result::Err(e), _) => Result::Err(e),
            (_, Result::Err(e)) => Result::Err(e),
        },
        MType::MPair(b) => match (
            stack_result_to_concrete_type(resolved, &b.0),
            stack_result_to_concrete_type(resolved, &b.1),
        ) {
            (Result::Ok(l), Result::Ok(r)) => Result::Ok(MType::MPair(Box::new((l, r)))),
            (Result::Err(e), _) => Result::Err(e),
            (_, Result::Err(e)) => Result::Err(e),
        },
        MType::MLambda(b) => match (
            stack_result_to_concrete_type(resolved, &b.0),
            stack_result_to_concrete_type(resolved, &b.1),
        ) {
            (Result::Ok(l), Result::Ok(r)) => Result::Ok(MType::MLambda(Box::new((l, r)))),
            (Result::Err(e), _) => Result::Err(e),
            (_, Result::Err(e)) => Result::Err(e),
        },
    }
}

/// The ground types an output stack denotes, all entries or nothing.
pub open spec fn sp_outputs(m: Seq<(char, ConcreteType)>, outs: Seq<StackResult>) -> Option<
    Seq<ConcreteType>,
>
    decreases outs.len(),
{
    if outs.len() == 0 {
        Some(Seq::<ConcreteType>::empty())
    } else {
        match (sp_stack_result_ty(m, outs[0]), sp_outputs(m, outs.drop_first())) {
            (Some(t), Some(rest)) => Some(seq![t].add(rest)),
            _ => None,
        }
    }
}

/// Pop the schema's inputs off the stack, unifying each in turn; the result
/// is the extended cache and what is left of the stack.
pub open spec fn sp_unify_inputs(
    m: Seq<(char, ConcreteType)>,
    ins: Seq<Constraint>,
    s: Seq<ConcreteType>,
) -> Option<(Seq<(char, ConcreteType)>, Seq<ConcreteType>)>
    decreases ins.len(),
{
    if ins.len() == 0 {
        Some((m, s))
    } else if s.len() == 0 {
        None
    } else {
        match sp_unify_concrete(m, s[0], ins[0]) {
            Some(m1) => sp_unify_inputs(m1, ins.drop_first(), s.drop_first()),
            None => None,
        }
    }
}

/// Match a schema against the stack: on a failed stack unification
/// short-circuits to success (any behaviour is consistent with divergence);
/// on a live stack the inputs must prefix it and the materialised outputs
/// replace them.
pub open spec fn sp_unify_stack(
    m: Seq<(char, ConcreteType)>,
    ins: Seq<Constraint>,
    outs: Seq<StackResult>,
    st: StackModel<MAtomic>,
) -> Option<(Seq<(char, ConcreteType)>, StackModel<MAtomic>)> {
    match st {
        StackModel::Failed => Some((m, StackModel::Failed)),
        StackModel::Live(s) => if s.len() < ins.len() {
            None
        } else {
            match sp_unify_inputs(m, ins, s) {
                Some((m1, rest)) => match sp_outputs(m1, outs) {
                    Some(os) => Some((m1, StackModel::Live(os.add(rest)))),
                    None => None,
                },
                None => None,
            }
        },
    }
}

/// Failure of any entry fails the whole output stack.
proof fn lemma_outputs_none(m: Seq<(char, ConcreteType)>, outs: Seq<StackResult>, j: int)
    requires
        0 <= j <= outs.len(),
        sp_outputs(m, outs.skip(j)) is None,
    ensures
        sp_outputs(m, outs) is None,
    decreases j,
{
    if j == 0 {
        assert(outs.skip(0) =~= outs);
    } else {
        if outs.len() == 0 {
            assert(outs.skip(j) =~= outs);
        } else {
            assert(outs.drop_first().skip(j - 1) =~= outs.skip(j));
            lemma_outputs_none(m, outs.drop_first(), j - 1);
        }
    }
}

/// Materialise a whole output stack from the cache (see [`sp_outputs`]).
fn resolve_outputs(resolved: &ResolveCache, outs: &Vec<StackResult>) -> (r: Result<
    Vec<ConcreteType>,
    String,
>)
    ensures
        match r {
            Result::Ok(v) => sp_outputs(resolved@, outs@) == Some(v@),
            Result::Err(_) => sp_outputs(resolved@, outs@) is None,
        },
{
    let mut v: Vec<ConcreteType> = Vec::new();
    let mut j: usize = outs.len();
    proof {
        assert(outs@.skip(j as int) =~= Seq::<StackResult>::empty());
    }
    while j > 0
        invariant
            j <= outs@.len(),
            sp_outputs(resolved@, outs@.skip(j as int)) == Some(v@),
        decreases j,
    {
        j = j - 1;
        match stack_result_to_concrete_type(resolved, &outs[j]) {
            Result::Ok(t) => {
                let ghost vprev = v@;
                v.insert(0, t);
                proof {
                    assert(outs@.skip(j as int)[0] == outs@[j as int]);
                    assert(outs@.skip(j as int).drop_first() =~= outs@.skip(j + 1));
                    assert(v@ =~= seq![t].add(vprev));
                }
            },
            Result::Err(e) => {
                proof {
                    assert(outs@.skip(j as int)[0] == outs@[j as int]);
                    lemma_outputs_none(resolved@, outs@, j as int);
                }
                return Result::Err(e);
            },
        }
    }
    proof {
        assert(outs@.skip(0) =~= outs@);
    }
    Result::Ok(v)
}

/// Match a schema's input stack against the current stack and push its
/// output stack (see [`sp_unify_stack`]).
pub fn unify_stack(
    resolved: &mut ResolveCache,
    sem_stack_in: &Vec<Constraint>,
    sem_stack_out: &Vec<StackResult>,
    stack_state: &mut StackState<MAtomic>,
) -> (r: Result<(), String>)
    ensures
        match sp_unify_stack(old(resolved)@, sem_stack_in@, sem_stack_out@, old(stack_state)@) {
            Some((m2, st2)) => r is Ok && final(resolved)@ == m2 && final(stack_state)@ == st2,
            None => r is Err,
        },
{
    match stack_state.len() {
        StackDerived::SdFailed => Result::Ok(()),
        StackDerived::SdOk(sslen) => {
            if sslen < sem_stack_in.len() {
                return Result::Err(
                    String::from_str("Stack was found too small for the operation"),
                );
            }
            let ghost s0 = old(stack_state)@->Live_0;
            let mut k: usize = 0;
            proof {
                assert(old(stack_state)@ == StackModel::Live(s0));
                assert(sem_stack_in@.skip(0) =~= sem_stack_in@);
                assert(s0.skip(0) =~= s0);
            }
            while k < sem_stack_in.len()
                invariant
                    k <= sem_stack_in@.len(),
                    old(stack_state)@ == StackModel::Live(s0),
                    stack_state@ matches StackModel::Live(s) && s =~= s0.skip(k as int),
                    s0.len() >= sem_stack_in@.len(),
                    sp_unify_inputs(old(resolved)@, sem_stack_in@, s0) == sp_unify_inputs(
                        resolved@,
                        sem_stack_in@.skip(k as int),
                        s0.skip(k as int),
                    ),
                decreases sem_stack_in@.len() - k,
            {
                let constraint = &sem_stack_in[k];
                let ghost mpre = resolved@;
                let stack_elem = match stack_state.pop_front() {
                    StackDerived::SdOk(Result::Ok(t)) => t,
                    _ => {
                        proof {
                            assert(false);
                        }
                        return Result::Err(String::from_str("Too few values in stack"));
                    },
                };
                proof {
                    assert(sem_stack_in@.skip(k as int)[0] == sem_stack_in@[k as int]);
                    assert(sem_stack_in@.skip(k as int).drop_first() =~= sem_stack_in@.skip(
                        k + 1,
                    ));
                    assert(s0.skip(k as int).drop_first() =~= s0.skip(k + 1));
                    assert(stack_elem == s0.skip(k as int)[0]);
                }
                match unify_concrete_arg(resolved, &stack_elem, constraint) {
                    Result::Ok(_) => {},
                    Result::Err(e) => {
                        proof {
                            assert(sp_unify_concrete(mpre, stack_elem, *constraint) is None);
                            assert(sp_unify_inputs(
                                mpre,
                                sem_stack_in@.skip(k as int),
                                s0.skip(k as int),
                            ) is None);
                            assert(sp_unify_inputs(old(resolved)@, sem_stack_in@, s0) is None);
                            assert(old(stack_state)@ == StackModel::Live(s0));
                            assert(s0.len() >= sem_stack_in@.len());
                            assert(sp_unify_stack(
                                old(resolved)@,
                                sem_stack_in@,
                                sem_stack_out@,
                                old(stack_state)@,
                            ) is None);
                        }
                        return Result::Err(e);
                    },
                }
                k = k + 1;
            }
            proof {
                assert(sem_stack_in@.skip(k as int).len() == 0);
            }
            // All inputs are consumed; materialise and push the outputs.
            match resolve_outputs(resolved, sem_stack_out) {
                Result::Err(e) => Result::Err(e),
                Result::Ok(v) => {
                    let ghost srest = stack_state@->Live_0;
                    let mut j: usize = v.len();
                    while j > 0
                        invariant
                            j <= v@.len(),
                            stack_state@ matches StackModel::Live(s) && s =~= v@.skip(
                                j as int,
                            ).add(srest),
                        decreases j,
                    {
                        j = j - 1;
                        stack_state.push_front(mt_clone(&v[j]));
                        proof {
                            assert(v@.skip(j as int) =~= seq![v@[j as int]].add(v@.skip(j + 1)));
                            assert(v@.skip(j as int).add(srest) =~= seq![v@[j as int]].add(
                                v@.skip(j + 1).add(srest),
                            ));
                        }
                    }
                    proof {
                        assert(v@.skip(0) =~= v@);
                    }
                    Result::Ok(())
                },
            }
        },
    }
}

} // verus!

verus! {

/// Push a type on a stack model; a failed stack absorbs the push.
pub open spec fn sp_push(st: StackModel<MAtomic>, t: ConcreteType) -> StackModel<MAtomic> {
    match st {
        StackModel::Live(s) => StackModel::Live(seq![t].add(s)),
        StackModel::Failed => StackModel::Failed,
    }
}

/// Reconcile two branch outcomes: equal live stacks match, a failed side
/// defers to the other, two failed sides stay failed, and two different live
/// stacks are a type error.
pub open spec fn sp_reconcile(a: StackModel<MAtomic>, b: StackModel<MAtomic>) -> Option<
    StackModel<MAtomic>,
> {
    match (a, b) {
        (StackModel::Failed, StackModel::Failed) => Some(StackModel::Failed),
        (StackModel::Failed, StackModel::Live(_)) => Some(b),
        (StackModel::Live(_), StackModel::Failed) => Some(a),
        (StackModel::Live(x), StackModel::Live(y)) => if x == y {
            Some(a)
        } else {
            None
        },
    }
}

/// Whether a terminal stack holds exactly the one given type; a failed stack
/// passes.
pub open spec fn sp_singleton_ok(st: StackModel<MAtomic>, t: ConcreteType) -> bool {
    match st {
        StackModel::Live(v) => v == seq![t],
        StackModel::Failed => true,
    }
}

/// The stack effect of an instruction sequence: thread the stack through the
/// instructions in order; nothing on the first error.
pub open spec fn sp_typecheck(
    selfty: ConcreteType,
    instrs: Seq<CompoundInstruction<SomeValue>>,
    st: StackModel<MAtomic>,
) -> Option<StackModel<MAtomic>>
    decreases instrs, 0nat, 0nat,
{
    if instrs.len() == 0 {
        Some(st)
    } else {
        match sp_tc_one(selfty, instrs[0], st) {
            Some(st1) => sp_typecheck(selfty, instrs.drop_first(), st1),
            None => None,
        }
    }
}

/// The stack effect of one instruction (see the construct-by-construct
/// comments in [`typecheck_one`]).
pub open spec fn sp_tc_one(
    selfty: ConcreteType,
    ci: CompoundInstruction<SomeValue>,
    st: StackModel<MAtomic>,
) -> Option<StackModel<MAtomic>>
    decreases ci, 0nat, 2nat,
{
    match ci {
        CompoundInstruction::SELF => Some(
            sp_push(st, MType::MContract(Box::new(selfty))),
        ),
        CompoundInstruction::FAIL => Some(StackModel::Failed),
        CompoundInstruction::FAILWITH => Some(StackModel::Failed),
        CompoundInstruction::Other(ins) => match spec_instruction_schemas(ins.name@) {
            Some(schemas) => sp_try_schemas(selfty, ins.args@, schemas, st),
            None => None,
        },
        CompoundInstruction::IF(tb, fb) => match st {
            StackModel::Failed => Some(StackModel::Failed),
            StackModel::Live(s) => if s.len() >= 1 && s[0] == MType::MWrapped(MAtomic::MBool) {
                (match (
                    sp_typecheck(selfty, tb@, StackModel::Live(s.drop_first())),
                    sp_typecheck(selfty, fb@, StackModel::Live(s.drop_first())),
                ) {
                    (Some(ra), Some(rb)) => sp_reconcile(ra, rb),
                    _ => None,
                })
            } else {
                None
            },
        },
        CompoundInstruction::IF_CONS(cb, nb) => match st {
            StackModel::Failed => Some(StackModel::Failed),
            StackModel::Live(s) => if s.len() >= 1 {
                match s[0] {
                    MType::MList(x) => match (
                        sp_typecheck(
                            selfty,
                            cb@,
                            StackModel::Live(seq![*x, MType::MList(x)].add(s.drop_first())),
                        ),
                        sp_typecheck(selfty, nb@, StackModel::Live(s.drop_first())),
                    ) {
                        (Some(ra), Some(rb)) => sp_reconcile(ra, rb),
                        _ => None,
                    },
                    _ => None,
                }
            } else {
                None
            },
        },
        CompoundInstruction::IF_NONE(nb, sb) => match st {
            StackModel::Failed => Some(StackModel::Failed),
            StackModel::Live(s) => if s.len() >= 1 {
                match s[0] {
                    MType::MOption(x) => match (
                        sp_typecheck(
                            selfty,
                            sb@,
                            StackModel::Live(seq![*x].add(s.drop_first())),
                        ),
                        sp_typecheck(selfty, nb@, StackModel::Live(s.drop_first())),
                    ) {
                        (Some(ra), Some(rb)) => sp_reconcile(ra, rb),
                        _ => None,
                    },
                    _ => None,
                }
            } else {
                None
            },
        },
        CompoundInstruction::IF_SOME(sb, nb) => match st {
            StackModel::Failed => Some(StackModel::Failed),
            StackModel::Live(s) => if s.len() >= 1 {
                match s[0] {
                    MType::MOption(x) => match (
                        sp_typecheck(
                            selfty,
                            sb@,
                            StackModel::Live(seq![*x].add(s.drop_first())),
                        ),
                        sp_typecheck(selfty, nb@, StackModel::Live(s.drop_first())),
                    ) {
                        (Some(ra), Some(rb)) => sp_reconcile(ra, rb),
                        _ => None,
                    },
                    _ => None,
                }
            } else {
                None
            },
        },
        CompoundInstruction::IF_LEFT(lb, rb) => match st {
            StackModel::Failed => Some(StackModel::Failed),
            StackModel::Live(s) => if s.len() >= 1 {
                match s[0] {
                    MType::MOr(x) => match (
                        sp_typecheck(
                            selfty,
                            lb@,
                            StackModel::Live(seq![x.0].add(s.drop_first())),
                        ),
                        sp_typecheck(
                            selfty,
                            rb@,
                            StackModel::Live(seq![x.1].add(s.drop_first())),
                        ),
                    ) {
                        (Some(ra), Some(rb)) => sp_reconcile(ra, rb),
                        _ => None,
                    },
                    _ => None,
                }
            } else {
                None
            },
        },
        CompoundInstruction::ITER(body) => match st {
            StackModel::Failed => Some(StackModel::Failed),
            StackModel::Live(s) => if s.len() >= 1 {
                let elem = match s[0] {
                    MType::MList(t) => Some(*t),
                    MType::MSet(t) => Some(*t),
                    MType::MMap(b) => Some(MType::MPair(b)),
                    _ => None,
                };
                match elem {
                    Some(e) => match sp_typecheck(
                        selfty,
                        body@,
                        StackModel::Live(seq![e].add(s.drop_first())),
                    ) {
                        Some(StackModel::Live(res)) => if res == s.drop_first() {
                            Some(StackModel::Live(s.drop_first()))
                        } else {
                            None
                        },
                        Some(StackModel::Failed) => Some(StackModel::Failed),
                        None => None,
                    },
                    None => None,
                }
            } else {
                None
            },
        },
        CompoundInstruction::MAP(body) => match st {
            StackModel::Failed => Some(StackModel::Failed),
            StackModel::Live(s) => if s.len() >= 1 {
                let info = match s[0] {
                    MType::MList(t) => Some((*t, 0int)),
                    MType::MOption(t) => Some((*t, 1int)),
                    MType::MMap(b) => Some((MType::MPair(b), 2int)),
                    _ => None,
                };
                match info {
                    Some((e, kind)) => match sp_typecheck(
                        selfty,
                        body@,
                        StackModel::Live(seq![e].add(s.drop_first())),
                    ) {
                        Some(StackModel::Live(res)) => if res.len() >= 1 && res.drop_first()
                            == s.drop_first() {
                            let u = res[0];
                            let wrapped = if kind == 0 {
                                MType::MList(Box::new(u))
                            } else if kind == 1 {
                                MType::MOption(Box::new(u))
                            } else {
                                MType::MMap(Box::new((s[0]->MMap_0.0, u)))
                            };
                            Some(StackModel::Live(seq![wrapped].add(s.drop_first())))
                        } else {
                            None
                        },
                        Some(StackModel::Failed) => Some(StackModel::Failed),
                        None => None,
                    },
                    None => None,
                }
            } else {
                None
            },
        },
        CompoundInstruction::LOOP(body) => match st {
            StackModel::Failed => Some(StackModel::Failed),
            StackModel::Live(s) => if s.len() >= 1 && s[0] == MType::MWrapped(MAtomic::MBool) {
                match sp_typecheck(selfty, body@, StackModel::Live(s.drop_first())) {
                    Some(StackModel::Live(res)) => if res == seq![
                        MType::MWrapped(MAtomic::MBool),
                    ].add(s.drop_first()) {
                        Some(StackModel::Live(s.drop_first()))
                    } else {
                        None
                    },
                    Some(StackModel::Failed) => Some(StackModel::Failed),
                    None => None,
                }
            } else {
                None
            },
        },
        CompoundInstruction::LOOP_LEFT(body) => match st {
            StackModel::Failed => Some(StackModel::Failed),
            StackModel::Live(s) => if s.len() >= 1 {
                match s[0] {
                    MType::MOr(x) => match sp_typecheck(
                        selfty,
                        body@,
                        StackModel::Live(seq![x.0].add(s.drop_first())),
                    ) {
                        Some(StackModel::Live(res)) => if res == seq![MType::MOr(x)].add(
                            s.drop_first(),
                        ) {
                            Some(StackModel::Live(seq![x.1].add(s.drop_first())))
                        } else {
                            None
                        },
                        Some(StackModel::Failed) => Some(StackModel::Failed),
                        None => None,
                    },
                    _ => None,
                }
            } else {
                None
            },
        },
        CompoundInstruction::DIP(n, body) => if n == 0 {
            None
        } else {
            match st {
                StackModel::Failed => Some(StackModel::Failed),
                StackModel::Live(s) => if s.len() >= n {
                    match sp_typecheck(selfty, body@, StackModel::Live(s.skip(n as int))) {
                        Some(StackModel::Live(res)) => Some(
                            StackModel::Live(s.take(n as int).add(res)),
                        ),
                        Some(StackModel::Failed) => Some(StackModel::Failed),
                        None => None,
                    }
                } else {
                    None
                },
            }
        },
        CompoundInstruction::DUP(n) => if n == 0 {
            None
        } else {
            match st {
                StackModel::Failed => Some(StackModel::Failed),
                StackModel::Live(s) => if s.len() >= n {
                    Some(StackModel::Live(seq![s[n - 1]].add(s)))
                } else {
                    None
                },
            }
        },
        CompoundInstruction::PAIR(n) => if n < 2 {
            None
        } else {
            match st {
                StackModel::Failed => Some(StackModel::Failed),
                StackModel::Live(s) => if s.len() >= n {
                    Some(
                        StackModel::Live(
                            seq![sp_mk_pair(s, n as nat)].add(s.skip(n as int)),
                        ),
                    )
                } else {
                    None
                },
            }
        },
        CompoundInstruction::UNPAIR(n) => if n < 2 {
            None
        } else {
            match st {
                StackModel::Failed => Some(StackModel::Failed),
                StackModel::Live(s) => if s.len() >= 1 {
                    match sp_unpair_list(s[0], n as nat) {
                        Some(l) => Some(StackModel::Live(l.add(s.drop_first()))),
                        None => None,
                    }
                } else {
                    None
                },
            }
        },
        CompoundInstruction::DIG(n) => match st {
            StackModel::Failed => Some(StackModel::Failed),
            StackModel::Live(s) => if s.len() >= n + 1 {
                Some(StackModel::Live(s.remove(n as int).insert(0, s[n as int])))
            } else {
                None
            },
        },
        CompoundInstruction::DUG(n) => match st {
            StackModel::Failed => Some(StackModel::Failed),
            StackModel::Live(s) => if s.len() >= n + 1 {
                Some(StackModel::Live(s.remove(0).insert(n as int, s[0])))
            } else {
                None
            },
        },
        CompoundInstruction::DROP(n) => match st {
            StackModel::Failed => Some(StackModel::Failed),
            StackModel::Live(s) => if s.len() >= n {
                Some(StackModel::Live(s.skip(n as int)))
            } else {
                None
            },
        },
        CompoundInstruction::GET(n) => match st {
            StackModel::Failed => Some(StackModel::Failed),
            StackModel::Live(s) => if s.len() >= 1 {
                match sp_get_n(n as nat, s[0]) {
                    Some(t) => Some(StackModel::Live(s.update(0, t))),
                    None => None,
                }
            } else {
                None
            },
        },
        CompoundInstruction::UPDATE(n) => match st {
            StackModel::Failed => Some(StackModel::Failed),
            StackModel::Live(s) => if s.len() >= 2 {
                match sp_update_n(n as nat, s[0], s[1]) {
                    Some(u) => Some(StackModel::Live(seq![u].add(s.skip(2)))),
                    None => None,
                }
            } else {
                None
            },
        },
        CompoundInstruction::LAMBDA_REC(it, ot, body) => match sp_typecheck(
            selfty,
            body@,
            StackModel::Live(seq![it, MType::MLambda(Box::new((it, ot)))]),
        ) {
            Some(res) => if sp_singleton_ok(res, ot) {
                Some(sp_push(st, MType::MLambda(Box::new((it, ot)))))
            } else {
                None
            },
            None => None,
        },
    }
}

/// Try each schema of an instruction in order on a copy of the stack; the
/// first whose arguments and input stack both unify decides the outcome.
pub open spec fn sp_try_schemas(
    selfty: ConcreteType,
    args: Seq<ArgValue<SomeValue>>,
    schemas: Seq<SchemaModel>,
    st: StackModel<MAtomic>,
) -> Option<StackModel<MAtomic>>
    decreases args, schemas.len(), 1nat,
{
    if schemas.len() == 0 {
        None
    } else {
        let sch = schemas[0];
        match sp_unify_args(Seq::<(char, ConcreteType)>::empty(), selfty, args, sch.args) {
            Some(m1) => match sp_unify_stack(m1, sch.input_stack, sch.output_stack, st) {
                Some((_m2, st1)) => Some(st1),
                None => sp_try_schemas(selfty, args, schemas.drop_first(), st),
            },
            None => sp_try_schemas(selfty, args, schemas.drop_first(), st),
        }
    }
}

/// Unify static arguments against a schema's argument constraints in order,
/// threading the cache.
pub open spec fn sp_unify_args(
    m: Seq<(char, ConcreteType)>,
    selfty: ConcreteType,
    args: Seq<ArgValue<SomeValue>>,
    cons: Seq<Constraint>,
) -> Option<Seq<(char, ConcreteType)>>
    decreases args, 0nat, 0nat,
{
    if args.len() == 0 || cons.len() == 0 {
        Some(m)
    } else {
        match sp_unify_arg(m, selfty, args[0], cons[0]) {
            Some(m1) => sp_unify_args(m1, selfty, args.drop_first(), cons.drop_first()),
            None => None,
        }
    }
}

/// Unify one static argument against one constraint: a type name binds a
/// `CTypeArg` variable (after its attribute check); a literal value is
/// checked against the ground type the constraint denotes, which then also
/// unifies against the constraint.
pub open spec fn sp_unify_arg(
    m: Seq<(char, ConcreteType)>,
    selfty: ConcreteType,
    arg: ArgValue<SomeValue>,
    con: Constraint,
) -> Option<Seq<(char, ConcreteType)>>
    decreases arg, 0nat, 0nat,
{
    match arg {
        ArgValue::TypeArg(ct) => match con {
            MType::MWrapped(w) => match w {
                ArgConstraint::CTypeArg(c, attrs) => if spec_check_attr_set(attrs, ct) {
                    Some(m.push((c, ct)))
                } else {
                    None
                },
                _ => None,
            },
            _ => None,
        },
        ArgValue::ValueArg(val) => {
            let tgt = match con {
                MType::MWrapped(w) => match w {
                    ArgConstraint::CTypeArg(_, _) => None,
                    ArgConstraint::CWarg(_, _) => None,
                    ArgConstraint::CTypeArgRef(c) => sp_lookup(m, c),
                    ArgConstraint::CAtomic(x) => Some(MType::MWrapped(x)),
                },
                _ => sp_constraint_to_concrete(m, con),
            };
            match tgt {
                Some(ct) => if sp_tc_value(selfty, val, ct) {
                    sp_unify_concrete(m, ct, con)
                } else {
                    None
                },
                None => None,
            }
        },
    }
}

/// Whether a literal value fits a ground type (the rules of
/// [`typecheck_value`]).
pub open spec fn sp_tc_value(selfty: ConcreteType, val: SomeValue, target: ConcreteType) -> bool
    decreases val, 0nat, 0nat,
{
    match target {
        MType::MWrapped(at) => match val {
            SomeValue::Atomic(av) => match (at, av) {
                (MAtomic::MUnit, AtomicValue::AVUnit) => true,
                (MAtomic::MBool, AtomicValue::AVBool(_)) => true,
                (MAtomic::MMutez, AtomicValue::AVNumber(n)) => n >= 0,
                (MAtomic::MNat, AtomicValue::AVNumber(n)) => n >= 0,
                (MAtomic::MInt, AtomicValue::AVNumber(_)) => true,
                (MAtomic::MString, AtomicValue::AVString(_)) => true,
                _ => false,
            },
            _ => false,
        },
        MType::MSet(c) => match val {
            SomeValue::Composite(b) => match *b {
                CompositeValue::CVSeq(SeqItem::SqValue(items)) => spec_check_attribute(
                    Attribute::Comparable,
                    *c,
                ) && sp_tc_values(selfty, items@, *c),
                _ => false,
            },
            _ => false,
        },
        MType::MList(c) => match val {
            SomeValue::Composite(b) => match *b {
                CompositeValue::CVSeq(q) => match q {
                    SeqItem::SqValue(items) => sp_tc_values(selfty, items@, *c),
                    SeqItem::SqInstr(items) => items@.len() == 0,
                },
                _ => false,
            },
            _ => false,
        },
        MType::MMap(b2) => match val {
            SomeValue::Composite(b) => match *b {
                CompositeValue::CVSeq(q) => (match q {
                    SeqItem::SqValue(items) => items@.len() == 0,
                    SeqItem::SqInstr(items) => items@.len() == 0,
                }) && spec_check_attribute(Attribute::Comparable, b2.0),
                CompositeValue::CKVList(items) => spec_check_attribute(
                    Attribute::Comparable,
                    b2.0,
                ) && sp_tc_kvs(selfty, items@, b2.0, b2.1),
                _ => false,
            },
            _ => false,
        },
        MType::MBigMap(b2) => match val {
            SomeValue::Composite(b) => match *b {
                CompositeValue::CVSeq(q) => (match q {
                    SeqItem::SqValue(items) => items@.len() == 0,
                    SeqItem::SqInstr(items) => items@.len() == 0,
                }) && spec_check_attribute(Attribute::Comparable, b2.0)
                    && spec_check_attribute(Attribute::BigmapValue, b2.1),
                CompositeValue::CKVList(items) => spec_check_attribute(
                    Attribute::Comparable,
                    b2.0,
                ) && spec_check_attribute(Attribute::BigmapValue, b2.1) && sp_tc_kvs(
                    selfty,
                    items@,
                    b2.0,
                    b2.1,
                ),
                _ => false,
            },
            _ => false,
        },
        MType::MPair(b2) => match val {
            SomeValue::Composite(b) => match *b {
                CompositeValue::CVPair(sv1, sv2) => sp_tc_value(selfty, sv1, b2.0)
                    && sp_tc_value(selfty, sv2, b2.1),
                _ => false,
            },
            _ => false,
        },
        MType::MOr(b2) => match val {
            SomeValue::Composite(b) => match *b {
                CompositeValue::CVLeft(sv) => sp_tc_value(selfty, sv, b2.0),
                CompositeValue::CVRight(sv) => sp_tc_value(selfty, sv, b2.1),
                _ => false,
            },
            _ => false,
        },
        MType::MLambda(b2) => match val {
            SomeValue::Composite(b) => match *b {
                CompositeValue::CVSeq(SeqItem::SqInstr(instrs)) => match sp_typecheck(
                    selfty,
                    instrs@,
                    StackModel::Live(seq![b2.0]),
                ) {
                    Some(res) => sp_singleton_ok(res, b2.1),
                    None => false,
                },
                _ => false,
            },
            _ => false,
        },
        MType::MOption(b2) => match val {
            SomeValue::Composite(b) => match *b {
                CompositeValue::CVSome(sv) => sp_tc_value(selfty, sv, *b2),
                CompositeValue::CVNone => true,
                _ => false,
            },
            _ => false,
        },
        MType::MContract(_) => false,
        MType::MTicket(_) => false,
    }
}

/// Whether every element of a value sequence fits the element type.
pub open spec fn sp_tc_values(selfty: ConcreteType, items: Seq<SomeValue>, c: ConcreteType) -> bool
    decreases items, 0nat, 1nat,
{
    forall|i: int| 0 <= i < items.len() ==> sp_tc_value(selfty, #[trigger] items[i], c)
}

/// Whether every key and value of a key/value sequence fit the key and value
/// types.
pub open spec fn sp_tc_kvs(
    selfty: ConcreteType,
    items: Seq<(SomeValue, SomeValue)>,
    kt: ConcreteType,
    vt: ConcreteType,
) -> bool
    decreases items, 0nat, 1nat,
{
    forall|i: int|
        0 <= i < items.len() ==> sp_tc_value(selfty, (#[trigger] items[i]).0, kt) && sp_tc_value(
            selfty,
            items[i].1,
            vt,
        )
}

} // verus!

verus! {

// Equality on typed values, defined on the comparable variants; used to
// deduplicate set elements and map keys.
fn mvalue_eq(a: &MValue, b: &MValue) -> bool
    decreases a,
{
    match (a, b) {
        (MValue::VUnit, MValue::VUnit) => true,
        (MValue::VNat(x), MValue::VNat(y)) => x == y,
        (MValue::VInt(x), MValue::VInt(y)) => x == y,
        (MValue::VMutez(x), MValue::VMutez(y)) => x == y,
        (MValue::VBool(x), MValue::VBool(y)) => x == y,
        (MValue::VString(x), MValue::VString(y)) => crate::instructions::str_eq(
            x.as_str(),
            y.as_str(),
        ),
        (MValue::VPair(x), MValue::VPair(y)) => mvalue_eq(&x.0, &y.0) && mvalue_eq(&x.1, &y.1),
        _ => false,
    }
}

// Insert into a set literal, dropping a duplicate element.
fn set_insert(items: &mut Vec<MValue>, v: MValue) {
    let mut k: usize = 0;
    while k < items.len()
        decreases items@.len() - k,
    {
        if mvalue_eq(&items[k], &v) {
            return ;
        }
        k = k + 1;
    }
    items.push(v);
}

// Insert into a map literal: a later binding of an equal key replaces the
// earlier one.
fn map_insert(items: &mut Vec<(MValue, MValue)>, k: MValue, v: MValue) {
    let mut i: usize = 0;
    while i < items.len()
        decreases items@.len() - i,
    {
        if mvalue_eq(&items[i].0, &k) {
            items.remove(i);
            items.insert(i, (k, v));
            return ;
        }
        i = i + 1;
    }
    items.push((k, v));
}

/// Validate a literal against an expected ground type and realise it as a
/// typed value.  The verdict follows [`sp_tc_value`]; on success the inferred
/// ground type is the target itself.
#[verifier::loop_isolation(false)]
pub fn typecheck_value(
    tcenv: &TcEnv,
    resolved: &ResolveCache,
    some_val: &SomeValue,
    target: &ConcreteType,
) -> (r: Result<(MValue, ConcreteType), String>)
    ensures
        r is Ok <==> sp_tc_value(tcenv.self_type, *some_val, *target),
        r matches Result::Ok(p) ==> p.1 == *target,
    decreases sv_size(*some_val), 0nat, 0nat,
{
    let mismatch: &str = "Value does not fit the expected type";
    match target {
        MType::MWrapped(at) => match some_val {
            SomeValue::Atomic(av) => match (at, av) {
                (MAtomic::MUnit, AtomicValue::AVUnit) => Result::Ok(
                    (MValue::VUnit, MType::MWrapped(MAtomic::MUnit)),
                ),
                (MAtomic::MBool, AtomicValue::AVBool(n)) => Result::Ok(
                    (MValue::VBool(*n), MType::MWrapped(MAtomic::MBool)),
                ),
                (MAtomic::MMutez, AtomicValue::AVNumber(n)) => {
                    if *n >= 0 {
                        Result::Ok((MValue::VMutez(*n as u32), MType::MWrapped(MAtomic::MMutez)))
                    } else {
                        Result::Err(String::from_str("Expecting a Nat but found an Int"))
                    }
                },
                (MAtomic::MNat, AtomicValue::AVNumber(n)) => {
                    if *n >= 0 {
                        Result::Ok((MValue::VNat(*n as u32), MType::MWrapped(MAtomic::MNat)))
                    } else {
                        Result::Err(String::from_str("Expecting a Nat but found an Int"))
                    }
                },
                (MAtomic::MInt, AtomicValue::AVNumber(n)) => Result::Ok(
                    (MValue::VInt(*n), MType::MWrapped(MAtomic::MInt)),
                ),
                (MAtomic::MString, AtomicValue::AVString(s)) => Result::Ok(
                    (MValue::VString(s.clone()), MType::MWrapped(MAtomic::MString)),
                ),
                _ => Result::Err(String::from_str(mismatch)),
            },
            _ => Result::Err(String::from_str(mismatch)),
        },
        MType::MSet(c) => match some_val {
            SomeValue::Composite(cv) => match &**cv {
                CompositeValue::CVSeq(SeqItem::SqValue(items)) => {
                    proof {
                        assert(*some_val == SomeValue::Composite(*cv));
                        assert(**cv == CompositeValue::CVSeq(SeqItem::SqValue(*items)));
                        assert(sv_size(*some_val) == 1 + cv_size(**cv));
                        assert(cv_size(**cv) == 1 + sq_size(SeqItem::SqValue(*items)));
                        assert(sq_size(SeqItem::SqValue(*items)) == 1 + svs_size(items@));
                    }
                    if !check_attribute(&Attribute::Comparable, c) {
                        return Result::Err(String::from_str("Set elements must be comparable"));
                    }
                    let mut il: Vec<MValue> = Vec::new();
                    let mut k: usize = 0;
                    while k < items.len()
                        invariant
                            k <= items@.len(),
                            forall|j: int|
                                0 <= j < k ==> sp_tc_value(
                                    tcenv.self_type,
                                    #[trigger] items@[j],
                                    **c,
                                ),
                            sv_size(*some_val) > svs_size(items@),
                            *target == MType::MSet(*c),
                        decreases items@.len() - k,
                    {
                        proof {
                            lemma_svs_size_index(items@, k as int);
                        }
                        match typecheck_value(tcenv, resolved, &items[k], c) {
                            Result::Ok((mv, _)) => {
                                set_insert(&mut il, mv);
                            },
                            Result::Err(e) => {
                                proof {
                                    assert(!sp_tc_value(tcenv.self_type, items@[k as int], **c));
                                    assert(!sp_tc_values(tcenv.self_type, items@, **c));
                                    assert(!sp_tc_value(tcenv.self_type, *some_val, *target));
                                }
                                return Result::Err(e);
                            },
                        }
                        k = k + 1;
                    }
                    proof {
                        assert(sp_tc_values(tcenv.self_type, items@, **c));
                        assert(sp_tc_value(tcenv.self_type, *some_val, *target));
                    }
                    Result::Ok((MValue::VSet(il), MType::MSet(Box::new(mt_clone(c)))))
                },
                _ => Result::Err(String::from_str(mismatch)),
            },
            _ => Result::Err(String::from_str(mismatch)),
        },
        MType::MList(c) => match some_val {
            SomeValue::Composite(cv) => match &**cv {
                CompositeValue::CVSeq(SeqItem::SqValue(items)) => {
                    proof {
                        assert(sv_size(*some_val) == 1 + cv_size(**cv));
                        assert(cv_size(**cv) == 1 + sq_size(SeqItem::SqValue(*items)));
                        assert(sq_size(SeqItem::SqValue(*items)) == 1 + svs_size(items@));
                    }
                    let mut il: Vec<MValue> = Vec::new();
                    let mut k: usize = 0;
                    while k < items.len()
                        invariant
                            k <= items@.len(),
                            forall|j: int|
                                0 <= j < k ==> sp_tc_value(
                                    tcenv.self_type,
                                    #[trigger] items@[j],
                                    **c,
                                ),
                            sv_size(*some_val) > svs_size(items@),
                            *target == MType::MList(*c),
                        decreases items@.len() - k,
                    {
                        proof {
                            lemma_svs_size_index(items@, k as int);
                        }
                        match typecheck_value(tcenv, resolved, &items[k], c) {
                            Result::Ok((mv, _)) => {
                                il.push(mv);
                            },
                            Result::Err(e) => {
                                proof {
                                    assert(!sp_tc_value(tcenv.self_type, items@[k as int], **c));
                                    assert(!sp_tc_values(tcenv.self_type, items@, **c));
                                    assert(!sp_tc_value(tcenv.self_type, *some_val, *target));
                                }
                                return Result::Err(e);
                            },
                        }
                        k = k + 1;
                    }
                    proof {
                        assert(sp_tc_values(tcenv.self_type, items@, **c));
                        assert(sp_tc_value(tcenv.self_type, *some_val, *target));
                    }
                    Result::Ok((MValue::VList(il), MType::MList(Box::new(mt_clone(c)))))
                },
                CompositeValue::CVSeq(SeqItem::SqInstr(items)) => {
                    if items.len() == 0 {
                        Result::Ok((MValue::VList(Vec::new()), MType::MList(Box::new(mt_clone(c)))))
                    } else {
                        Result::Err(
                            String::from_str("Expecting a list of values but found instructions"),
                        )
                    }
                },
                _ => Result::Err(String::from_str(mismatch)),
            },
            _ => Result::Err(String::from_str(mismatch)),
        },
        MType::MMap(b) => match some_val {
            SomeValue::Composite(cv) => match &**cv {
                CompositeValue::CVSeq(x) => {
                    if !check_attribute(&Attribute::Comparable, &b.0) {
                        return Result::Err(String::from_str("Map keys should be comparable"));
                    }
                    if x.len() == 0 {
                        Result::Ok(
                            (
                                MValue::VMap(Vec::new()),
                                MType::MMap(Box::new((mt_clone(&b.0), mt_clone(&b.1)))),
                            ),
                        )
                    } else {
                        Result::Err(
                            String::from_str("Expecting a key/value list but found a value list"),
                        )
                    }
                },
                CompositeValue::CKVList(items) => {
                    proof {
                        assert(sv_size(*some_val) == 1 + cv_size(**cv));
                        assert(cv_size(**cv) == 1 + kvs_size(items@));
                    }
                    if !check_attribute(&Attribute::Comparable, &b.0) {
                        return Result::Err(String::from_str("Map keys should be comparable"));
                    }
                    let mut hm: Vec<(MValue, MValue)> = Vec::new();
                    let mut k: usize = 0;
                    while k < items.len()
                        invariant
                            k <= items@.len(),
                            forall|j: int|
                                0 <= j < k ==> sp_tc_value(
                                    tcenv.self_type,
                                    (#[trigger] items@[j]).0,
                                    b.0,
                                ) && sp_tc_value(tcenv.self_type, items@[j].1, b.1),
                            sv_size(*some_val) > kvs_size(items@),
                            *target == MType::MMap(*b),
                        decreases items@.len() - k,
                    {
                        proof {
                            lemma_kvs_size_index(items@, k as int);
                        }
                        let mkv = match typecheck_value(tcenv, resolved, &items[k].0, &b.0) {
                            Result::Ok((mv, _)) => mv,
                            Result::Err(e) => {
                                proof {
                                    assert(!sp_tc_value(tcenv.self_type, items@[k as int].0, b.0));
                                    assert(!sp_tc_kvs(tcenv.self_type, items@, b.0, b.1));
                                    assert(!sp_tc_value(tcenv.self_type, *some_val, *target));
                                }
                                return Result::Err(e);
                            },
                        };
                        let mvv = match typecheck_value(tcenv, resolved, &items[k].1, &b.1) {
                            Result::Ok((mv, _)) => mv,
                            Result::Err(e) => {
                                proof {
                                    assert(!sp_tc_value(tcenv.self_type, items@[k as int].1, b.1));
                                    assert(!sp_tc_kvs(tcenv.self_type, items@, b.0, b.1));
                                    assert(!sp_tc_value(tcenv.self_type, *some_val, *target));
                                }
                                return Result::Err(e);
                            },
                        };
                        map_insert(&mut hm, mkv, mvv);
                        k = k + 1;
                    }
                    proof {
                        assert(sp_tc_kvs(tcenv.self_type, items@, b.0, b.1));
                        assert(sp_tc_value(tcenv.self_type, *some_val, *target));
                    }
                    Result::Ok(
                        (MValue::VMap(hm), MType::MMap(Box::new((mt_clone(&b.0), mt_clone(&b.1))))),
                    )
                },
                _ => Result::Err(String::from_str(mismatch)),
            },
            _ => Result::Err(String::from_str(mismatch)),
        },
        MType::MBigMap(b) => match some_val {
            SomeValue::Composite(cv) => match &**cv {
                CompositeValue::CVSeq(x) => {
                    if !check_attribute(&Attribute::Comparable, &b.0) {
                        return Result::Err(String::from_str("Big map keys should be comparable"));
                    }
                    if !check_attribute(&Attribute::BigmapValue, &b.1) {
                        return Result::Err(
                            String::from_str("Type not allowed to be a big_map value"),
                        );
                    }
                    if x.len() == 0 {
                        Result::Ok(
                            (
                                MValue::VBigMap(Vec::new()),
                                MType::MBigMap(Box::new((mt_clone(&b.0), mt_clone(&b.1)))),
                            ),
                        )
                    } else {
                        Result::Err(
                            String::from_str("Expecting a key/value list but found a value list"),
                        )
                    }
                },
                CompositeValue::CKVList(items) => {
                    proof {
                        assert(sv_size(*some_val) == 1 + cv_size(**cv));
                        assert(cv_size(**cv) == 1 + kvs_size(items@));
                    }
                    if !check_attribute(&Attribute::Comparable, &b.0) {
                        return Result::Err(String::from_str("Big map keys should be comparable"));
                    }
                    if !check_attribute(&Attribute::BigmapValue, &b.1) {
                        return Result::Err(
                            String::from_str("Type not allowed to be a big_map value"),
                        );
                    }
                    let mut hm: Vec<(MValue, MValue)> = Vec::new();
                    let mut k: usize = 0;
                    while k < items.len()
                        invariant
                            k <= items@.len(),
                            forall|j: int|
                                0 <= j < k ==> sp_tc_value(
                                    tcenv.self_type,
                                    (#[trigger] items@[j]).0,
                                    b.0,
                                ) && sp_tc_value(tcenv.self_type, items@[j].1, b.1),
                            sv_size(*some_val) > kvs_size(items@),
                            *target == MType::MBigMap(*b),
                        decreases items@.len() - k,
                    {
                        proof {
                            lemma_kvs_size_index(items@, k as int);
                        }
                        let mkv = match typecheck_value(tcenv, resolved, &items[k].0, &b.0) {
                            Result::Ok((mv, _)) => mv,
                            Result::Err(e) => {
                                proof {
                                    assert(!sp_tc_value(tcenv.self_type, items@[k as int].0, b.0));
                                    assert(!sp_tc_kvs(tcenv.self_type, items@, b.0, b.1));
                                    assert(!sp_tc_value(tcenv.self_type, *some_val, *target));
                                }
                                return Result::Err(e);
                            },
                        };
                        let mvv = match typecheck_value(tcenv, resolved, &items[k].1, &b.1) {
                            Result::Ok((mv, _)) => mv,
                            Result::Err(e) => {
                                proof {
                                    assert(!sp_tc_value(tcenv.self_type, items@[k as int].1, b.1));
                                    assert(!sp_tc_kvs(tcenv.self_type, items@, b.0, b.1));
                                    assert(!sp_tc_value(tcenv.self_type, *some_val, *target));
                                }
                                return Result::Err(e);
                            },
                        };
                        map_insert(&mut hm, mkv, mvv);
                        k = k + 1;
                    }
                    proof {
                        assert(sp_tc_kvs(tcenv.self_type, items@, b.0, b.1));
                        assert(sp_tc_value(tcenv.self_type, *some_val, *target));
                    }
                    Result::Ok(
                        (
                            MValue::VBigMap(hm),
                            MType::MBigMap(Box::new((mt_clone(&b.0), mt_clone(&b.1)))),
                        ),
                    )
                },
                _ => Result::Err(String::from_str(mismatch)),
            },
            _ => Result::Err(String::from_str(mismatch)),
        },
        MType::MPair(b) => match some_val {
            SomeValue::Composite(cv) => match &**cv {
                CompositeValue::CVPair(sv1, sv2) => {
                    let (mv1, ct1) = match typecheck_value(tcenv, resolved, sv1, &b.0) {
                        Result::Ok(p) => p,
                        Result::Err(e) => {
                            return Result::Err(e);
                        },
                    };
                    let (mv2, ct2) = match typecheck_value(tcenv, resolved, sv2, &b.1) {
                        Result::Ok(p) => p,
                        Result::Err(e) => {
                            return Result::Err(e);
                        },
                    };
                    Result::Ok(
                        (
                            MValue::VPair(Box::new((mv1, mv2))),
                            MType::MPair(Box::new((ct1, ct2))),
                        ),
                    )
                },
                _ => Result::Err(String::from_str(mismatch)),
            },
            _ => Result::Err(String::from_str(mismatch)),
        },
        MType::MOr(b) => match some_val {
            SomeValue::Composite(cv) => match &**cv {
                CompositeValue::CVLeft(sv) => match typecheck_value(tcenv, resolved, sv, &b.0) {
                    Result::Ok((mv, _)) => Result::Ok(
                        (
                            MValue::VLeft(Box::new(mv)),
                            MType::MOr(Box::new((mt_clone(&b.0), mt_clone(&b.1)))),
                        ),
                    ),
                    Result::Err(e) => Result::Err(e),
                },
                CompositeValue::CVRight(sv) => match typecheck_value(tcenv, resolved, sv, &b.1) {
                    Result::Ok((mv, _)) => Result::Ok(
                        (
                            MValue::VRight(Box::new(mv)),
                            MType::MOr(Box::new((mt_clone(&b.0), mt_clone(&b.1)))),
                        ),
                    ),
                    Result::Err(e) => Result::Err(e),
                },
                _ => Result::Err(String::from_str(mismatch)),
            },
            _ => Result::Err(String::from_str(mismatch)),
        },
        MType::MLambda(b) => match some_val {
            SomeValue::Composite(cv) => match &**cv {
                CompositeValue::CVSeq(SeqItem::SqInstr(instructions)) => {
                    proof {
                        assert(sv_size(*some_val) == 1 + cv_size(**cv));
                        assert(cv_size(**cv) == 1 + sq_size(SeqItem::SqInstr(*instructions)));
                        assert(sq_size(SeqItem::SqInstr(*instructions)) == 1 + cis_size(
                            instructions@,
                        ));
                    }
                    let lambda_input = mt_clone(&b.0);
                    let lambda_output = mt_clone(&b.1);
                    let mut stack: ConcreteStack = StackState::from(vec![lambda_input]);
                    proof {
                        assert(stack@->Live_0 =~= seq![b.0]);
                    }
                    match typecheck(tcenv, instructions, &mut stack) {
                        Result::Ok(tins) => {
                            if stack.compare_singleton(&b.1) {
                                Result::Ok(
                                    (
                                        MValue::VLambda(tins),
                                        MType::MLambda(
                                            Box::new((mt_clone(&b.0), lambda_output)),
                                        ),
                                    ),
                                )
                            } else {
                                Result::Err(
                                    String::from_str("Lambda does not match the expected type"),
                                )
                            }
                        },
                        Result::Err(e) => Result::Err(e),
                    }
                },
                _ => Result::Err(String::from_str(mismatch)),
            },
            _ => Result::Err(String::from_str(mismatch)),
        },
        MType::MOption(b) => match some_val {
            SomeValue::Composite(cv) => match &**cv {
                CompositeValue::CVSome(v) => match typecheck_value(tcenv, resolved, v, b) {
                    Result::Ok((tv, vt)) => Result::Ok(
                        (MValue::VSome(Box::new(tv)), MType::MOption(Box::new(vt))),
                    ),
                    Result::Err(e) => Result::Err(e),
                },
                CompositeValue::CVNone => Result::Ok(
                    (MValue::VNone, MType::MOption(Box::new(mt_clone(b)))),
                ),
                _ => Result::Err(String::from_str(mismatch)),
            },
            _ => Result::Err(String::from_str(mismatch)),
        },
        MType::MContract(_) => Result::Err(String::from_str(mismatch)),
        MType::MTicket(_) => Result::Err(String::from_str(mismatch)),
    }
}

} // verus!

verus! {

/// Type-check both branches of a branching construct on their start stacks
/// and reconcile the outcomes into `stack_` (the rule of [`sp_reconcile`]).
fn ensure_branches(
    tcenv: &TcEnv,
    stack_: &mut ConcreteStack,
    ta: &Vec<CompoundInstruction<SomeValue>>,
    tb: &Vec<CompoundInstruction<SomeValue>>,
    sa: ConcreteStack,
    sb: ConcreteStack,
) -> (r: Result<(Vec<CompoundInstruction<MValue>>, Vec<CompoundInstruction<MValue>>), String>)
    ensures
        match (
            sp_typecheck(tcenv.self_type, ta@, sa@),
            sp_typecheck(tcenv.self_type, tb@, sb@),
        ) {
            (Some(ra), Some(rb)) => match sp_reconcile(ra, rb) {
                Some(res) => r is Ok && final(stack_)@ == res,
                None => r is Err,
            },
            _ => r is Err,
        },
    decreases cis_size(ta@) + cis_size(tb@), 0nat, 1nat,
{
    let mut temp_a = sa;
    let mut temp_b = sb;
    let atc = match typecheck(tcenv, ta, &mut temp_a) {
        Result::Ok(t) => t,
        Result::Err(e) => {
            return Result::Err(e);
        },
    };
    let btc = match typecheck(tcenv, tb, &mut temp_b) {
        Result::Ok(t) => t,
        Result::Err(e) => {
            return Result::Err(e);
        },
    };
    match temp_a.compare(&temp_b) {
        crate::types::StackCompResult::NoMatch => Result::Err(
            String::from_str("Types of branches differ"),
        ),
        crate::types::StackCompResult::RightFailed => {
            *stack_ = temp_a;
            Result::Ok((atc, btc))
        },
        crate::types::StackCompResult::LeftFailed => {
            *stack_ = temp_b;
            Result::Ok((atc, btc))
        },
        crate::types::StackCompResult::Match => {
            *stack_ = temp_a;
            Result::Ok((atc, btc))
        },
        crate::types::StackCompResult::BothFailed => {
            stack_.fail();
            Result::Ok((atc, btc))
        },
    }
}

/// Type-check the body of `ITER` with the element type pushed on the tail;
/// the body must restore the tail, or fail, which the outer stack inherits.
fn ensure_iter_body(
    tcenv: &TcEnv,
    stack_: &mut ConcreteStack,
    iter_item: ConcreteType,
    instr: &Vec<CompoundInstruction<SomeValue>>,
) -> (r: Result<Vec<CompoundInstruction<MValue>>, String>)
    requires
        old(stack_)@ matches StackModel::Live(s) && s.len() >= 1,
    ensures
        ({
            let tail = old(stack_)@->Live_0.drop_first();
            match sp_typecheck(tcenv.self_type, instr@, StackModel::Live(seq![iter_item].add(tail))) {
                Some(StackModel::Live(res)) => if res == tail {
                    r is Ok && final(stack_)@ == StackModel::Live(tail)
                } else {
                    r is Err
                },
                Some(StackModel::Failed) => r is Ok && final(stack_)@ is Failed,
                None => r is Err,
            }
        }),
    decreases cis_size(instr@), 0nat, 1nat,
{
    let expected_stack = stack_.clone_tail();
    let mut start_stack = expected_stack.clone_state();
    start_stack.push(iter_item);
    let tinst = match typecheck(tcenv, instr, &mut start_stack) {
        Result::Ok(t) => t,
        Result::Err(e) => {
            return Result::Err(e);
        },
    };
    match start_stack.compare(&expected_stack) {
        crate::types::StackCompResult::NoMatch => Result::Err(
            String::from_str("ITER body has unexpected type"),
        ),
        _ => {
            *stack_ = start_stack;
            Result::Ok(tinst)
        },
    }
}

/// Type-check the body of `MAP` with the element type pushed on the tail;
/// the body must leave a new element type over the unchanged tail (returned),
/// or fail, which the outer stack inherits.
fn ensure_map_body(
    tcenv: &TcEnv,
    stack_: &mut ConcreteStack,
    iter_item: ConcreteType,
    instr: &Vec<CompoundInstruction<SomeValue>>,
) -> (r: Result<(Vec<CompoundInstruction<MValue>>, Option<ConcreteType>), String>)
    requires
        old(stack_)@ matches StackModel::Live(s) && s.len() >= 1,
    ensures
        ({
            let tail = old(stack_)@->Live_0.drop_first();
            match sp_typecheck(tcenv.self_type, instr@, StackModel::Live(seq![iter_item].add(tail))) {
                Some(StackModel::Live(res)) => if res.len() >= 1 && res.drop_first() == tail {
                    r matches Result::Ok(p) && p.1 == Some(res[0]) && final(stack_)@
                        == StackModel::Live(tail)
                } else {
                    r is Err
                },
                Some(StackModel::Failed) => r matches Result::Ok(p) && p.1 is None
                    && final(stack_)@ is Failed,
                None => r is Err,
            }
        }),
    decreases cis_size(instr@), 0nat, 1nat,
{
    let expected_stack = stack_.clone_tail();
    let mut start_stack = expected_stack.clone_state();
    start_stack.push(iter_item);
    let tinst = match typecheck(tcenv, instr, &mut start_stack) {
        Result::Ok(t) => t,
        Result::Err(e) => {
            return Result::Err(e);
        },
    };
    match start_stack.pop_front() {
        StackDerived::SdFailed => {
            stack_.fail();
            Result::Ok((tinst, None))
        },
        StackDerived::SdOk(Result::Err(_)) => Result::Err(
            String::from_str("MAP body returned too few values on stack"),
        ),
        StackDerived::SdOk(Result::Ok(start_stack_head)) => {
            match start_stack.compare(&expected_stack) {
                crate::types::StackCompResult::NoMatch => Result::Err(
                    String::from_str("MAP body cannot mutate the tail of the stack"),
                ),
                crate::types::StackCompResult::Match => {
                    *stack_ = start_stack;
                    Result::Ok((tinst, Some(start_stack_head)))
                },
                _ => {
                    proof {
                        assert(false);
                    }
                    Result::Err(String::from_str("MAP body has unexpected type"))
                },
            }
        },
    }
}

/// Type-check the body of `LOOP` on the tail; it must restore the tail with
/// `bool` on top, or fail, which the outer stack inherits.
fn ensure_loop_body(
    tcenv: &TcEnv,
    stack_: &mut ConcreteStack,
    instr: &Vec<CompoundInstruction<SomeValue>>,
) -> (r: Result<Vec<CompoundInstruction<MValue>>, String>)
    requires
        old(stack_)@ matches StackModel::Live(s) && s.len() >= 1,
    ensures
        ({
            let tail = old(stack_)@->Live_0.drop_first();
            match sp_typecheck(tcenv.self_type, instr@, StackModel::Live(tail)) {
                Some(StackModel::Live(res)) => if res == seq![
                    MType::MWrapped(MAtomic::MBool),
                ].add(tail) {
                    r is Ok && final(stack_)@ == StackModel::Live(tail)
                } else {
                    r is Err
                },
                Some(StackModel::Failed) => r is Ok && final(stack_)@ is Failed,
                None => r is Err,
            }
        }),
    decreases cis_size(instr@), 0nat, 1nat,
{
    let tail_stack = stack_.clone_tail();
    let mut start_stack = tail_stack.clone_state();
    let tinst = match typecheck(tcenv, instr, &mut start_stack) {
        Result::Ok(t) => t,
        Result::Err(e) => {
            return Result::Err(e);
        },
    };
    let mut wanted = tail_stack.clone_state();
    wanted.push(MType::MWrapped(MAtomic::MBool));
    match start_stack.compare(&wanted) {
        crate::types::StackCompResult::NoMatch => Result::Err(
            String::from_str("LOOP body has unexpected type"),
        ),
        crate::types::StackCompResult::Match => {
            *stack_ = tail_stack;
            Result::Ok(tinst)
        },
        crate::types::StackCompResult::LeftFailed => {
            stack_.fail();
            Result::Ok(tinst)
        },
        _ => {
            proof {
                assert(false);
            }
            Result::Err(String::from_str("LOOP body has unexpected type"))
        },
    }
}

/// Type-check the body of `LOOP_LEFT` with the left type pushed on the tail;
/// it must restore the `or` over the tail, and the right type is pushed on
/// exit; a failing body fails the outer stack.
fn ensure_loop_left_body(
    tcenv: &TcEnv,
    stack_: &mut ConcreteStack,
    lt: ConcreteType,
    rt: ConcreteType,
    instr: &Vec<CompoundInstruction<SomeValue>>,
) -> (r: Result<Vec<CompoundInstruction<MValue>>, String>)
    requires
        old(stack_)@ matches StackModel::Live(s) && s.len() >= 1,
    ensures
        ({
            let tail = old(stack_)@->Live_0.drop_first();
            match sp_typecheck(tcenv.self_type, instr@, StackModel::Live(seq![lt].add(tail))) {
                Some(StackModel::Live(res)) => if res == seq![
                    MType::MOr(Box::new((lt, rt))),
                ].add(tail) {
                    r is Ok && final(stack_)@ == StackModel::Live(seq![rt].add(tail))
                } else {
                    r is Err
                },
                Some(StackModel::Failed) => r is Ok && final(stack_)@ is Failed,
                None => r is Err,
            }
        }),
    decreases cis_size(instr@), 0nat, 1nat,
{
    let tail_stack = stack_.clone_tail();
    let mut start_stack = tail_stack.clone_state();
    start_stack.push(mt_clone(&lt));
    let tinst = match typecheck(tcenv, instr, &mut start_stack) {
        Result::Ok(t) => t,
        Result::Err(e) => {
            return Result::Err(e);
        },
    };
    let mut wanted = tail_stack.clone_state();
    wanted.push(MType::MOr(Box::new((mt_clone(&lt), mt_clone(&rt)))));
    match start_stack.compare(&wanted) {
        crate::types::StackCompResult::NoMatch => Result::Err(
            String::from_str("LOOP_LEFT body has unexpected type"),
        ),
        crate::types::StackCompResult::Match => {
            let mut out = tail_stack;
            out.push(rt);
            *stack_ = out;
            Result::Ok(tinst)
        },
        crate::types::StackCompResult::LeftFailed => {
            stack_.fail();
            Result::Ok(tinst)
        },
        _ => {
            proof {
                assert(false);
            }
            Result::Err(String::from_str("LOOP_LEFT body has unexpected type"))
        },
    }
}

/// Unify one static argument against one constraint (see [`sp_unify_arg`]).
fn unify_arg(
    tcenv: &TcEnv,
    resolved: &mut ResolveCache,
    arg: &ArgValue<SomeValue>,
    arg_con: &Constraint,
) -> (r: Result<ArgValue<MValue>, String>)
    ensures
        match sp_unify_arg(old(resolved)@, tcenv.self_type, *arg, *arg_con) {
            Some(m2) => r is Ok && final(resolved)@ == m2,
            None => r is Err,
        },
    decreases argv_size(*arg), 0nat, 1nat,
{
    match arg {
        ArgValue::TypeArg(ct) => match arg_con {
            MType::MWrapped(ArgConstraint::CTypeArg(c, attrs)) => {
                if check_attr_set(attrs, ct) {
                    add_symbol(resolved, *c, ct);
                    Result::Ok(ArgValue::TypeArg(mt_clone(ct)))
                } else {
                    Result::Err(String::from_str("Type does not meet the required constraints"))
                }
            },
            _ => Result::Err(String::from_str("Unexpected type name argument")),
        },
        ArgValue::ValueArg(some_val) => {
            let tgt: Option<ConcreteType> = match arg_con {
                MType::MWrapped(ArgConstraint::CTypeArg(_, _)) => None,
                MType::MWrapped(ArgConstraint::CWarg(_, _)) => None,
                MType::MWrapped(ArgConstraint::CTypeArgRef(c)) => lookup_symbol(resolved, *c),
                MType::MWrapped(ArgConstraint::CAtomic(x)) => Some(MType::MWrapped(*x)),
                _ => constraint_to_concrete(resolved, arg_con),
            };
            match tgt {
                None => Result::Err(String::from_str("Could not resolve the argument's type")),
                Some(ct) => {
                    let (m, _) = match typecheck_value(tcenv, resolved, some_val, &ct) {
                        Result::Ok(p) => p,
                        Result::Err(e) => {
                            return Result::Err(e);
                        },
                    };
                    match unify_concrete_arg(resolved, &ct, arg_con) {
                        Result::Ok(_) => Result::Ok(ArgValue::ValueArg(m)),
                        Result::Err(e) => Result::Err(e),
                    }
                },
            }
        },
    }
}

/// Unify a vector of static arguments against a schema's argument
/// constraints, producing the resolution cache and the typed arguments (see
/// [`sp_unify_args`]).
fn unify_args(
    tcenv: &TcEnv,
    args: &Vec<ArgValue<SomeValue>>,
    arg_cons: &Vec<Constraint>,
) -> (r: Result<(ResolveCache, Vec<ArgValue<MValue>>), String>)
    ensures
        match sp_unify_args(
            Seq::<(char, ConcreteType)>::empty(),
            tcenv.self_type,
            args@,
            arg_cons@,
        ) {
            Some(m2) => r matches Result::Ok(p) && p.0@ == m2,
            None => r is Err,
        },
    decreases argvs_size(args@), 0nat, 1nat,
{
    let mut resolved: ResolveCache = Vec::new();
    let mut args_: Vec<ArgValue<MValue>> = Vec::new();
    let n = if args.len() < arg_cons.len() {
        args.len()
    } else {
        arg_cons.len()
    };
    let mut k: usize = 0;
    proof {
        assert(args@.skip(0) =~= args@);
        assert(arg_cons@.skip(0) =~= arg_cons@);
    }
    while k < n
        invariant
            k <= n,
            n == if args@.len() < arg_cons@.len() {
                args@.len()
            } else {
                arg_cons@.len()
            },
            sp_unify_args(
                Seq::<(char, ConcreteType)>::empty(),
                tcenv.self_type,
                args@,
                arg_cons@,
            ) == sp_unify_args(
                resolved@,
                tcenv.self_type,
                args@.skip(k as int),
                arg_cons@.skip(k as int),
            ),
        decreases n - k,
    {
        proof {
            lemma_argvs_size_index(args@, k as int);
            assert(args@.skip(k as int)[0] == args@[k as int]);
            assert(arg_cons@.skip(k as int)[0] == arg_cons@[k as int]);
            assert(args@.skip(k as int).drop_first() =~= args@.skip(k + 1));
            assert(arg_cons@.skip(k as int).drop_first() =~= arg_cons@.skip(k + 1));
        }
        match unify_arg(tcenv, &mut resolved, &args[k], &arg_cons[k]) {
            Result::Ok(a) => {
                args_.push(a);
            },
            Result::Err(e) => {
                return Result::Err(e);
            },
        }
        k = k + 1;
    }
    proof {
        assert(args@.skip(k as int).len() == 0 || arg_cons@.skip(k as int).len() == 0);
    }
    Result::Ok((resolved, args_))
}

} // verus!

verus! {

/// Type-check one instruction against the stack, mutating it (see
/// [`sp_tc_one`] for the construct-by-construct rules).
#[verifier::loop_isolation(false)]
pub fn typecheck_one(
    tcenv: &TcEnv,
    cinstruction: &CompoundInstruction<SomeValue>,
    stack: &mut ConcreteStack,
) -> (r: Result<CompoundInstruction<MValue>, String>)
    ensures
        match sp_tc_one(tcenv.self_type, *cinstruction, old(stack)@) {
            Some(st2) => r is Ok && final(stack)@ == st2,
            None => r is Err,
        },
    decreases ci_size(*cinstruction), 0nat, 0nat,
{
    match cinstruction {
        CompoundInstruction::Other(instruction) => {
            match michelson_instructions(instruction.name.as_str()) {
                None => Result::Err(String::from_str("Instruction not found")),
                Some(variants) => {
                    let ghost schemas = crate::instructions::defs_view(variants);
                    let ghost st0 = old(stack)@;
                    let mut k: usize = 0;
                    proof {
                        assert(schemas.skip(0) =~= schemas);
                    }
                    while k < variants.len()
                        invariant
                            k <= variants@.len(),
                            schemas == crate::instructions::defs_view(variants),
                            stack@ == st0,
                            sp_try_schemas(tcenv.self_type, instruction.args@, schemas, st0)
                                == sp_try_schemas(
                                tcenv.self_type,
                                instruction.args@,
                                schemas.skip(k as int),
                                st0,
                            ),
                            argvs_size(instruction.args@) < ci_size(*cinstruction),
                        decreases variants@.len() - k,
                    {
                        proof {
                            assert(schemas.skip(k as int)[0] == schemas[k as int]);
                            assert(schemas[k as int] == variants@[k as int]@);
                            assert(schemas.skip(k as int).drop_first() =~= schemas.skip(k + 1));
                        }
                        let s = &variants[k];
                        match unify_args(tcenv, &instruction.args, &s.args) {
                            Result::Ok((mut resolved, args_)) => {
                                let mut temp_stack = stack.clone_state();
                                match unify_stack(
                                    &mut resolved,
                                    &s.input_stack,
                                    &s.output_stack,
                                    &mut temp_stack,
                                ) {
                                    Result::Ok(_) => {
                                        *stack = temp_stack;
                                        return Result::Ok(
                                            CompoundInstruction::Other(
                                                Instruction {
                                                    location: instruction.location,
                                                    args: args_,
                                                    name: instruction.name.clone(),
                                                },
                                            ),
                                        );
                                    },
                                    Result::Err(_) => {},
                                }
                            },
                            Result::Err(_) => {},
                        }
                        k = k + 1;
                    }
                    proof {
                        assert(schemas.skip(k as int).len() == 0);
                    }
                    Result::Err(String::from_str("None of the instruction variants matched here"))
                },
            }
        },
        CompoundInstruction::SELF => {
            stack.push(MType::MContract(Box::new(mt_clone(&tcenv.self_type))));
            Result::Ok(CompoundInstruction::SELF)
        },
        CompoundInstruction::FAIL => {
            stack.fail();
            Result::Ok(CompoundInstruction::FAIL)
        },
        CompoundInstruction::FAILWITH => {
            stack.fail();
            Result::Ok(CompoundInstruction::FAIL)
        },
        CompoundInstruction::IF(tb, fb) => {
            match stack.get_index(0) {
                StackDerived::SdFailed => Result::Ok(CompoundInstruction::FAIL),
                StackDerived::SdOk(Result::Err(_)) => Result::Err(
                    String::from_str("Expecting a bool on stack top, but found an empty stack"),
                ),
                StackDerived::SdOk(Result::Ok(head)) => match head {
                    MType::MWrapped(MAtomic::MBool) => {
                        let sb = stack.clone_tail();
                        let sa = sb.clone_state();
                        match ensure_branches(tcenv, stack, tb, fb, sa, sb) {
                            Result::Ok((tbtc, fbtc)) => {
                                Result::Ok(CompoundInstruction::IF(tbtc, fbtc))
                            },
                            Result::Err(e) => Result::Err(e),
                        }
                    },
                    _ => Result::Err(
                        String::from_str(
                            "Expecting a bool on stack top, but found something else",
                        ),
                    ),
                },
            }
        },
        CompoundInstruction::IF_CONS(cb, nb) => {
            match stack.get_index(0) {
                StackDerived::SdFailed => Result::Ok(CompoundInstruction::FAIL),
                StackDerived::SdOk(Result::Err(_)) => Result::Err(
                    String::from_str("Empty stack found for IF_CONS"),
                ),
                StackDerived::SdOk(Result::Ok(head)) => match head {
                    MType::MList(x) => {
                        let elem = mt_clone(&**x);
                        let listty = MType::MList(Box::new(mt_clone(&**x)));
                        let sb = stack.clone_tail();
                        let mut sa = sb.clone_state();
                        sa.push(listty);
                        sa.push(elem);
                        proof {
                            assert(sa@ matches StackModel::Live(q) && q =~= seq![
                                **x,
                                MType::MList(*x),
                            ].add(old(stack)@->Live_0.drop_first()));
                        }
                        match ensure_branches(tcenv, stack, cb, nb, sa, sb) {
                            Result::Ok((cbtc, nbtc)) => {
                                Result::Ok(CompoundInstruction::IF_CONS(cbtc, nbtc))
                            },
                            Result::Err(e) => Result::Err(e),
                        }
                    },
                    _ => Result::Err(String::from_str("IF_CONS requires a list on top")),
                },
            }
        },
        CompoundInstruction::IF_NONE(nb, sb) => {
            match stack.get_index(0) {
                StackDerived::SdFailed => Result::Ok(CompoundInstruction::FAIL),
                StackDerived::SdOk(Result::Err(_)) => Result::Err(
                    String::from_str("Empty stack found for IF_NONE"),
                ),
                StackDerived::SdOk(Result::Ok(head)) => match head {
                    MType::MOption(x) => {
                        let elem = mt_clone(&**x);
                        let sn = stack.clone_tail();
                        let mut ss = sn.clone_state();
                        ss.push(elem);
                        match ensure_branches(tcenv, stack, sb, nb, ss, sn) {
                            Result::Ok((sbtc, nbtc)) => {
                                Result::Ok(CompoundInstruction::IF_NONE(nbtc, sbtc))
                            },
                            Result::Err(e) => Result::Err(e),
                        }
                    },
                    _ => Result::Err(String::from_str("IF_NONE requires an option on top")),
                },
            }
        },
        CompoundInstruction::IF_SOME(sb, nb) => {
            match stack.get_index(0) {
                StackDerived::SdFailed => Result::Ok(CompoundInstruction::FAIL),
                StackDerived::SdOk(Result::Err(_)) => Result::Err(
                    String::from_str("Empty stack found for IF_SOME"),
                ),
                StackDerived::SdOk(Result::Ok(head)) => match head {
                    MType::MOption(x) => {
                        let elem = mt_clone(&**x);
                        let sn = stack.clone_tail();
                        let mut ss = sn.clone_state();
                        ss.push(elem);
                        match ensure_branches(tcenv, stack, sb, nb, ss, sn) {
                            Result::Ok((sbtc, nbtc)) => {
                                Result::Ok(CompoundInstruction::IF_SOME(sbtc, nbtc))
                            },
                            Result::Err(e) => Result::Err(e),
                        }
                    },
                    _ => Result::Err(String::from_str("IF_SOME requires an option on top")),
                },
            }
        },
        CompoundInstruction::IF_LEFT(lb, rb) => {
            match stack.get_index(0) {
                StackDerived::SdFailed => Result::Ok(CompoundInstruction::FAIL),
                StackDerived::SdOk(Result::Err(_)) => Result::Err(
                    String::from_str("Empty stack found for IF_LEFT"),
                ),
                StackDerived::SdOk(Result::Ok(head)) => match head {
                    MType::MOr(x) => {
                        let lt = mt_clone(&x.0);
                        let rt = mt_clone(&x.1);
                        let tail = stack.clone_tail();
                        let mut sl = tail.clone_state();
                        sl.push(lt);
                        let mut sr = tail;
                        sr.push(rt);
                        match ensure_branches(tcenv, stack, lb, rb, sl, sr) {
                            Result::Ok((lbtc, rbtc)) => {
                                Result::Ok(CompoundInstruction::IF_LEFT(lbtc, rbtc))
                            },
                            Result::Err(e) => Result::Err(e),
                        }
                    },
                    _ => Result::Err(String::from_str("IF_LEFT requires an or on top")),
                },
            }
        },
        CompoundInstruction::ITER(ins) => {
            match stack.get_index(0) {
                StackDerived::SdFailed => Result::Ok(CompoundInstruction::FAIL),
                StackDerived::SdOk(Result::Err(_)) => Result::Err(
                    String::from_str("Empty stack found for ITER"),
                ),
                StackDerived::SdOk(Result::Ok(head)) => {
                    let elem: ConcreteType = match head {
                        MType::MList(t) => mt_clone(&**t),
                        MType::MSet(t) => mt_clone(&**t),
                        MType::MMap(t) => MType::MPair(
                            Box::new((mt_clone(&t.0), mt_clone(&t.1))),
                        ),
                        _ => {
                            return Result::Err(
                                String::from_str("ITER requires a list, set or map"),
                            );
                        },
                    };
                    match ensure_iter_body(tcenv, stack, elem, ins) {
                        Result::Ok(tinst) => {
                            Result::Ok(CompoundInstruction::ITER(tinst))
                        },
                        Result::Err(e) => Result::Err(e),
                    }
                },
            }
        },
        CompoundInstruction::MAP(ins) => {
            match stack.get_index(0) {
                StackDerived::SdFailed => Result::Ok(CompoundInstruction::FAIL),
                StackDerived::SdOk(Result::Err(_)) => Result::Err(
                    String::from_str("Empty stack found for MAP"),
                ),
                StackDerived::SdOk(Result::Ok(head)) => {
                    // 0: list, 1: option, 2: map over this key type.
                    let (elem, kind, mkey): (ConcreteType, usize, Option<ConcreteType>) =
                        match head {
                        MType::MList(t) => (mt_clone(&**t), 0, None),
                        MType::MOption(t) => (mt_clone(&**t), 1, None),
                        MType::MMap(t) => (
                            MType::MPair(Box::new((mt_clone(&t.0), mt_clone(&t.1)))),
                            2,
                            Some(mt_clone(&t.0)),
                        ),
                        _ => {
                            return Result::Err(
                                String::from_str("MAP requires a list, option or map"),
                            );
                        },
                    };
                    match ensure_map_body(tcenv, stack, elem, ins) {
                        Result::Err(e) => Result::Err(e),
                        Result::Ok((tinst, None)) => {
                            Result::Ok(CompoundInstruction::MAP(tinst))
                        },
                        Result::Ok((tinst, Some(u))) => {
                            if kind == 0 {
                                stack.push(MType::MList(Box::new(u)));
                            } else if kind == 1 {
                                stack.push(MType::MOption(Box::new(u)));
                            } else {
                                match mkey {
                                    Some(kt) => {
                                        stack.push(MType::MMap(Box::new((kt, u))));
                                    },
                                    None => {
                                        proof {
                                            assert(false);
                                        }
                                    },
                                }
                            }
                            Result::Ok(CompoundInstruction::MAP(tinst))
                        },
                    }
                },
            }
        },
        CompoundInstruction::LOOP(ins) => {
            match stack.get_index(0) {
                StackDerived::SdFailed => Result::Ok(CompoundInstruction::FAIL),
                StackDerived::SdOk(Result::Err(_)) => Result::Err(
                    String::from_str("Stack cannot be empty for LOOP"),
                ),
                StackDerived::SdOk(Result::Ok(head)) => match head {
                    MType::MWrapped(MAtomic::MBool) => {
                        match ensure_loop_body(tcenv, stack, ins) {
                            Result::Ok(tinst) => {
                                Result::Ok(CompoundInstruction::LOOP(tinst))
                            },
                            Result::Err(e) => Result::Err(e),
                        }
                    },
                    _ => Result::Err(String::from_str("LOOP requires a bool on top")),
                },
            }
        },
        CompoundInstruction::LOOP_LEFT(ins) => {
            match stack.get_index(0) {
                StackDerived::SdFailed => Result::Ok(CompoundInstruction::FAIL),
                StackDerived::SdOk(Result::Err(_)) => Result::Err(
                    String::from_str("LOOP_LEFT stack cannot be empty"),
                ),
                StackDerived::SdOk(Result::Ok(head)) => match head {
                    MType::MOr(b) => {
                        let lt = mt_clone(&b.0);
                        let rt = mt_clone(&b.1);
                        match ensure_loop_left_body(tcenv, stack, lt, rt, ins) {
                            Result::Ok(tinst) => {
                                Result::Ok(CompoundInstruction::LOOP_LEFT(tinst))
                            },
                            Result::Err(e) => Result::Err(e),
                        }
                    },
                    _ => Result::Err(String::from_str("LOOP_LEFT requires an or on top")),
                },
            }
        },
        CompoundInstruction::GET(n) => {
            match stack.get_index(0) {
                StackDerived::SdFailed => Result::Ok(CompoundInstruction::GET(*n)),
                StackDerived::SdOk(Result::Err(_)) => Result::Err(
                    String::from_str("Empty stack found for GET"),
                ),
                StackDerived::SdOk(Result::Ok(head)) => {
                    let h = mt_clone(head);
                    match get_n_pair(n, &h) {
                        Result::Ok(t) => {
                            let t2 = mt_clone(t);
                            stack.replace_index(0, t2);
                            Result::Ok(CompoundInstruction::GET(*n))
                        },
                        Result::Err(e) => Result::Err(e),
                    }
                },
            }
        },
        CompoundInstruction::UPDATE(n) => {
            match stack.ensure_stack_atleast(2) {
                StackDerived::SdFailed => Result::Ok(CompoundInstruction::UPDATE(*n)),
                StackDerived::SdOk(false) => Result::Err(
                    String::from_str("Stack too short for UPDATE"),
                ),
                StackDerived::SdOk(true) => {
                    let head = match stack.get_index(0) {
                        StackDerived::SdOk(Result::Ok(t)) => mt_clone(t),
                        _ => {
                            proof {
                                assert(false);
                            }
                            return Result::Err(String::from_str("Stack unexpectedly empty"));
                        },
                    };
                    let mut update_target = match stack.get_index(1) {
                        StackDerived::SdOk(Result::Ok(t)) => mt_clone(t),
                        _ => {
                            proof {
                                assert(false);
                            }
                            return Result::Err(String::from_str("Stack unexpectedly empty"));
                        },
                    };
                    match update_n_pair(n, &head, &mut update_target) {
                        Result::Ok(_) => {},
                        Result::Err(e) => {
                            return Result::Err(e);
                        },
                    }
                    stack.pop();
                    stack.replace_index(0, update_target);

                    proof {
                        let s = old(stack)@->Live_0;
                        let u = sp_update_n(*n as nat, s[0], s[1]).unwrap();
                        assert(s.drop_first().update(0, u) =~= seq![u].add(s.skip(2)));
                    }
                    Result::Ok(CompoundInstruction::UPDATE(*n))
                },
            }
        },
        CompoundInstruction::DUP(n) => {
            if *n == 0 {
                return Result::Err(String::from_str("DUP 0 is forbidden"));
            }
            match stack.ensure_stack_atleast(*n) {
                StackDerived::SdFailed => Result::Ok(CompoundInstruction::DUP(*n)),
                StackDerived::SdOk(false) => Result::Err(
                    String::from_str("Stack too short for DUP"),
                ),
                StackDerived::SdOk(true) => {
                    let target = match stack.get_index(*n - 1) {
                        StackDerived::SdOk(Result::Ok(t)) => mt_clone(t),
                        _ => {
                            proof {
                                assert(false);
                            }
                            return Result::Err(String::from_str("Stack unexpectedly empty"));
                        },
                    };
                    stack.push(target);
                    Result::Ok(CompoundInstruction::DUP(*n))
                },
            }
        },
        CompoundInstruction::PAIR(n) => {
            if *n < 2 {
                return Result::Err(String::from_str("PAIR with arity below 2 is forbidden"));
            }
            match mk_pair(stack, *n) {
                StackDerived::SdFailed => Result::Ok(CompoundInstruction::PAIR(*n)),
                StackDerived::SdOk(Result::Err(e)) => Result::Err(e),
                StackDerived::SdOk(Result::Ok(pair)) => {
                    stack.push(pair);
                    Result::Ok(CompoundInstruction::PAIR(*n))
                },
            }
        },
        CompoundInstruction::UNPAIR(n) => {
            if *n < 2 {
                return Result::Err(String::from_str("UNPAIR with arity below 2 is forbidden"));
            }
            match stack.pop() {
                StackDerived::SdFailed => Result::Ok(CompoundInstruction::UNPAIR(*n)),
                StackDerived::SdOk(Result::Err(_)) => Result::Err(
                    String::from_str("Empty stack found for UNPAIR"),
                ),
                StackDerived::SdOk(Result::Ok(head)) => {
                    match unmk_pair(&head, *n, stack) {
                        Result::Ok(_) => {
                            Result::Ok(CompoundInstruction::UNPAIR(*n))
                        },
                        Result::Err(e) => Result::Err(e),
                    }
                },
            }
        },
        CompoundInstruction::DIG(n) => {
            match stack.len() {
                StackDerived::SdFailed => Result::Ok(CompoundInstruction::DIG(*n)),
                StackDerived::SdOk(l) => {
                    if *n < l {
                        stack.move_element(*n, 0);
                        Result::Ok(CompoundInstruction::DIG(*n))
                    } else {
                        Result::Err(String::from_str("Stack too short for DIG"))
                    }
                },
            }
        },
        CompoundInstruction::DUG(n) => {
            match stack.len() {
                StackDerived::SdFailed => Result::Ok(CompoundInstruction::DUG(*n)),
                StackDerived::SdOk(l) => {
                    if *n < l {
                        stack.move_element(0, *n);
                        Result::Ok(CompoundInstruction::DUG(*n))
                    } else {
                        Result::Err(String::from_str("Stack too short for DUG"))
                    }
                },
            }
        },
        CompoundInstruction::DROP(n) => {
            match stack.ensure_stack_atleast(*n) {
                StackDerived::SdFailed => Result::Ok(CompoundInstruction::DROP(*n)),
                StackDerived::SdOk(false) => Result::Err(
                    String::from_str("Stack too short for DROP"),
                ),
                StackDerived::SdOk(true) => {
                    let ghost s = old(stack)@->Live_0;
                    let mut i: usize = 0;
                    proof {
                        assert(s.skip(0) =~= s);
                    }
                    while i < *n
                        invariant
                            i <= *n,
                            n <= s.len(),
                            stack@ == StackModel::Live(s.skip(i as int)),
                        decreases *n - i,
                    {
                        stack.pop();
                        proof {
                            assert(s.skip(i as int).drop_first() =~= s.skip(i + 1));
                        }
                        i = i + 1;
                    }
                    Result::Ok(CompoundInstruction::DROP(*n))
                },
            }
        },
        CompoundInstruction::DIP(n, instr) => {
            if *n == 0 {
                return Result::Err(
                    String::from_str("DIP instruction's argument cannot be zero"),
                );
            }
            match stack.ensure_stack_atleast(*n) {
                StackDerived::SdFailed => Result::Ok(CompoundInstruction::FAIL),
                StackDerived::SdOk(false) => Result::Err(
                    String::from_str("Stack too short for DIP"),
                ),
                StackDerived::SdOk(true) => {
                    let mut temp_stack = stack.clone_tail_at(*n);
                    let tins = match typecheck(tcenv, instr, &mut temp_stack) {
                        Result::Ok(t) => t,
                        Result::Err(e) => {
                            return Result::Err(e);
                        },
                    };
                    match temp_stack.ensure_non_empty() {
                        StackDerived::SdFailed => {
                            stack.fail();
                            Result::Ok(CompoundInstruction::DIP(*n, tins))
                        },
                        StackDerived::SdOk(_) => {
                            let mut result_stack = stack.clone_head_till(*n);
                            result_stack.append_stack(&mut temp_stack);
                            *stack = result_stack;
                            Result::Ok(CompoundInstruction::DIP(*n, tins))
                        },
                    }
                },
            }
        },
        CompoundInstruction::LAMBDA_REC(it, ot, instr) => {
            let mut temp_stack: ConcreteStack = StackState::from(
                vec![
                    mt_clone(it),
                    MType::MLambda(Box::new((mt_clone(it), mt_clone(ot)))),
                ],
            );
            proof {
                assert(temp_stack@->Live_0 =~= seq![
                    *it,
                    MType::MLambda(Box::new((*it, *ot))),
                ]);
            }
            let tins = match typecheck(tcenv, instr, &mut temp_stack) {
                Result::Ok(t) => t,
                Result::Err(e) => {
                    return Result::Err(e);
                },
            };
            if temp_stack.compare_singleton(ot) {
                stack.push(MType::MLambda(Box::new((mt_clone(it), mt_clone(ot)))));
                Result::Ok(CompoundInstruction::LAMBDA_REC(mt_clone(it), mt_clone(ot), tins))
            } else {
                Result::Err(String::from_str("Unexpected output stack for LAMBDA_REC"))
            }
        },
    }
}

/// Type-check an instruction sequence against the stack, mutating it in
/// place: the resulting stack (and whether checking succeeds at all) is the
/// pure function [`sp_typecheck`] of the instructions, the stack and the
/// declared parameter type.
pub fn typecheck(
    tcenv: &TcEnv,
    instructions: &Vec<CompoundInstruction<SomeValue>>,
    stack: &mut ConcreteStack,
) -> (r: Result<Vec<CompoundInstruction<MValue>>, String>)
    ensures
        match sp_typecheck(tcenv.self_type, instructions@, old(stack)@) {
            Some(st2) => r is Ok && final(stack)@ == st2,
            None => r is Err,
        },
        (r matches Result::Ok(tins) ==> tins@.len() == instructions@.len()),
    decreases cis_size(instructions@), 0nat, 0nat,
{
    let mut resolved: Vec<CompoundInstruction<MValue>> = Vec::new();
    let mut i: usize = 0;
    proof {
        assert(instructions@.skip(0) =~= instructions@);
    }
    while i < instructions.len()
        invariant
            i <= instructions@.len(),
            resolved@.len() == i,
            sp_typecheck(tcenv.self_type, instructions@, old(stack)@) == sp_typecheck(
                tcenv.self_type,
                instructions@.skip(i as int),
                stack@,
            ),
        decreases instructions@.len() - i,
    {
        proof {
            lemma_cis_size_index(instructions@, i as int);
            assert(instructions@.skip(i as int)[0] == instructions@[i as int]);
            assert(instructions@.skip(i as int).drop_first() =~= instructions@.skip(i + 1));
        }
        match typecheck_one(tcenv, &instructions[i], stack) {
            Result::Ok(t) => {
                resolved.push(t);
            },
            Result::Err(e) => {
                return Result::Err(e);
            },
        }
        i = i + 1;
    }
    Result::Ok(resolved)
}

/// Whether a whole contract type-checks: its parameter must be storable and
/// its storage passable; its code, started on the stack holding one
/// `pair parameter storage`, must end with a stack holding exactly one
/// `pair (list operation) storage` (or fail).
pub open spec fn sp_typecheck_contract(
    p: ConcreteType,
    st: ConcreteType,
    code: Seq<CompoundInstruction<SomeValue>>,
) -> bool {
    &&& spec_check_attribute(Attribute::Storable, p)
    &&& spec_check_attribute(Attribute::Passable, st)
    &&& match sp_typecheck(
        p,
        code,
        StackModel::Live(seq![MType::MPair(Box::new((p, st)))]),
    ) {
        Some(res) => sp_singleton_ok(
            res,
            MType::MPair(
                Box::new(
                    (MType::MList(Box::new(MType::MWrapped(MAtomic::MOperation))), st),
                ),
            ),
        ),
        None => false,
    }
}

/// Type-check a contract (see [`sp_typecheck_contract`]); on success the
/// declared types carry over to the typed contract unchanged.
pub fn typecheck_contract(contract: Contract<SomeValue>) -> (r: Result<Contract<MValue>, String>)
    ensures
        r is Ok <==> sp_typecheck_contract(contract.parameter, contract.storage, contract.code@),
        r matches Result::Ok(c) ==> c.parameter == contract.parameter && c.storage
            == contract.storage && c.code@.len() == contract.code@.len(),
{
    if !check_attribute(&Attribute::Storable, &contract.parameter) {
        return Result::Err(String::from_str("The parameter type must be storable"));
    }
    if !check_attribute(&Attribute::Passable, &contract.storage) {
        return Result::Err(String::from_str("The storage type must be passable"));
    }
    let mut stack: ConcreteStack = StackState::from(
        vec![
            MType::MPair(Box::new((mt_clone(&contract.parameter), mt_clone(&contract.storage)))),
        ],
    );
    proof {
        assert(stack@->Live_0 =~= seq![
            MType::MPair(Box::new((contract.parameter, contract.storage))),
        ]);
    }
    let tcenv = TcEnv { self_type: mt_clone(&contract.parameter) };
    let tins = match typecheck(&tcenv, &contract.code, &mut stack) {
        Result::Ok(t) => t,
        Result::Err(e) => {
            return Result::Err(e);
        },
    };
    let expected_stack_elem = MType::MPair(
        Box::new(
            (
                MType::MList(Box::new(MType::MWrapped(MAtomic::MOperation))),
                mt_clone(&contract.storage),
            ),
        ),
    );
    if stack.compare_singleton(&expected_stack_elem) {
        Result::Ok(
            Contract { parameter: contract.parameter, storage: contract.storage, code: tins },
        )
    } else {
        Result::Err(String::from_str("Unexpected stack result at the end of the contract"))
    }
}

} // verus!

verus! {

/// Reconciliation is insensitive to the order of the two branch outcomes:
/// swapping them changes neither the verdict nor the resulting stack.
pub proof fn lemma_reconcile_commutes(a: StackModel<MAtomic>, b: StackModel<MAtomic>)
    ensures
        sp_reconcile(a, b) == sp_reconcile(b, a),
{
    match (a, b) {
        (StackModel::Live(x), StackModel::Live(y)) => {
            if x == y {
                assert(sp_reconcile(a, b) == Some(a));
                assert(sp_reconcile(b, a) == Some(b));
            }
        },
        _ => {},
    }
}

/// Swapping the two branches of `IF` yields the same typing verdict and the
/// same resulting stack.
pub proof fn lemma_if_swap(
    selfty: ConcreteType,
    tb: Vec<CompoundInstruction<SomeValue>>,
    fb: Vec<CompoundInstruction<SomeValue>>,
    st: StackModel<MAtomic>,
)
    ensures
        sp_tc_one(selfty, CompoundInstruction::IF(tb, fb), st) == sp_tc_one(
            selfty,
            CompoundInstruction::IF(fb, tb),
            st,
        ),
{
    match st {
        StackModel::Failed => {},
        StackModel::Live(s) => {
            if s.len() >= 1 && s[0] == MType::MWrapped(MAtomic::MBool) {
                let sa = StackModel::Live(s.drop_first());
                match (sp_typecheck(selfty, tb@, sa), sp_typecheck(selfty, fb@, sa)) {
                    (Some(ra), Some(rb)) => {
                        lemma_reconcile_commutes(ra, rb);
                    },
                    _ => {},
                }
            }
        },
    }
}

/// `IF_NONE` with branches `(nb, sb)` and `IF_SOME` with branches `(sb, nb)`
/// give the same typing verdict and the same resulting stack.
pub proof fn lemma_if_none_if_some(
    selfty: ConcreteType,
    nb: Vec<CompoundInstruction<SomeValue>>,
    sb: Vec<CompoundInstruction<SomeValue>>,
    st: StackModel<MAtomic>,
)
    ensures
        sp_tc_one(selfty, CompoundInstruction::IF_NONE(nb, sb), st) == sp_tc_one(
            selfty,
            CompoundInstruction::IF_SOME(sb, nb),
            st,
        ),
{
}

/// A schema that tries to match a failed stack short-circuits to success and
/// leaves the stack failed, whatever the schemas say.
proof fn lemma_try_schemas_failed(
    selfty: ConcreteType,
    args: Seq<ArgValue<SomeValue>>,
    schemas: Seq<SchemaModel>,
)
    ensures
        match sp_try_schemas(selfty, args, schemas, StackModel::Failed) {
            Some(st) => st is Failed,
            None => true,
        },
    decreases schemas.len(),
{
    if schemas.len() > 0 {
        lemma_try_schemas_failed(selfty, args, schemas.drop_first());
    }
}

/// One instruction cannot revive a failed stack: whatever it is, if it is
/// accepted at all, the stack stays failed.
pub proof fn lemma_tc_one_failed_absorbs(selfty: ConcreteType, ci: CompoundInstruction<SomeValue>)
    ensures
        match sp_tc_one(selfty, ci, StackModel::Failed) {
            Some(st) => st is Failed,
            None => true,
        },
    decreases ci,
{
    match ci {
        CompoundInstruction::Other(ins) => {
            match spec_instruction_schemas(ins.name@) {
                Some(schemas) => {
                    lemma_try_schemas_failed(selfty, ins.args@, schemas);
                },
                None => {},
            }
        },
        _ => {},
    }
}

/// A whole instruction sequence cannot revive a failed stack (the absorbing
/// half of *stack preservation under failure*).
pub proof fn lemma_typecheck_failed_absorbs(
    selfty: ConcreteType,
    instrs: Seq<CompoundInstruction<SomeValue>>,
)
    ensures
        match sp_typecheck(selfty, instrs, StackModel::Failed) {
            Some(st) => st is Failed,
            None => true,
        },
    decreases instrs,
{
    if instrs.len() > 0 {
        lemma_tc_one_failed_absorbs(selfty, instrs[0]);
        match sp_tc_one(selfty, instrs[0], StackModel::Failed) {
            Some(st) => {
                lemma_typecheck_failed_absorbs(selfty, instrs.drop_first());
            },
            None => {},
        }
    }
}

/// Stack preservation under failure for the single-body constructs: where
/// the body of `ITER`, `MAP`, `LOOP`, `LOOP_LEFT` or `DIP` runs to a failed
/// stack and the construct is accepted, the outer stack after the construct
/// is failed too (the branching constructs instead reconcile, see
/// [`sp_reconcile`]).
pub proof fn lemma_stack_preservation_under_failure(
    selfty: ConcreteType,
    ci: CompoundInstruction<SomeValue>,
    s: Seq<ConcreteType>,
)
    requires
        match ci {
            CompoundInstruction::ITER(body) => s.len() >= 1 && (match s[0] {
                MType::MList(t) => sp_typecheck(
                    selfty,
                    body@,
                    StackModel::Live(seq![*t].add(s.drop_first())),
                ) == Some(StackModel::<MAtomic>::Failed),
                MType::MSet(t) => sp_typecheck(
                    selfty,
                    body@,
                    StackModel::Live(seq![*t].add(s.drop_first())),
                ) == Some(StackModel::<MAtomic>::Failed),
                MType::MMap(b) => sp_typecheck(
                    selfty,
                    body@,
                    StackModel::Live(seq![MType::MPair(b)].add(s.drop_first())),
                ) == Some(StackModel::<MAtomic>::Failed),
                _ => false,
            }),
            CompoundInstruction::MAP(body) => s.len() >= 1 && (match s[0] {
                MType::MList(t) => sp_typecheck(
                    selfty,
                    body@,
                    StackModel::Live(seq![*t].add(s.drop_first())),
                ) == Some(StackModel::<MAtomic>::Failed),
                MType::MOption(t) => sp_typecheck(
                    selfty,
                    body@,
                    StackModel::Live(seq![*t].add(s.drop_first())),
                ) == Some(StackModel::<MAtomic>::Failed),
                MType::MMap(b) => sp_typecheck(
                    selfty,
                    body@,
                    StackModel::Live(seq![MType::MPair(b)].add(s.drop_first())),
                ) == Some(StackModel::<MAtomic>::Failed),
                _ => false,
            }),
            CompoundInstruction::LOOP(body) => s.len() >= 1 && s[0] == MType::MWrapped(
                MAtomic::MBool,
            ) && sp_typecheck(selfty, body@, StackModel::Live(s.drop_first())) == Some(
                StackModel::<MAtomic>::Failed,
            ),
            CompoundInstruction::LOOP_LEFT(body) => s.len() >= 1 && (match s[0] {
                MType::MOr(x) => sp_typecheck(
                    selfty,
                    body@,
                    StackModel::Live(seq![x.0].add(s.drop_first())),
                ) == Some(StackModel::<MAtomic>::Failed),
                _ => false,
            }),
            CompoundInstruction::DIP(n, body) => n >= 1 && s.len() >= n && sp_typecheck(
                selfty,
                body@,
                StackModel::Live(s.skip(n as int)),
            ) == Some(StackModel::<MAtomic>::Failed),
            _ => false,
        },
    ensures
        sp_tc_one(selfty, ci, StackModel::Live(s)) == Some(StackModel::<MAtomic>::Failed),
{
}

/// Unifying the inputs of a schema ignores everything below them: extra
/// elements at the bottom of the stack carry over unchanged.
proof fn lemma_unify_inputs_monotonic(
    m: Seq<(char, ConcreteType)>,
    ins: Seq<Constraint>,
    s: Seq<ConcreteType>,
    extra: Seq<ConcreteType>,
)
    requires
        sp_unify_inputs(m, ins, s) is Some,
    ensures
        match sp_unify_inputs(m, ins, s) {
            Some((m1, rest)) => sp_unify_inputs(m, ins, s.add(extra)) == Some(
                (m1, rest.add(extra)),
            ),
            None => false,
        },
    decreases ins.len(),
{
    if ins.len() == 0 {
        assert(sp_unify_inputs(m, ins, s) == Some((m, s)));
        assert(sp_unify_inputs(m, ins, s.add(extra)) == Some((m, s.add(extra))));
    } else {
        assert(s.len() > 0);
        assert(s.add(extra).len() > 0);
        assert(s.add(extra)[0] == s[0]);
        match sp_unify_concrete(m, s[0], ins[0]) {
            Some(m1) => {
                assert(s.add(extra).drop_first() =~= s.drop_first().add(extra));
                lemma_unify_inputs_monotonic(m1, ins.drop_first(), s.drop_first(), extra);
            },
            None => {
                assert(false);
            },
        }
    }
}

/// *Schema monotonicity*: a schema that succeeds on a live stack also
/// succeeds on that stack extended below with any extra elements, binds the
/// same variables, and the extra elements reappear unchanged under the
/// result.
pub proof fn lemma_schema_monotonic(
    m: Seq<(char, ConcreteType)>,
    ins: Seq<Constraint>,
    outs: Seq<StackResult>,
    s: Seq<ConcreteType>,
    extra: Seq<ConcreteType>,
)
    requires
        sp_unify_stack(m, ins, outs, StackModel::Live(s)) is Some,
    ensures
        match sp_unify_stack(m, ins, outs, StackModel::Live(s)) {
            Some((m1, st1)) => st1 matches StackModel::Live(r1) && sp_unify_stack(
                m,
                ins,
                outs,
                StackModel::Live(s.add(extra)),
            ) == Some((m1, StackModel::Live(r1.add(extra)))),
            None => false,
        },
{
    assert(s.len() >= ins.len());
    assert(s.add(extra).len() >= ins.len());
    match sp_unify_inputs(m, ins, s) {
        Some((m1, rest)) => {
            lemma_unify_inputs_monotonic(m, ins, s, extra);
            match sp_outputs(m1, outs) {
                Some(os) => {
                    assert(os.add(rest).add(extra) =~= os.add(rest.add(extra)));
                },
                None => {
                    assert(false);
                },
            }
        },
        None => {
            assert(false);
        },
    }
}

} // verus!
