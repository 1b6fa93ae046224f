//! The data model: ground types, literal values, instruction trees, schema
//! constraints and the symbolic stack the type checker runs on.

use std::collections::VecDeque;
use vstd::prelude::*;
use vstd::string::StringExecFns;

verus! {

/// Atomic ground types of the source language.
#[derive(Debug, Clone, Copy, PartialEq, Eq, Structural, Hash)]
pub enum MAtomic {
    MChainId,
    MBytes,
    MAddress,
    MNat,
    MInt,
    MString,
    MBool,
    MKey,
    MKeyHash,
    MMutez,
    MTimestamp,
    MUnit,
    MOperation,
    MSignature,
}

/// A type expression: containers over a leaf type `T`.  With `T = MAtomic`
/// this is a ground type; schema constraints and stack results reuse the same
/// shape with richer leaves.
#[derive(Debug, PartialEq, Eq, Hash)]
pub enum MType<T> {
    MTicket(Box<MType<T>>),
    MOption(Box<MType<T>>),
    MContract(Box<MType<T>>),
    MPair(Box<(MType<T>, MType<T>)>),
    MOr(Box<(MType<T>, MType<T>)>),
    MList(Box<MType<T>>),
    MLambda(Box<(MType<T>, MType<T>)>),
    MBigMap(Box<(MType<T>, MType<T>)>),
    MMap(Box<(MType<T>, MType<T>)>),
    MSet(Box<MType<T>>),
    MWrapped(T),
}

/// A fully resolved ground type.
pub type ConcreteType = MType<MAtomic>;

/// The attributes a ground type may satisfy.
#[derive(Debug, Clone, Copy, PartialEq, Eq, Structural)]
pub enum Attribute {
    Comparable,
    Passable,
    Pushable,
    Storable,
    Packable,
    BigmapValue,
    Duplicable,
}

/// A set of required attributes, one flag per attribute.
#[derive(Debug, Clone, Copy, PartialEq, Eq, Structural)]
pub struct AttrSet {
    pub comparable: bool,
    pub passable: bool,
    pub pushable: bool,
    pub storable: bool,
    pub packable: bool,
    pub bigmap_value: bool,
    pub duplicable: bool,
}

impl AttrSet {
    /// The set holding none of the attributes.
    pub open spec fn spec_none() -> AttrSet {
        AttrSet {
            comparable: false,
            passable: false,
            pushable: false,
            storable: false,
            packable: false,
            bigmap_value: false,
            duplicable: false,
        }
    }

    /// The empty requirement: every ground type satisfies it.
    pub fn none() -> (r: AttrSet)
        ensures
            r == AttrSet::spec_none(),
    {
        AttrSet {
            comparable: false,
            passable: false,
            pushable: false,
            storable: false,
            packable: false,
            bigmap_value: false,
            duplicable: false,
        }
    }

    /// Whether `a` is in the set.
    pub open spec fn spec_has(self, a: Attribute) -> bool {
        match a {
            Attribute::Comparable => self.comparable,
            Attribute::Passable => self.passable,
            Attribute::Pushable => self.pushable,
            Attribute::Storable => self.storable,
            Attribute::Packable => self.packable,
            Attribute::BigmapValue => self.bigmap_value,
            Attribute::Duplicable => self.duplicable,
        }
    }
}

/// A leaf of a schema constraint.
#[derive(Debug, Clone, Copy, PartialEq, Eq, Structural)]
pub enum ArgConstraint {
    /// Exactly this atomic ground type.
    CAtomic(MAtomic),
    /// A fresh type variable bound to whatever ground type appears; the bound
    /// type must satisfy the attributes.
    CWarg(char, AttrSet),
    /// Like `CWarg`, but the source argument is a type annotation.
    CTypeArg(char, AttrSet),
    /// A reuse of a variable bound earlier in the same instruction.
    CTypeArgRef(char),
}

/// A schema constraint expression.
pub type Constraint = MType<ArgConstraint>;

/// An input-stack entry of a schema.
pub type StackArg = Constraint;

/// A leaf of an output-stack entry.
#[derive(Debug, Clone, Copy, PartialEq, Eq, Structural)]
pub enum StackResultElem {
    /// The ground type bound to this variable.
    TRef(char),
    /// This atomic ground type itself.
    ElemType(MAtomic),
}

/// An output-stack entry of a schema.
pub type StackResult = MType<StackResultElem>;

/// A literal value as the parser delivers it.
#[derive(Debug)]
pub enum SomeValue {
    Atomic(AtomicValue),
    Composite(Box<CompositeValue>),
}

/// An atomic literal.
#[derive(Debug)]
pub enum AtomicValue {
    AVNumber(i32),
    AVString(String),
    AVBool(bool),
    AVUnit,
}

/// A sequence literal: either values or an instruction block.
#[derive(Debug)]
pub enum SeqItem {
    SqValue(Vec<SomeValue>),
    SqInstr(Vec<CompoundInstruction<SomeValue>>),
}

/// A key/value entry of a map literal.
pub type SomeKeyValue = (SomeValue, SomeValue);

/// A compound literal value.
#[derive(Debug)]
pub enum CompositeValue {
    CVPair(SomeValue, SomeValue),
    CVSeq(SeqItem),
    CKVList(Vec<SomeKeyValue>),
    CVLeft(SomeValue),
    CVRight(SomeValue),
    CVSome(SomeValue),
    CVNone,
}

/// A type-checked value, with ground types resolved.
#[derive(Debug)]
pub enum MValue {
    VUnit,
    VNat(u32),
    VInt(i32),
    VBool(bool),
    VString(String),
    VPair(Box<(MValue, MValue)>),
    VRight(Box<MValue>),
    VLeft(Box<MValue>),
    VSome(Box<MValue>),
    VNone,
    VMutez(u32),
    /// Entries with unique keys; a later binding of an equal key replaces
    /// the earlier one.
    VMap(Vec<(MValue, MValue)>),
    VBigMap(Vec<(MValue, MValue)>),
    VList(Vec<MValue>),
    /// Elements unique: duplicates in the literal are dropped.
    VSet(Vec<MValue>),
    VLambda(Vec<CompoundInstruction<MValue>>),
}

/// A static argument of an instruction: a type name or a literal value.
#[derive(Debug)]
pub enum ArgValue<T> {
    TypeArg(ConcreteType),
    ValueArg(T),
}

/// A schema-driven instruction with its static arguments.
#[derive(Debug)]
pub struct Instruction<T> {
    pub location: usize,
    pub name: String,
    pub args: Vec<ArgValue<T>>,
}

/// The instruction tree: one case per control-flow construct and a leaf for
/// schema-driven instructions.
#[derive(Debug)]
#[allow(non_camel_case_types)]
pub enum CompoundInstruction<T> {
    IF(Vec<CompoundInstruction<T>>, Vec<CompoundInstruction<T>>),
    IF_CONS(Vec<CompoundInstruction<T>>, Vec<CompoundInstruction<T>>),
    IF_SOME(Vec<CompoundInstruction<T>>, Vec<CompoundInstruction<T>>),
    IF_NONE(Vec<CompoundInstruction<T>>, Vec<CompoundInstruction<T>>),
    IF_LEFT(Vec<CompoundInstruction<T>>, Vec<CompoundInstruction<T>>),
    PAIR(usize),
    UNPAIR(usize),
    DIP(usize, Vec<CompoundInstruction<T>>),
    DUP(usize),
    DIG(usize),
    DUG(usize),
    DROP(usize),
    GET(usize),
    UPDATE(usize),
    MAP(Vec<CompoundInstruction<T>>),
    ITER(Vec<CompoundInstruction<T>>),
    LOOP(Vec<CompoundInstruction<T>>),
    LOOP_LEFT(Vec<CompoundInstruction<T>>),
    LAMBDA_REC(ConcreteType, ConcreteType, Vec<CompoundInstruction<T>>),
    SELF,
    FAIL,
    FAILWITH,
    Other(Instruction<T>),
}

/// A contract: declared parameter and storage types and a code block.
#[derive(Debug)]
pub struct Contract<T> {
    pub parameter: ConcreteType,
    pub storage: ConcreteType,
    pub code: Vec<CompoundInstruction<T>>,
}

/// The type-checking environment: the declared parameter type of the
/// enclosing contract, pushed by `SELF`.
pub struct TcEnv {
    pub self_type: ConcreteType,
}

/// One polymorphic signature of an instruction.
#[derive(Debug)]
pub struct InstructionDef {
    pub args: Vec<Constraint>,
    pub input_stack: Vec<StackArg>,
    pub output_stack: Vec<StackResult>,
}

/// The mathematical view of a schema: the same three lists as sequences.
#[verifier::ext_equal]
pub struct SchemaModel {
    pub args: Seq<Constraint>,
    pub input_stack: Seq<StackArg>,
    pub output_stack: Seq<StackResult>,
}

impl View for InstructionDef {
    type V = SchemaModel;

    open spec fn view(&self) -> SchemaModel {
        SchemaModel {
            args: self.args@,
            input_stack: self.input_stack@,
            output_stack: self.output_stack@,
        }
    }
}

/// The symbolic stack: a live sequence of types, top first, or the absorbing
/// failed state produced by diverging instructions.
#[derive(Debug, PartialEq, Eq)]
pub enum StackState<T> {
    LiveStack(VecDeque<MType<T>>),
    FailedStack,
}

/// The mathematical view of a symbolic stack.
pub enum StackModel<T> {
    Live(Seq<MType<T>>),
    Failed,
}

impl<T> View for StackState<T> {
    type V = StackModel<T>;

    open spec fn view(&self) -> StackModel<T> {
        match self {
            StackState::LiveStack(v) => StackModel::Live(v@),
            StackState::FailedStack => StackModel::Failed,
        }
    }
}

/// A symbolic stack over ground types.
pub type ConcreteStack = StackState<MAtomic>;

/// A query against a stack that may be in the failed state: either the answer
/// or the sentinel that says the stack has failed.
pub enum StackDerived<T> {
    SdOk(T),
    SdFailed,
}

impl<T> StackDerived<T> {
    /// The answer of a query known not to have hit a failed stack.
    pub fn unwrap(self) -> (r: T)
        requires
            self is SdOk,
        ensures
            r == self->SdOk_0,
    {
        match self {
            StackDerived::SdOk(t) => t,
            StackDerived::SdFailed => unreached(),
        }
    }
}

/// The verdict of comparing two branch-outcome stacks.
pub enum StackCompResult {
    LeftFailed,
    RightFailed,
    BothFailed,
    NoMatch,
    Match,
}

/// Structural equality of two ground types.
pub fn mt_eq(a: &ConcreteType, b: &ConcreteType) -> (r: bool)
    ensures
        r == (a == b),
    decreases a,
{
    match (a, b) {
        (MType::MWrapped(x), MType::MWrapped(y)) => x == y,
        (MType::MTicket(x), MType::MTicket(y)) => mt_eq(x, y),
        (MType::MOption(x), MType::MOption(y)) => mt_eq(x, y),
        (MType::MContract(x), MType::MContract(y)) => mt_eq(x, y),
        (MType::MList(x), MType::MList(y)) => mt_eq(x, y),
        (MType::MSet(x), MType::MSet(y)) => mt_eq(x, y),
        (MType::MPair(x), MType::MPair(y)) => mt_eq(&x.0, &y.0) && mt_eq(&x.1, &y.1),
        (MType::MOr(x), MType::MOr(y)) => mt_eq(&x.0, &y.0) && mt_eq(&x.1, &y.1),
        (MType::MLambda(x), MType::MLambda(y)) => mt_eq(&x.0, &y.0) && mt_eq(&x.1, &y.1),
        (MType::MMap(x), MType::MMap(y)) => mt_eq(&x.0, &y.0) && mt_eq(&x.1, &y.1),
        (MType::MBigMap(x), MType::MBigMap(y)) => mt_eq(&x.0, &y.0) && mt_eq(&x.1, &y.1),
        _ => false,
    }
}

/// A structural copy of a type expression over copyable leaves.
pub fn mt_clone<T: Copy>(t: &MType<T>) -> (r: MType<T>)
    ensures
        r == *t,
    decreases t,
{
    match t {
        MType::MWrapped(x) => MType::MWrapped(*x),
        MType::MTicket(x) => MType::MTicket(Box::new(mt_clone(x))),
        MType::MOption(x) => MType::MOption(Box::new(mt_clone(x))),
        MType::MContract(x) => MType::MContract(Box::new(mt_clone(x))),
        MType::MList(x) => MType::MList(Box::new(mt_clone(x))),
        MType::MSet(x) => MType::MSet(Box::new(mt_clone(x))),
        MType::MPair(x) => MType::MPair(Box::new((mt_clone(&x.0), mt_clone(&x.1)))),
        MType::MOr(x) => MType::MOr(Box::new((mt_clone(&x.0), mt_clone(&x.1)))),
        MType::MLambda(x) => MType::MLambda(Box::new((mt_clone(&x.0), mt_clone(&x.1)))),
        MType::MMap(x) => MType::MMap(Box::new((mt_clone(&x.0), mt_clone(&x.1)))),
        MType::MBigMap(x) => MType::MBigMap(Box::new((mt_clone(&x.0), mt_clone(&x.1)))),
    }
}

impl<T: Copy> StackState<T> {
    /// The empty live stack.
    pub fn new() -> (r: Self)
        ensures
            r@ == StackModel::Live(Seq::<MType<T>>::empty()),
    {
        StackState::LiveStack(VecDeque::new())
    }

    /// A live stack holding the given types, index 0 on top.
    pub fn from(v: Vec<MType<T>>) -> (r: Self)
        ensures
            r@ == StackModel::Live(v@),
    {
        let mut d: VecDeque<MType<T>> = VecDeque::new();
        let mut i: usize = 0;
        while i < v.len()
            invariant
                i <= v.len(),
                d@ == v@.subrange(0, i as int),
            decreases v.len() - i,
        {
            d.push_back(mt_clone(&v[i]));
            assert(d@ =~= v@.subrange(0, i + 1 as int));
            i = i + 1;
        }
        assert(d@ =~= v@);
        StackState::LiveStack(d)
    }

    /// Turn the stack into the absorbing failed state.
    pub fn fail(&mut self)
        ensures
            final(self)@ is Failed,
    {
        *self = StackState::FailedStack;
    }

    /// The live contents, if the stack has not failed.
    pub fn get_live(&self) -> (r: Option<&VecDeque<MType<T>>>)
        ensures
            match self@ {
                StackModel::Live(s) => r matches Some(v) && v@ == s,
                StackModel::Failed => r is None,
            },
    {
        match self {
            StackState::LiveStack(v) => Some(v),
            StackState::FailedStack => None,
        }
    }

    /// The number of live elements; the sentinel on a failed stack.
    pub fn len(&self) -> (r: StackDerived<usize>)
        ensures
            match self@ {
                StackModel::Live(s) => r matches StackDerived::SdOk(n) && n == s.len(),
                StackModel::Failed => r is SdFailed,
            },
    {
        match self {
            StackState::LiveStack(v) => StackDerived::SdOk(v.len()),
            StackState::FailedStack => StackDerived::SdFailed,
        }
    }

    /// Whether the stack holds at least one element.
    pub fn ensure_non_empty(&self) -> (r: StackDerived<bool>)
        ensures
            match self@ {
                StackModel::Live(s) => r matches StackDerived::SdOk(b) && b == (s.len() >= 1),
                StackModel::Failed => r is SdFailed,
            },
    {
        self.ensure_stack_atleast(1)
    }

    /// Whether the stack holds at least `l` elements.
    pub fn ensure_stack_atleast(&self, l: usize) -> (r: StackDerived<bool>)
        ensures
            match self@ {
                StackModel::Live(s) => r matches StackDerived::SdOk(b) && b == (s.len() >= l),
                StackModel::Failed => r is SdFailed,
            },
    {
        match self {
            StackState::LiveStack(v) => StackDerived::SdOk(v.len() >= l),
            StackState::FailedStack => StackDerived::SdFailed,
        }
    }

    /// The element at depth `i` (0 is the top); an error past the end.
    pub fn get_index(&self, i: usize) -> (r: StackDerived<Result<&MType<T>, String>>)
        ensures
            match self@ {
                StackModel::Live(s) => r matches StackDerived::SdOk(q) && (match q {
                    Result::Ok(t) => i < s.len() && *t == s[i as int],
                    Result::Err(_) => i >= s.len(),
                }),
                StackModel::Failed => r is SdFailed,
            },
    {
        match self {
            StackState::LiveStack(v) => {
                if i < v.len() {
                    StackDerived::SdOk(Result::Ok(&v[i]))
                } else {
                    StackDerived::SdOk(Result::Err(String::from_str("Stack too short..")))
                }
            },
            StackState::FailedStack => StackDerived::SdFailed,
        }
    }

    /// Push a type on top; a no-op on a failed stack.
    pub fn push(&mut self, t: MType<T>)
        ensures
            match old(self)@ {
                StackModel::Live(s) => final(self)@ == StackModel::Live(seq![t].add(s)),
                StackModel::Failed => final(self)@ is Failed,
            },
    {
        match self {
            StackState::LiveStack(v) => {
                v.push_front(t);
                assert(v@ =~= seq![t].add(old(self)@->Live_0));
            },
            StackState::FailedStack => {},
        }
    }

    /// Pop the top type; an error on an empty stack, the sentinel on a failed
    /// one.
    pub fn pop(&mut self) -> (r: StackDerived<Result<MType<T>, String>>)
        ensures
            match old(self)@ {
                StackModel::Live(s) => r matches StackDerived::SdOk(q) && (match q {
                    Result::Ok(t) => s.len() > 0 && t == s[0] && final(self)@ == StackModel::Live(
                        s.drop_first(),
                    ),
                    Result::Err(_) => s.len() == 0 && final(self)@ == old(self)@,
                }),
                StackModel::Failed => r is SdFailed && final(self)@ is Failed,
            },
    {
        match self {
            StackState::LiveStack(v) => match v.pop_front() {
                Some(a) => {
                    proof {
                        assert(v@ =~= old(self)@->Live_0.drop_first());
                    }
                    StackDerived::SdOk(Result::Ok(a))
                },
                None => StackDerived::SdOk(Result::Err(String::from_str("Stack is empty"))),
            },
            StackState::FailedStack => StackDerived::SdFailed,
        }
    }

    /// Pop the front (top) of the stack; the same operation as [`Self::pop`].
    pub fn pop_front(&mut self) -> (r: StackDerived<Result<MType<T>, String>>)
        ensures
            match old(self)@ {
                StackModel::Live(s) => r matches StackDerived::SdOk(q) && (match q {
                    Result::Ok(t) => s.len() > 0 && t == s[0] && final(self)@ == StackModel::Live(
                        s.drop_first(),
                    ),
                    Result::Err(_) => s.len() == 0 && final(self)@ == old(self)@,
                }),
                StackModel::Failed => r is SdFailed && final(self)@ is Failed,
            },
    {
        self.pop()
    }

    /// Push onto the front (top) of the stack; the same operation as [`Self::push`].
    pub fn push_front(&mut self, t: MType<T>)
        ensures
            match old(self)@ {
                StackModel::Live(s) => final(self)@ == StackModel::Live(seq![t].add(s)),
                StackModel::Failed => final(self)@ is Failed,
            },
    {
        self.push(t)
    }

    /// Move the element at depth `f` to depth `t`; a no-op on a failed stack.
    pub fn move_element(&mut self, f: usize, t: usize)
        requires
            old(self)@ matches StackModel::Live(s) ==> f < s.len() && t < s.len(),
        ensures
            match old(self)@ {
                StackModel::Live(s) => final(self)@ == StackModel::Live(
                    s.remove(f as int).insert(t as int, s[f as int]),
                ),
                StackModel::Failed => final(self)@ is Failed,
            },
    {
        match self {
            StackState::LiveStack(v) => match v.remove(f) {
                Some(a) => {
                    v.insert(t, a);
                },
                None => {
                    assert(false);
                },
            },
            StackState::FailedStack => {},
        }
    }

    /// Replace the element at depth `i`; a no-op on a failed stack.
    pub fn replace_index(&mut self, i: usize, t: MType<T>)
        requires
            old(self)@ matches StackModel::Live(s) ==> i < s.len(),
        ensures
            match old(self)@ {
                StackModel::Live(s) => final(self)@ == StackModel::Live(s.update(i as int, t)),
                StackModel::Failed => final(self)@ is Failed,
            },
    {
        match self {
            StackState::LiveStack(v) => {
                v.remove(i);
                v.insert(i, t);
                assert(v@ =~= old(self)@->Live_0.update(i as int, t));
            },
            StackState::FailedStack => {},
        }
    }

    /// Append the contents of `src` below this stack, draining `src`; a no-op
    /// unless both stacks are live.
    pub fn append_stack(&mut self, src: &mut Self)
        ensures
            match (old(self)@, old(src)@) {
                (StackModel::Live(a), StackModel::Live(b)) => final(self)@ == StackModel::Live(
                    a.add(b),
                ) && final(src)@ == StackModel::Live(Seq::<MType<T>>::empty()),
                _ => final(self)@ == old(self)@ && final(src)@ == old(src)@,
            },
    {
        match self {
            StackState::LiveStack(v) => match src {
                StackState::LiveStack(v1) => {
                    v.append(v1);
                    assert(v1@ =~= Seq::<MType<T>>::empty());
                },
                StackState::FailedStack => {},
            },
            StackState::FailedStack => {},
        }
    }

    /// A copy of the stack without its top element (of the empty stack: the
    /// empty stack); failed stays failed.
    pub fn clone_tail(&self) -> (r: Self)
        ensures
            match self@ {
                StackModel::Live(s) => r@ == StackModel::Live(
                    if s.len() == 0 {
                        s
                    } else {
                        s.drop_first()
                    },
                ),
                StackModel::Failed => r@ is Failed,
            },
    {
        match self {
            StackState::LiveStack(v) => {
                let mut d: VecDeque<MType<T>> = VecDeque::new();
                let mut i: usize = 1;
                if v.len() == 0 {
                    assert(v@ =~= d@);
                    return StackState::LiveStack(d);
                }
                while i < v.len()
                    invariant
                        1 <= i <= v.len(),
                        d@ == v@.subrange(1, i as int),
                    decreases v.len() - i,
                {
                    d.push_back(mt_clone(&v[i]));
                    assert(d@ =~= v@.subrange(1, i + 1 as int));
                    i = i + 1;
                }
                assert(d@ =~= v@.drop_first());
                StackState::LiveStack(d)
            },
            StackState::FailedStack => StackState::FailedStack,
        }
    }

    /// A copy of the stack without its top `l` elements.
    pub fn clone_tail_at(&self, l: usize) -> (r: Self)
        requires
            self@ matches StackModel::Live(s) ==> l <= s.len(),
        ensures
            match self@ {
                StackModel::Live(s) => r@ == StackModel::Live(s.skip(l as int)),
                StackModel::Failed => r@ is Failed,
            },
    {
        match self {
            StackState::LiveStack(v) => {
                let mut d: VecDeque<MType<T>> = VecDeque::new();
                let mut i: usize = l;
                while i < v.len()
                    invariant
                        l <= i <= v.len(),
                        d@ == v@.subrange(l as int, i as int),
                    decreases v.len() - i,
                {
                    d.push_back(mt_clone(&v[i]));
                    assert(d@ =~= v@.subrange(l as int, i + 1 as int));
                    i = i + 1;
                }
                assert(d@ =~= v@.skip(l as int));
                StackState::LiveStack(d)
            },
            StackState::FailedStack => StackState::FailedStack,
        }
    }

    /// A copy of the top `l` elements of the stack.
    pub fn clone_head_till(&self, l: usize) -> (r: Self)
        requires
            self@ matches StackModel::Live(s) ==> l <= s.len(),
        ensures
            match self@ {
                StackModel::Live(s) => r@ == StackModel::Live(s.take(l as int)),
                StackModel::Failed => r@ is Failed,
            },
    {
        match self {
            StackState::LiveStack(v) => {
                let mut d: VecDeque<MType<T>> = VecDeque::new();
                let mut i: usize = 0;
                while i < l
                    invariant
                        0 <= i <= l,
                        l <= v@.len(),
                        d@ == v@.subrange(0, i as int),
                    decreases l - i,
                {
                    d.push_back(mt_clone(&v[i]));
                    assert(d@ =~= v@.subrange(0, i + 1 as int));
                    i = i + 1;
                }
                assert(d@ =~= v@.take(l as int));
                StackState::LiveStack(d)
            },
            StackState::FailedStack => StackState::FailedStack,
        }
    }
}

impl StackState<MAtomic> {
    /// Reconcile this stack with another branch outcome: equal live stacks
    /// match, a failed side defers to the other, and two different live
    /// stacks do not match.
    pub fn compare(&self, s: &Self) -> (r: StackCompResult)
        ensures
            match (self@, s@) {
                (StackModel::Failed, StackModel::Failed) => r is BothFailed,
                (StackModel::Failed, StackModel::Live(_)) => r is LeftFailed,
                (StackModel::Live(_), StackModel::Failed) => r is RightFailed,
                (StackModel::Live(a), StackModel::Live(b)) => if a == b {
                    r is Match
                } else {
                    r is NoMatch
                },
            },
    {
        match self {
            StackState::FailedStack => match s {
                StackState::FailedStack => StackCompResult::BothFailed,
                StackState::LiveStack(_) => StackCompResult::LeftFailed,
            },
            StackState::LiveStack(v) => match s {
                StackState::LiveStack(w) => {
                    if v.len() != w.len() {
                        proof {
                            assert(v@.len() != w@.len());
                        }
                        StackCompResult::NoMatch
                    } else {
                        let mut i: usize = 0;
                        while i < v.len()
                            invariant
                                i <= v.len(),
                                v.len() == w.len(),
                                self@ matches StackModel::Live(a) && a == v@,
                                s@ matches StackModel::Live(b) && b == w@,
                                forall|j: int| 0 <= j < i ==> v@[j] == w@[j],
                            decreases v.len() - i,
                        {
                            if !mt_eq(&v[i], &w[i]) {
                                return StackCompResult::NoMatch;
                            }
                            i = i + 1;
                        }
                        proof {
                            assert(v@ =~= w@);
                        }
                        StackCompResult::Match
                    }
                },
                StackState::FailedStack => StackCompResult::RightFailed,
            },
        }
    }

    /// Whether the stack holds exactly the one given type; a failed stack
    /// passes (any shape is consistent with divergence).
    pub fn compare_singleton(&self, s: &ConcreteType) -> (r: bool)
        ensures
            r == (match self@ {
                StackModel::Live(v) => v == seq![*s],
                StackModel::Failed => true,
            }),
    {
        match self {
            StackState::FailedStack => true,
            StackState::LiveStack(v) => {
                if v.len() == 1 {
                    let e = mt_eq(&v[0], s);
                    proof {
                        if v@[0] == *s {
                            assert(v@ =~= seq![*s]);
                        } else {
                            assert(v@ != seq![*s]);
                        }
                    }
                    e
                } else {
                    proof {
                        assert(v@.len() != seq![*s].len());
                        assert(v@ != seq![*s]);
                    }
                    false
                }
            },
        }
    }
}

} // verus!

verus! {

impl SeqItem {
    /// The number of items in the sequence literal.
    pub fn len(&self) -> (r: usize)
        ensures
            r == (match self {
                SeqItem::SqValue(s) => s@.len(),
                SeqItem::SqInstr(s) => s@.len(),
            }),
    {
        match self {
            SeqItem::SqValue(s) => s.len(),
            SeqItem::SqInstr(s) => s.len(),
        }
    }
}

impl<T: Copy> StackState<T> {
    /// A copy of the whole stack.
    pub fn clone_state(&self) -> (r: Self)
        ensures
            r@ == self@,
    {
        match self {
            StackState::LiveStack(v) => {
                let mut d: VecDeque<MType<T>> = VecDeque::new();
                let mut i: usize = 0;
                while i < v.len()
                    invariant
                        i <= v.len(),
                        d@ == v@.subrange(0, i as int),
                    decreases v.len() - i,
                {
                    d.push_back(mt_clone(&v[i]));
                    assert(d@ =~= v@.subrange(0, i + 1 as int));
                    i = i + 1;
                }
                assert(d@ =~= v@);
                StackState::LiveStack(d)
            },
            StackState::FailedStack => StackState::FailedStack,
        }
    }
}

// Sizes of the abstract syntax trees, the measure that recursion over a
// parsed program decreases.
/// Size of a literal value.
pub open spec fn sv_size(v: SomeValue) -> nat
    decreases v,
{
    match v {
        SomeValue::Atomic(_) => 1,
        SomeValue::Composite(b) => 1 + cv_size(*b),
    }
}

/// Size of a compound literal value.
pub open spec fn cv_size(c: CompositeValue) -> nat
    decreases c,
{
    match c {
        CompositeValue::CVPair(a, b) => 1 + sv_size(a) + sv_size(b),
        CompositeValue::CVSeq(q) => 1 + sq_size(q),
        CompositeValue::CKVList(v) => 1 + kvs_size(v@),
        CompositeValue::CVLeft(a) => 1 + sv_size(a),
        CompositeValue::CVRight(a) => 1 + sv_size(a),
        CompositeValue::CVSome(a) => 1 + sv_size(a),
        CompositeValue::CVNone => 1,
    }
}

/// Size of a sequence literal.
pub open spec fn sq_size(q: SeqItem) -> nat
    decreases q,
{
    match q {
        SeqItem::SqValue(v) => 1 + svs_size(v@),
        SeqItem::SqInstr(v) => 1 + cis_size(v@),
    }
}

/// Size of a list of literal values.
pub open spec fn svs_size(s: Seq<SomeValue>) -> nat
    decreases s,
{
    if s.len() == 0 {
        0
    } else {
        1 + sv_size(s[0]) + svs_size(s.drop_first())
    }
}

/// Size of a list of key/value literal pairs.
pub open spec fn kvs_size(s: Seq<(SomeValue, SomeValue)>) -> nat
    decreases s,
{
    if s.len() == 0 {
        0
    } else {
        1 + sv_size(s[0].0) + sv_size(s[0].1) + kvs_size(s.drop_first())
    }
}

/// Size of an instruction argument.
pub open spec fn argv_size(a: ArgValue<SomeValue>) -> nat
    decreases a,
{
    match a {
        ArgValue::TypeArg(_) => 1,
        ArgValue::ValueArg(v) => 1 + sv_size(v),
    }
}

/// Size of an argument list.
pub open spec fn argvs_size(s: Seq<ArgValue<SomeValue>>) -> nat
    decreases s,
{
    if s.len() == 0 {
        0
    } else {
        1 + argv_size(s[0]) + argvs_size(s.drop_first())
    }
}

/// Size of one instruction tree.
pub open spec fn ci_size(ci: CompoundInstruction<SomeValue>) -> nat
    decreases ci,
{
    match ci {
        CompoundInstruction::IF(a, b) => 1 + cis_size(a@) + cis_size(b@),
        CompoundInstruction::IF_CONS(a, b) => 1 + cis_size(a@) + cis_size(b@),
        CompoundInstruction::IF_SOME(a, b) => 1 + cis_size(a@) + cis_size(b@),
        CompoundInstruction::IF_NONE(a, b) => 1 + cis_size(a@) + cis_size(b@),
        CompoundInstruction::IF_LEFT(a, b) => 1 + cis_size(a@) + cis_size(b@),
        CompoundInstruction::DIP(_, a) => 1 + cis_size(a@),
        CompoundInstruction::MAP(a) => 1 + cis_size(a@),
        CompoundInstruction::ITER(a) => 1 + cis_size(a@),
        CompoundInstruction::LOOP(a) => 1 + cis_size(a@),
        CompoundInstruction::LOOP_LEFT(a) => 1 + cis_size(a@),
        CompoundInstruction::LAMBDA_REC(_, _, a) => 1 + cis_size(a@),
        CompoundInstruction::Other(i) => 1 + argvs_size(i.args@),
        _ => 1,
    }
}

/// Size of an instruction list.
pub open spec fn cis_size(s: Seq<CompoundInstruction<SomeValue>>) -> nat
    decreases s,
{
    if s.len() == 0 {
        0
    } else {
        1 + ci_size(s[0]) + cis_size(s.drop_first())
    }
}

/// Every member of an instruction list is smaller than the list.
pub proof fn lemma_cis_size_index(s: Seq<CompoundInstruction<SomeValue>>, i: int)
    requires
        0 <= i < s.len(),
    ensures
        ci_size(s[i]) < cis_size(s),
    decreases s.len(),
{
    if i == 0 {
    } else {
        lemma_cis_size_index(s.drop_first(), i - 1);
    }
}

/// Every member of an argument list is smaller than the list.
pub proof fn lemma_argvs_size_index(s: Seq<ArgValue<SomeValue>>, i: int)
    requires
        0 <= i < s.len(),
    ensures
        argv_size(s[i]) < argvs_size(s),
    decreases s.len(),
{
    if i == 0 {
    } else {
        lemma_argvs_size_index(s.drop_first(), i - 1);
    }
}

/// Every member of a value list is smaller than the list.
pub proof fn lemma_svs_size_index(s: Seq<SomeValue>, i: int)
    requires
        0 <= i < s.len(),
    ensures
        sv_size(s[i]) < svs_size(s),
    decreases s.len(),
{
    if i == 0 {
    } else {
        lemma_svs_size_index(s.drop_first(), i - 1);
    }
}

/// Every key and value of a key/value list is smaller than the list.
pub proof fn lemma_kvs_size_index(s: Seq<(SomeValue, SomeValue)>, i: int)
    requires
        0 <= i < s.len(),
    ensures
        sv_size(s[i].0) < kvs_size(s),
        sv_size(s[i].1) < kvs_size(s),
    decreases s.len(),
{
    if i == 0 {
    } else {
        lemma_kvs_size_index(s.drop_first(), i - 1);
    }
}

// What `GET n`, `UPDATE n`, `PAIR n` and `UNPAIR n` mean on right-nested
// pair chains.
/// The slice of a right-nested pair chain that index `n` addresses: index 0
/// is the whole value, odd `2k+1` the left component after `k` descents to
/// the right, even `2k` the remaining chain after `k` descents.
pub open spec fn sp_get_n<T>(n: nat, t: MType<T>) -> Option<MType<T>>
    decreases n,
{
    if n == 0 {
        Some(t)
    } else if n == 1 {
        match t {
            MType::MPair(b) => Some(b.0),
            _ => None,
        }
    } else {
        match t {
            MType::MPair(b) => sp_get_n((n - 2) as nat, b.1),
            _ => None,
        }
    }
}

/// The pair chain `t` with the slice that index `n` addresses replaced by
/// `src`.
pub open spec fn sp_update_n<T>(n: nat, src: MType<T>, t: MType<T>) -> Option<MType<T>>
    decreases n,
{
    if n == 0 {
        Some(src)
    } else if n == 1 {
        match t {
            MType::MPair(b) => Some(MType::MPair(Box::new((src, b.1)))),
            _ => None,
        }
    } else {
        match t {
            MType::MPair(b) => match sp_update_n((n - 2) as nat, src, b.1) {
                Some(u) => Some(MType::MPair(Box::new((b.0, u)))),
                None => None,
            },
            _ => None,
        }
    }
}

/// The right-nested pair of the top `n` elements of `s`.
pub open spec fn sp_mk_pair<T>(s: Seq<MType<T>>, n: nat) -> MType<T>
    recommends
        2 <= n <= s.len(),
    decreases n,
{
    if n <= 2 {
        MType::MPair(Box::new((s[0], s[1])))
    } else {
        MType::MPair(Box::new((s[0], sp_mk_pair(s.drop_first(), (n - 1) as nat))))
    }
}

/// The first `n` components of a right-nested pair chain, in source order:
/// the last entry is the remaining chain.
pub open spec fn sp_unpair_list<T>(t: MType<T>, n: nat) -> Option<Seq<MType<T>>>
    recommends
        n >= 1,
    decreases n,
{
    if n <= 1 {
        Some(seq![t])
    } else {
        match t {
            MType::MPair(b) => match sp_unpair_list(b.1, (n - 1) as nat) {
                Some(l) => Some(seq![b.0].add(l)),
                None => None,
            },
            _ => None,
        }
    }
}

/// The slice of a right-nested pair chain addressed by `n` (see
/// [`sp_get_n`]); an error where the chain is too shallow.
pub fn get_n_pair<'a, T: Copy>(n: &usize, t: &'a MType<T>) -> (r: Result<&'a MType<T>, String>)
    ensures
        match r {
            Result::Ok(x) => sp_get_n(*n as nat, *t) == Some(*x),
            Result::Err(_) => sp_get_n(*n as nat, *t) is None,
        },
    decreases *n,
{
    if *n == 0 {
        Result::Ok(t)
    } else if *n == 1 {
        match t {
            MType::MPair(b) => Result::Ok(&b.0),
            _ => Result::Err(
                String::from_str("Expected a Pair but got something else during GET n typecheck"),
            ),
        }
    } else {
        match t {
            MType::MPair(b) => {
                let m: usize = *n - 2;
                get_n_pair(&m, &b.1)
            },
            _ => Result::Err(
                String::from_str("Expected a Pair but got something else during GET n typecheck"),
            ),
        }
    }
}

/// Replace the slice of the pair chain `t` addressed by `n` with `src` (see
/// [`sp_update_n`]); an error where the chain is too shallow.
pub fn update_n_pair<T: Copy>(n: &usize, src: &MType<T>, t: &mut MType<T>) -> (r: Result<
    (),
    String,
>)
    ensures
        match r {
            Result::Ok(_) => sp_update_n(*n as nat, *src, *old(t)) == Some(*final(t)),
            Result::Err(_) => sp_update_n(*n as nat, *src, *old(t)) is None && *final(t) == *old(t),
        },
{
    match upd_n_pair(n, src, t) {
        Result::Ok(u) => {
            *t = u;
            Result::Ok(())
        },
        Result::Err(e) => Result::Err(e),
    }
}

fn upd_n_pair<T: Copy>(n: &usize, src: &MType<T>, t: &MType<T>) -> (r: Result<MType<T>, String>)
    ensures
        match r {
            Result::Ok(u) => sp_update_n(*n as nat, *src, *t) == Some(u),
            Result::Err(_) => sp_update_n(*n as nat, *src, *t) is None,
        },
    decreases *n,
{
    if *n == 0 {
        Result::Ok(mt_clone(src))
    } else if *n == 1 {
        match t {
            MType::MPair(b) => Result::Ok(
                MType::MPair(Box::new((mt_clone(src), mt_clone(&b.1)))),
            ),
            _ => Result::Err(String::from_str("Expected a Pair but got something else")),
        }
    } else {
        match t {
            MType::MPair(b) => {
                let m: usize = *n - 2;
                match upd_n_pair(&m, src, &b.1) {
                    Result::Ok(u) => Result::Ok(MType::MPair(Box::new((mt_clone(&b.0), u)))),
                    Result::Err(e) => Result::Err(e),
                }
            },
            _ => Result::Err(String::from_str("Expected a Pair but got something else")),
        }
    }
}

/// Fold the top `n` elements of the stack into a right-nested pair (see
/// [`sp_mk_pair`]); an error where the stack is too short, the sentinel where
/// it has failed.
pub fn mk_pair<T: Copy>(tl: &mut StackState<T>, n: usize) -> (r: StackDerived<Result<
    MType<T>,
    String,
>>)
    requires
        n >= 2,
    ensures
        match old(tl)@ {
            StackModel::Live(s) => r matches StackDerived::SdOk(q) && (match q {
                Result::Ok(p) => s.len() >= n && p == sp_mk_pair(s, n as nat) && final(tl)@
                    == StackModel::Live(s.skip(n as int)),
                Result::Err(_) => s.len() < n && final(tl)@ == old(tl)@,
            }),
            StackModel::Failed => r is SdFailed && final(tl)@ is Failed,
        },
    decreases n,
{
    match tl.ensure_stack_atleast(n) {
        StackDerived::SdFailed => {
            return StackDerived::SdFailed;
        },
        StackDerived::SdOk(b) => {
            if !b {
                return StackDerived::SdOk(
                    Result::Err(String::from_str("Stack too short for PAIR")),
                );
            }
        },
    }
    if n == 2 {
        let i1 = match tl.pop_front() {
            StackDerived::SdOk(Result::Ok(a)) => a,
            _ => {
                return StackDerived::SdFailed;
            },
        };
        let i2 = match tl.pop_front() {
            StackDerived::SdOk(Result::Ok(a)) => a,
            _ => {
                return StackDerived::SdFailed;
            },
        };
        proof {
            assert(old(tl)@->Live_0.drop_first().drop_first() =~= old(tl)@->Live_0.skip(2));
        }
        StackDerived::SdOk(Result::Ok(MType::MPair(Box::new((i1, i2)))))
    } else {
        let i1 = match tl.pop_front() {
            StackDerived::SdOk(Result::Ok(a)) => a,
            _ => {
                return StackDerived::SdFailed;
            },
        };
        match mk_pair(tl, n - 1) {
            StackDerived::SdOk(Result::Ok(l2)) => {
                proof {
                    assert(old(tl)@->Live_0.drop_first().skip(n - 1) =~= old(tl)@->Live_0.skip(
                        n as int,
                    ));
                }
                StackDerived::SdOk(Result::Ok(MType::MPair(Box::new((i1, l2)))))
            },
            _ => StackDerived::SdFailed,
        }
    }
}

/// Unfold the first `n` components of the pair chain `t` onto the stack in
/// source order (see [`sp_unpair_list`]); an error where the chain is too
/// shallow, and then the stack is unchanged.
pub fn unmk_pair<T: Copy>(t: &MType<T>, n: usize, stack: &mut StackState<T>) -> (r: Result<
    (),
    String,
>)
    requires
        n >= 1,
    ensures
        match r {
            Result::Ok(_) => sp_unpair_list(*t, n as nat) matches Some(l) && (match old(stack)@ {
                StackModel::Live(s) => final(stack)@ == StackModel::Live(l.add(s)),
                StackModel::Failed => final(stack)@ is Failed,
            }),
            Result::Err(_) => sp_unpair_list(*t, n as nat) is None && *final(stack) == *old(stack),
        },
    decreases n,
{
    if n == 1 {
        stack.push(mt_clone(t));
        proof {
            if old(stack)@ is Live {
                assert(seq![*t].add(old(stack)@->Live_0) =~= sp_unpair_list(
                    *t,
                    n as nat,
                ).unwrap().add(old(stack)@->Live_0));
            }
        }
        Result::Ok(())
    } else {
        match t {
            MType::MPair(b) => {
                let r = unmk_pair(&b.1, n - 1, stack);
                match r {
                    Result::Ok(_) => {
                        stack.push(mt_clone(&b.0));
                        proof {
                            if old(stack)@ is Live {
                                let l1 = sp_unpair_list(b.1, (n - 1) as nat).unwrap();
                                let s0 = old(stack)@->Live_0;
                                assert(seq![b.0].add(l1.add(s0)) =~= seq![b.0].add(l1).add(s0));
                            }
                        }
                        Result::Ok(())
                    },
                    Result::Err(e) => Result::Err(e),
                }
            },
            _ => Result::Err(
                String::from_str("Expecting a pair for UNPAIR but got something else"),
            ),
        }
    }
}

} // verus!
