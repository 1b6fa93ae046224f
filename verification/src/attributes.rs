//! The attribute checker: which of the seven attributes a ground type
//! satisfies.

use crate::types::Attribute;
use crate::types::AttrSet;
use crate::types::ConcreteType;
use crate::types::MType;
use vstd::prelude::*;

verus! {

/// The attribute table.  Atomic types satisfy everything; `pair` and `or`
/// ask both components, `option` its payload; `list`, `set` and `map` are
/// never comparable and otherwise ask the element (for a map, the value);
/// `big_map` only passes, stores and duplicates as its value does;
/// `contract` only passes, packs and duplicates; `ticket` only stores,
/// packs and is a legal big-map value; `lambda` satisfies everything but
/// comparability.
pub open spec fn spec_check_attribute(atr: Attribute, ct: ConcreteType) -> bool
    decreases ct,
{
    match ct {
        MType::MWrapped(_) => true,
        MType::MMap(b) => match atr {
            Attribute::Comparable => false,
            _ => spec_check_attribute(atr, b.1),
        },
        MType::MBigMap(b) => match atr {
            Attribute::Passable => spec_check_attribute(atr, b.1),
            Attribute::Storable => spec_check_attribute(atr, b.1),
            Attribute::Duplicable => spec_check_attribute(atr, b.1),
            _ => false,
        },
        MType::MPair(b) => spec_check_attribute(atr, b.0) && spec_check_attribute(atr, b.1),
        MType::MOr(b) => spec_check_attribute(atr, b.0) && spec_check_attribute(atr, b.1),
        MType::MTicket(_) => match atr {
            Attribute::Comparable => false,
            Attribute::Duplicable => false,
            Attribute::Pushable => false,
            Attribute::Passable => false,
            _ => true,
        },
        MType::MList(b) => match atr {
            Attribute::Comparable => false,
            _ => spec_check_attribute(atr, *b),
        },
        MType::MSet(b) => match atr {
            Attribute::Comparable => false,
            _ => spec_check_attribute(atr, *b),
        },
        MType::MOption(b) => spec_check_attribute(atr, *b),
        MType::MContract(_) => match atr {
            Attribute::Comparable => false,
            Attribute::Storable => false,
            Attribute::Pushable => false,
            Attribute::BigmapValue => false,
            _ => true,
        },
        MType::MLambda(_) => match atr {
            Attribute::Comparable => false,
            _ => true,
        },
    }
}

/// Whether `ct` satisfies every attribute in the set.
pub open spec fn spec_check_attr_set(s: AttrSet, ct: ConcreteType) -> bool {
    forall|a: Attribute| s.spec_has(a) ==> spec_check_attribute(a, ct)
}

/// Whether the ground type `ct` satisfies the attribute `atr`, by the table
/// of [`spec_check_attribute`].
pub fn check_attribute(atr: &Attribute, ct: &ConcreteType) -> (r: bool)
    ensures
        r == spec_check_attribute(*atr, *ct),
    decreases ct,
{
    match ct {
        MType::MWrapped(_) => true,
        MType::MMap(b) => match atr {
            Attribute::Comparable => false,
            _ => check_attribute(atr, &b.1),
        },
        MType::MBigMap(b) => match atr {
            Attribute::Passable => check_attribute(atr, &b.1),
            Attribute::Storable => check_attribute(atr, &b.1),
            Attribute::Duplicable => check_attribute(atr, &b.1),
            _ => false,
        },
        MType::MPair(b) => check_attribute(atr, &b.0) && check_attribute(atr, &b.1),
        MType::MOr(b) => check_attribute(atr, &b.0) && check_attribute(atr, &b.1),
        MType::MTicket(_) => match atr {
            Attribute::Comparable => false,
            Attribute::Duplicable => false,
            Attribute::Pushable => false,
            Attribute::Passable => false,
            _ => true,
        },
        MType::MList(b) => match atr {
            Attribute::Comparable => false,
            _ => check_attribute(atr, b),
        },
        MType::MSet(b) => match atr {
            Attribute::Comparable => false,
            _ => check_attribute(atr, b),
        },
        MType::MOption(b) => check_attribute(atr, b),
        MType::MContract(_) => match atr {
            Attribute::Comparable => false,
            Attribute::Storable => false,
            Attribute::Pushable => false,
            Attribute::BigmapValue => false,
            _ => true,
        },
        MType::MLambda(_) => match atr {
            Attribute::Comparable => false,
            _ => true,
        },
    }
}

/// Whether `ct` satisfies every attribute in the slice.
pub fn check_attributes(atrs: &[Attribute], ct: &ConcreteType) -> (r: bool)
    ensures
        r == (forall|i: int| 0 <= i < atrs@.len() ==> spec_check_attribute(atrs@[i], *ct)),
{
    let mut k: usize = 0;
    while k < atrs.len()
        invariant
            k <= atrs@.len(),
            forall|i: int| 0 <= i < k ==> spec_check_attribute(atrs@[i], *ct),
        decreases atrs@.len() - k,
    {
        if !check_attribute(&atrs[k], ct) {
            return false;
        }
        k = k + 1;
    }
    true
}

/// Whether `ct` satisfies every attribute in the set, as the unifier asks it
/// of a freshly bound type variable.
pub fn check_attr_set(s: &AttrSet, ct: &ConcreteType) -> (r: bool)
    ensures
        r == spec_check_attr_set(*s, *ct),
{
    let r = (!s.comparable || check_attribute(&Attribute::Comparable, ct)) && (!s.passable
        || check_attribute(&Attribute::Passable, ct)) && (!s.pushable || check_attribute(
        &Attribute::Pushable,
        ct,
    )) && (!s.storable || check_attribute(&Attribute::Storable, ct)) && (!s.packable
        || check_attribute(&Attribute::Packable, ct)) && (!s.bigmap_value || check_attribute(
        &Attribute::BigmapValue,
        ct,
    )) && (!s.duplicable || check_attribute(&Attribute::Duplicable, ct));
    proof {
        if r {
            assert forall|a: Attribute| s.spec_has(a) implies spec_check_attribute(a, *ct) by {
                match a {
                    Attribute::Comparable => {},
                    Attribute::Passable => {},
                    Attribute::Pushable => {},
                    Attribute::Storable => {},
                    Attribute::Packable => {},
                    Attribute::BigmapValue => {},
                    Attribute::Duplicable => {},
                }
            }
        } else {
            if s.comparable && !spec_check_attribute(Attribute::Comparable, *ct) {
                assert(s.spec_has(Attribute::Comparable));
            } else if s.passable && !spec_check_attribute(Attribute::Passable, *ct) {
                assert(s.spec_has(Attribute::Passable));
            } else if s.pushable && !spec_check_attribute(Attribute::Pushable, *ct) {
                assert(s.spec_has(Attribute::Pushable));
            } else if s.storable && !spec_check_attribute(Attribute::Storable, *ct) {
                assert(s.spec_has(Attribute::Storable));
            } else if s.packable && !spec_check_attribute(Attribute::Packable, *ct) {
                assert(s.spec_has(Attribute::Packable));
            } else if s.bigmap_value && !spec_check_attribute(Attribute::BigmapValue, *ct) {
                assert(s.spec_has(Attribute::BigmapValue));
            } else {
                assert(s.spec_has(Attribute::Duplicable));
            }
        }
    }
    r
}

} // verus!
