//! Slot keys: the deterministic lookup key under which an operation's
//! computation definition is stored.

use vstd::prelude::*;
use crate::catalog::{index_of, lemma_index_is_injective, name_of, OperationKind, OPERATION_COUNT};

verus! {

/// The key under which the definition of an operation is stored and by which
/// a result names the definition that it answers.
#[derive(Clone, Copy, Debug, PartialEq, Eq, Structural, Hash)]
pub struct SlotKey {
    pub offset: u32,
}

/// The 32-bit offset that `arcium_anchor::comp_def_offset` derives from an
/// instruction name (the first four bytes, little-endian, of the name's
/// SHA-256 digest).
pub uninterp spec fn comp_def_offset_of(name: Seq<char>) -> u32;

/// The slot key of an operation: the offset derived from its name.
pub open spec fn slot_key_of(kind: OperationKind) -> SlotKey {
    SlotKey { offset: comp_def_offset_of(name_of(kind)) }
}

/// Whether no two operations of the catalog share a slot key.
pub open spec fn collision_free() -> bool {
    forall|a: OperationKind, b: OperationKind|
        #[trigger] slot_key_of(a) == #[trigger] slot_key_of(b) ==> a == b
}

/// Calls `arcium_anchor::comp_def_offset`. Trusted: the result is a function of
/// the name's characters alone, so it is named by [`comp_def_offset_of`].
#[verifier::external_body]
fn comp_def_offset(name: &str) -> (offset: u32)
    ensures
        offset == comp_def_offset_of(name@),
{
    arcium_anchor::comp_def_offset(name)
}

impl SlotKey {
    /// The slot key of an operation.
    pub fn for_kind(kind: OperationKind) -> (key: SlotKey)
        ensures
            key == slot_key_of(kind),
    {
        SlotKey { offset: comp_def_offset(kind.name()) }
    }

    /// The slot key that belongs to an instruction name, whether or not the
    /// catalog has an operation of that name.
    pub fn for_name(name: &str) -> (key: SlotKey)
        ensures
            key.offset == comp_def_offset_of(name@),
    {
        SlotKey { offset: comp_def_offset(name) }
    }
}

/// Whether no two operations of the catalog share a slot key. The keys are
/// digests, so this is found out by deriving and comparing them.
pub fn catalog_is_collision_free() -> (free: bool)
    ensures
        free == collision_free(),
{
    proof {
        lemma_index_is_injective();
    }
    let mut i: u8 = 0;
    while i < OPERATION_COUNT
        invariant
            i <= OPERATION_COUNT,
            forall|a: OperationKind, b: OperationKind|
                index_of(b) < index_of(a) < i ==> #[trigger] slot_key_of(a)
                    != #[trigger] slot_key_of(b),
        decreases OPERATION_COUNT - i,
    {
        let later = OperationKind::from_index(i).unwrap();
        let later_key = SlotKey::for_kind(later);
        let mut j: u8 = 0;
        while j < i
            invariant
                j <= i < OPERATION_COUNT,
                index_of(later) == i,
                later_key == slot_key_of(later),
                forall|b: OperationKind|
                    index_of(b) < j ==> slot_key_of(later) != #[trigger] slot_key_of(b),
            decreases i - j,
        {
            let earlier = OperationKind::from_index(j).unwrap();
            if SlotKey::for_kind(earlier) == later_key {
                assert(slot_key_of(earlier) == slot_key_of(later) && earlier != later);
                return false;
            }
            j = j + 1;
        }
        i = i + 1;
    }
    assert forall|a: OperationKind, b: OperationKind| #[trigger]
        slot_key_of(a) == #[trigger] slot_key_of(b) implies a == b by {
        if index_of(a) < index_of(b) {
            assert(slot_key_of(b) != slot_key_of(a));
        } else if index_of(b) < index_of(a) {
            assert(slot_key_of(a) != slot_key_of(b));
        }
    }
    true
}

} // verus!
