//! The handle by which an entry is found again.

use slotmap::{DefaultKey, Key, KeyData, SlotMap};
use vstd::prelude::*;

verus! {

/// A small handle that names one entry of a cache. It stays valid while the
/// cache grows and shrinks, and stops naming anything once its entry is
/// evicted.
#[derive(Clone, Copy, Debug, PartialEq, Eq, Hash, Structural)]
pub struct CacheSlot {
    id: u64,
}

impl CacheSlot {
    /// The number that stands for this slot.
    pub closed spec fn id(self) -> u64 {
        self.id
    }

    /// The number that stands for this slot.
    pub fn as_id(&self) -> (id: u64)
        ensures
            id == self.id(),
    {
        self.id
    }

    /// Two slots with the same number are the same slot.
    pub proof fn lemma_id_injective(a: CacheSlot, b: CacheSlot)
        requires
            a.id() == b.id(),
        ensures
            a == b,
    {
    }
}

/// The allocator of slots: a `slotmap::SlotMap` that holds no values, only
/// its generational keys.
#[verifier::external_body]
pub struct SlotIds {
    inner: SlotMap<DefaultKey, ()>,
}

/// The most slots that can be live at once.
pub const MAX_SLOTS: usize = 0xffff_fffe;

/// The slots that are live in `ids`, each as the number that stands for it.
pub uninterp spec fn live_slots(ids: SlotIds) -> Set<u64>;

/// An allocator of slots in which none is live.
///
/// Calls `SlotMap::new`, which makes an empty map.
#[verifier::external_body]
pub(crate) fn slots_new() -> (ids: SlotIds)
    ensures
        live_slots(ids) == Set::<u64>::empty(),
{
    SlotIds { inner: SlotMap::new() }
}

/// How many slots are live.
///
/// Calls `SlotMap::len`, which counts the elements of the map.
#[verifier::external_body]
pub(crate) fn slots_len(ids: &SlotIds) -> (len: usize)
    requires
        live_slots(*ids).finite(),
    ensures
        len == live_slots(*ids).len(),
{
    ids.inner.len()
}

/// Makes one more slot live and returns it.
///
/// Calls `SlotMap::insert`, which panics when the map is full and otherwise
/// returns a key that the map did not hold before and holds afterwards,
/// leaving the other keys as they were. The key is handed out as the number
/// that `KeyData::as_ffi` gives for it.
#[verifier::external_body]
pub(crate) fn slots_insert(ids: &mut SlotIds) -> (slot: CacheSlot)
    requires
        live_slots(*old(ids)).finite(),
        live_slots(*old(ids)).len() < MAX_SLOTS,
    ensures
        !live_slots(*old(ids)).contains(slot.id()),
        live_slots(*final(ids)) == live_slots(*old(ids)).insert(slot.id()),
{
    CacheSlot { id: ids.inner.insert(()).data().as_ffi() }
}

/// Ends the life of the live slot `slot`.
///
/// Calls `SlotMap::remove` with the key that `KeyData::from_ffi` gives for
/// the slot's number, which for a number that `as_ffi` gave is the key it
/// was given for. The map no longer holds that key afterwards and holds the
/// other keys as before.
#[verifier::external_body]
pub(crate) fn slots_remove(ids: &mut SlotIds, slot: CacheSlot)
    requires
        live_slots(*old(ids)).contains(slot.id()),
    ensures
        live_slots(*final(ids)) == live_slots(*old(ids)).remove(slot.id()),
{
    let _ = ids.inner.remove(DefaultKey::from(KeyData::from_ffi(slot.id)));
}

/// The live slots, each once, in no particular order.
///
/// Calls `SlotMap::keys`, which visits every key of the map once, and hands
/// each out as the number that `KeyData::as_ffi` gives for it.
#[verifier::external_body]
pub(crate) fn slots_keys(ids: &SlotIds) -> (slots: Vec<CacheSlot>)
    ensures
        slots@.no_duplicates(),
        forall|id: u64|
            live_slots(*ids).contains(id) <==> exists|i: int|
                0 <= i < slots@.len() && #[trigger] slots@[i].id() == id,
{
    ids.inner.keys().map(|key| CacheSlot { id: key.data().as_ffi() }).collect()
}

} // verus!
