//! The fixed-capacity lists that the key resolver keeps in `heapless::Vec`.
//!
//! Verus does not look inside `heapless::Vec`. Each list is therefore a struct
//! that hides the vector, a name for the items that the vector holds, and one
//! function for each operation of the vector that the resolver uses. The
//! contracts of these functions are taken from the source of `heapless` and are
//! not proved here.

use crate::config::MATRIX_KEYS_COMB_BUFFER;
use crate::keycodes::KC;
use crate::matrix::Key;
use vstd::prelude::*;

verus! {

/// The keys that a pass has found released, in the order in which it found
/// them.
#[verifier::external_body]
pub struct ReleasedKeys {
    inner: heapless::Vec<Key, MATRIX_KEYS_COMB_BUFFER>,
}

/// The keys that the list holds, the oldest first.
pub uninterp spec fn released_keys(list: ReleasedKeys) -> Seq<Key>;

/// `heapless::Vec::new`: the new vector is empty.
#[verifier::external_body]
pub(crate) fn released_new() -> (list: ReleasedKeys)
    ensures
        released_keys(list) == Seq::<Key>::empty(),
{
    ReleasedKeys { inner: heapless::Vec::new() }
}

/// `heapless::Vec::push`: a vector that holds fewer items than its capacity
/// takes the item at its end and the call gives `Ok`; a full vector stays as it
/// is and the call gives the item back.
#[verifier::external_body]
pub(crate) fn released_push(list: &mut ReleasedKeys, key: Key) -> (pushed: Result<(), Key>)
    ensures
        pushed is Ok <==> released_keys(*old(list)).len() < MATRIX_KEYS_COMB_BUFFER,
        pushed is Ok ==> released_keys(*final(list)) == released_keys(*old(list)).push(key),
        pushed is Err ==> pushed->Err_0 == key && released_keys(*final(list)) == released_keys(
            *old(list),
        ),
{
    list.inner.push(key)
}

/// `heapless::Vec::pop`: the call takes the last item off the vector and gives
/// it; on an empty vector it gives `None`.
#[verifier::external_body]
pub(crate) fn released_pop(list: &mut ReleasedKeys) -> (popped: Option<Key>)
    ensures
        released_keys(*old(list)).len() == 0 ==> popped == None::<Key> && released_keys(
            *final(list),
        ) == released_keys(*old(list)),
        released_keys(*old(list)).len() > 0 ==> popped == Some(released_keys(*old(list)).last())
            && released_keys(*final(list)) == released_keys(*old(list)).drop_last(),
{
    list.inner.pop()
}

/// The key codes of one side of a combo rule, in the order of the rule.
#[verifier::external_body]
pub struct ComboCodes {
    inner: heapless::Vec<KC, MATRIX_KEYS_COMB_BUFFER>,
}

/// The key codes that the list holds, in their order.
pub uninterp spec fn combo_codes(list: ComboCodes) -> Seq<KC>;

/// `heapless::Vec::from` on an array: the vector holds the items of the array
/// in their order.
#[verifier::external_body]
pub(crate) fn combo_from_pair(codes: [KC; 2]) -> (list: ComboCodes)
    ensures
        combo_codes(list) == codes@,
{
    ComboCodes { inner: heapless::Vec::from(codes) }
}

/// `len` of the slice that a `heapless::Vec` derefs to: the number of items
/// that the vector holds.
#[verifier::external_body]
pub(crate) fn combo_len(list: &ComboCodes) -> (n: usize)
    ensures
        n == combo_codes(*list).len(),
{
    list.inner.len()
}

/// Indexing of the slice that a `heapless::Vec` derefs to: the item at
/// `index`. An index past the last item would panic.
#[verifier::external_body]
pub(crate) fn combo_get(list: &ComboCodes, index: usize) -> (code: KC)
    requires
        index < combo_codes(*list).len(),
    ensures
        code == combo_codes(*list)[index as int],
{
    list.inner[index]
}

} // verus!
