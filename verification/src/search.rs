//! Facts about the first place at which a sequence holds a value.
//!
//! The fixed buffers of this crate are searched from the front, so their
//! contracts speak of `Seq::index_of_first`. The two lemmas below say when
//! that function gives an index and when it gives none.

use vstd::prelude::*;

verus! {

/// `i` is the first index of `v` in `s` when `s` holds `v` at `i` and nowhere
/// before `i`.
pub proof fn lemma_first_index<T>(s: Seq<T>, v: T, i: int)
    requires
        0 <= i < s.len(),
        s[i] == v,
        forall|j: int| 0 <= j < i ==> s[j] != v,
    ensures
        s.index_of_first(v) == Some(i),
        s.contains(v),
{
    assert(s.contains(v));
    s.index_of_first_ensures(v);
}

/// `v` has no first index in `s` when `s` holds it nowhere.
pub proof fn lemma_no_index<T>(s: Seq<T>, v: T)
    requires
        forall|j: int| 0 <= j < s.len() ==> s[j] != v,
    ensures
        s.index_of_first(v) == None::<int>,
        !s.contains(v),
{
    s.index_of_first_ensures(v);
}

/// What `index_of_first` says of its result, as one statement with a trigger
/// on the sequence's elements.
pub proof fn lemma_index_of_first<T>(s: Seq<T>, v: T)
    ensures
        match s.index_of_first(v) {
            Some(i) => 0 <= i < s.len() && s[i] == v && forall|j: int|
                0 <= j < i ==> #[trigger] s[j] != v,
            None => forall|j: int| 0 <= j < s.len() ==> #[trigger] s[j] != v,
        },
        s.index_of_first(v) is Some <==> s.contains(v),
{
    s.index_of_first_ensures(v);
}

} // verus!
