//! What holds of every enumeration that implements [`ConstKey`].
//!
//! Each law speaks of the results of calls: `call_ensures(f, args, r)` reads
//! "`r` is a result that `f` may return on `args`".
use crate::ConstKey;
use vstd::prelude::*;

verus! {

/// The id of a variant is its declaration position: the variant declared at
/// position `id` is `key` itself.
pub proof fn lemma_id_is_declaration_position<T, K: ConstKey<T>>(key: K, id: usize)
    requires
        call_ensures(K::get_id, (key,), id),
    ensures
        id < K::variants().len(),
        K::variants()[id as int] == key,
{
    key.lemma_ordinal();
}

/// The variant declared at a position has that position as its id: the first
/// has 0, the second 1, and so on.
pub proof fn lemma_declaration_position_is_id<T, K: ConstKey<T>>(position: int, id: usize)
    requires
        0 <= position < K::variants().len(),
        call_ensures(K::get_id, (K::variants()[position],), id),
    ensures
        id == position,
{
    K::lemma_declaration();
    K::variants()[position].lemma_ordinal();
}

/// Two variants with the same id are the same variant.
pub proof fn lemma_ids_are_unique<T, K: ConstKey<T>>(a: K, b: K, id_a: usize, id_b: usize)
    requires
        call_ensures(K::get_id, (a,), id_a),
        call_ensures(K::get_id, (b,), id_b),
    ensures
        id_a == id_b <==> a == b,
{
    a.lemma_ordinal();
    b.lemma_ordinal();
}

/// `get` returns the element of the value list at the variant's id, and that id
/// is within the list.
pub proof fn lemma_get_indexes_value_list<T, K: ConstKey<T>>(
    key: K,
    list: &'static [T],
    id: usize,
    value: &'static T,
)
    requires
        call_ensures(K::value_list, (), list),
        call_ensures(K::get_id, (key,), id),
        call_ensures(K::get, (key,), value),
    ensures
        id < list@.len(),
        *value == list@[id as int],
{
}

/// Two calls of `value_list` return lists of the same length with the same
/// elements.
pub proof fn lemma_value_list_is_stable<T, K: ConstKey<T>>(
    first: &'static [T],
    second: &'static [T],
)
    requires
        call_ensures(K::value_list, (), first),
        call_ensures(K::value_list, (), second),
    ensures
        first@.len() == second@.len(),
        forall|i: int| 0 <= i < first@.len() ==> first@[i] == second@[i],
        first@ == second@,
{
}

/// Two calls of `get` on one variant return equal constants.
pub proof fn lemma_get_is_stable<T, K: ConstKey<T>>(
    key: K,
    first: &'static T,
    second: &'static T,
)
    requires
        call_ensures(K::get, (key,), first),
        call_ensures(K::get, (key,), second),
    ensures
        *first == *second,
{
}

/// The value list has one element per declared variant.
pub proof fn lemma_one_value_per_variant<T, K: ConstKey<T>>(list: &'static [T])
    requires
        call_ensures(K::value_list, (), list),
    ensures
        list@.len() == K::variants().len(),
{
}

/// The declared variants are all the values of the enumeration, each counted
/// once: the enumeration has as many values as the value list has elements.
pub proof fn lemma_variants_are_all_keys<T, K: ConstKey<T>>()
    ensures
        forall|key: K| K::variants().contains(key),
        K::variants().to_set() == Set::<K>::full(),
        Set::<K>::full().finite(),
        Set::<K>::full().len() == K::values().len(),
{
    K::lemma_declaration();
    assert forall|key: K| K::variants().contains(key) by {
        key.lemma_ordinal();
        assert(K::variants()[key.ordinal() as int] == key);
    }
    assert(K::variants().to_set() =~= Set::<K>::full());
    vstd::seq_lib::seq_to_set_is_finite(K::variants());
    K::variants().unique_seq_to_set();
}

/// An enumeration declares at least one variant, so its value list is never
/// empty.
pub proof fn lemma_at_least_one_variant<T, K: ConstKey<T>>()
    ensures
        K::variants().len() >= 1,
        K::values().len() >= 1,
{
    let key: K = arbitrary();
    K::lemma_declaration();
    key.lemma_ordinal();
}

} // verus!
