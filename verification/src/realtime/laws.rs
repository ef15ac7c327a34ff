//! What applying changes keeps: the laws of `Change::apply`, stated over the
//! `applied` model that its contract uses.
use super::change::{self, Action, Record};
use vstd::prelude::*;

verus! {

/// No two items of `items` have the same key.
pub open spec fn unique_keys<T: Record>(items: Seq<T>) -> bool {
    forall|i: int, j: int|
        0 <= i < items.len() && 0 <= j < items.len() && i != j
            ==> #[trigger] items[i].record_key() != #[trigger] items[j].record_key()
}

/// Every item kept by `without_key` has another key, and every item of
/// another key is kept.
proof fn lemma_without_key_members<T: Record>(items: Seq<T>, key: Seq<char>)
    ensures
        forall|i: int| 0 <= i < change::without_key(items, key).len()
            ==> #[trigger] change::without_key(items, key)[i].record_key() != key,
        forall|i: int| 0 <= i < items.len() && items[i].record_key() != key
            ==> #[trigger] change::without_key(items, key).contains(items[i]),
{
    let keep = change::key_differs::<T>(key);
    assert forall|i: int| 0 <= i < change::without_key(items, key).len()
        implies #[trigger] change::without_key(items, key)[i].record_key() != key by {
        items.lemma_filter_pred(keep, i);
    }
    assert forall|i: int| 0 <= i < items.len() && items[i].record_key() != key
        implies #[trigger] change::without_key(items, key).contains(items[i]) by {
        items.lemma_filter_contains(keep, i);
    }
}

/// Dropping the items of a key from a sequence that has none of them leaves
/// it as it is.
proof fn lemma_without_absent_key<T: Record>(items: Seq<T>, key: Seq<char>)
    requires
        !change::has_key(items, key),
    ensures
        change::without_key(items, key) == items,
    decreases items.len(),
{
    reveal_with_fuel(Seq::<_>::filter, 1);
    if items.len() > 0 {
        let rest = items.drop_last();
        assert(!change::has_key(rest, key)) by {
            if change::has_key(rest, key) {
                let i = choose|i: int| 0 <= i < rest.len() && #[trigger] rest[i].record_key() == key;
                assert(items[i].record_key() == key);
            }
        }
        lemma_without_absent_key(rest, key);
        assert(items.last().record_key() != key) by {
            assert(items[items.len() - 1].record_key() != key);
        }
        assert(rest.push(items.last()) =~= items);
    }
}

/// Replacing an item of the key by another of the key does not change what
/// is left once the key is dropped.
proof fn lemma_without_key_update<T: Record>(items: Seq<T>, key: Seq<char>, i: int, x: T)
    requires
        0 <= i < items.len(),
        items[i].record_key() == key,
        x.record_key() == key,
    ensures
        change::without_key(items.update(i, x), key) == change::without_key(items, key),
    decreases items.len(),
{
    reveal_with_fuel(Seq::<_>::filter, 1);
    let updated = items.update(i, x);
    if i == items.len() - 1 {
        assert(updated.drop_last() =~= items.drop_last());
    } else {
        assert(updated.drop_last() =~= items.drop_last().update(i, x));
        lemma_without_key_update(items.drop_last(), key, i, x);
    }
}

/// Dropping a key from a sequence whose keys are unique leaves keys unique.
proof fn lemma_without_key_unique<T: Record>(items: Seq<T>, key: Seq<char>)
    requires
        unique_keys(items),
    ensures
        unique_keys(change::without_key(items, key)),
    decreases items.len(),
{
    reveal_with_fuel(Seq::<_>::filter, 1);
    if items.len() > 0 {
        let rest = items.drop_last();
        let last = items.last();
        let keep = change::key_differs::<T>(key);
        assert(unique_keys(rest)) by {
            assert forall|i: int, j: int|
                0 <= i < rest.len() && 0 <= j < rest.len() && i != j
                implies #[trigger] rest[i].record_key() != #[trigger] rest[j].record_key() by {
                assert(rest[i] == items[i] && rest[j] == items[j]);
                assert(items[i].record_key() != items[j].record_key());
            }
        }
        lemma_without_key_unique(rest, key);
        let kept = change::without_key(rest, key);
        if keep(last) {
            assert forall|i: int| 0 <= i < kept.len()
                implies #[trigger] kept[i].record_key() != last.record_key() by {
                assert(kept.contains(kept[i]));
                rest.lemma_filter_contains_rev(keep, kept[i]);
                let j = choose|j: int| 0 <= j < rest.len() && rest[j] == kept[i];
                assert(items[j].record_key() != items[items.len() - 1].record_key());
            }
            let result = kept.push(last);
            assert forall|i: int, j: int|
                0 <= i < result.len() && 0 <= j < result.len() && i != j
                implies #[trigger] result[i].record_key() != #[trigger] result[j].record_key() by {
                if i < kept.len() && j < kept.len() {
                    assert(kept[i].record_key() != kept[j].record_key());
                } else if i < kept.len() {
                    assert(kept[i].record_key() != last.record_key());
                } else {
                    assert(kept[j].record_key() != last.record_key());
                }
            }
        }
    }
}

/// After a deletion no item has the deleted record's key.
pub proof fn law_delete_removes_key<T: Record>(items: Seq<T>, record: T)
    ensures
        !change::has_key(change::applied(Action::Delete, items, record), record.record_key()),
{
    lemma_without_key_members(items, record.record_key());
}

/// A deletion keeps every item of another key.
pub proof fn law_delete_keeps_other_keys<T: Record>(items: Seq<T>, record: T, i: int)
    requires
        0 <= i < items.len(),
        items[i].record_key() != record.record_key(),
    ensures
        change::applied(Action::Delete, items, record).contains(items[i]),
{
    lemma_without_key_members(items, record.record_key());
}

/// Deleting a record twice is the same as deleting it once.
pub proof fn law_delete_idempotent<T: Record>(items: Seq<T>, record: T)
    ensures
        change::applied(Action::Delete, change::applied(Action::Delete, items, record), record)
            == change::applied(Action::Delete, items, record),
{
    law_delete_removes_key(items, record);
    lemma_without_absent_key(change::applied(Action::Delete, items, record), record.record_key());
}

/// A deletion undoes an update or a creation of a record with the same key:
/// deleting after either leaves what deleting alone leaves.
pub proof fn law_delete_after_upsert<T: Record>(items: Seq<T>, record: T, deleted: T, action: Action)
    requires
        action == Action::Update || action == Action::Create,
        deleted.record_key() == record.record_key(),
    ensures
        change::applied(Action::Delete, change::applied(action, items, record), deleted)
            == change::applied(Action::Delete, items, deleted),
{
    let key = record.record_key();
    reveal_with_fuel(Seq::<_>::filter, 1);
    if action == Action::Update && change::has_key(items, key) {
        let i = change::first_with_key(items, key);
        let w = choose|w: int| 0 <= w < items.len() && #[trigger] items[w].record_key() == key;
        assert(change::is_first_with_key(items, key, i)) by {
            lemma_exists_first(items, key, w);
        }
        lemma_without_key_update(items, key, i, record);
    } else {
        assert(items.push(record).drop_last() =~= items);
    }
}

/// Where some item has the key, there is a first one.
proof fn lemma_exists_first<T: Record>(items: Seq<T>, key: Seq<char>, w: int)
    requires
        0 <= w < items.len(),
        items[w].record_key() == key,
    ensures
        change::is_first_with_key(items, key, change::first_with_key(items, key)),
    decreases w,
{
    if forall|j: int| 0 <= j < w ==> #[trigger] items[j].record_key() != key {
        assert(change::is_first_with_key(items, key, w));
    } else {
        let j = choose|j: int| 0 <= j < w && #[trigger] items[j].record_key() == key;
        lemma_exists_first(items, key, j);
    }
}

/// After an update the record is in the collection; the collection grows by
/// one exactly when no item had the record's key, and every item of another
/// key stays where it was.
pub proof fn law_update_stores_record<T: Record>(items: Seq<T>, record: T)
    ensures
        change::applied(Action::Update, items, record).contains(record),
        change::applied(Action::Update, items, record).len()
            == items.len() + (if change::has_key(items, record.record_key()) { 0int } else { 1int }),
        forall|i: int| 0 <= i < items.len() && items[i].record_key() != record.record_key()
            ==> #[trigger] change::applied(Action::Update, items, record)[i] == items[i],
{
    let key = record.record_key();
    let result = change::applied(Action::Update, items, record);
    if change::has_key(items, key) {
        let w = choose|w: int| 0 <= w < items.len() && #[trigger] items[w].record_key() == key;
        lemma_exists_first(items, key, w);
        let i = change::first_with_key(items, key);
        assert(result[i] == record);
    } else {
        assert(result[items.len() as int] == record);
    }
}

/// Updates and deletions keep the keys of a collection unique, and after an
/// update of a collection with unique keys the record is the only item with
/// its key.
pub proof fn law_unique_keys_preserved<T: Record>(items: Seq<T>, record: T)
    requires
        unique_keys(items),
    ensures
        unique_keys(change::applied(Action::Update, items, record)),
        unique_keys(change::applied(Action::Delete, items, record)),
        forall|i: int| 0 <= i < change::applied(Action::Update, items, record).len()
            && #[trigger] change::applied(Action::Update, items, record)[i].record_key() == record.record_key()
            ==> change::applied(Action::Update, items, record)[i] == record,
{
    let key = record.record_key();
    let result = change::applied(Action::Update, items, record);
    lemma_without_key_unique(items, key);
    if change::has_key(items, key) {
        let w = choose|w: int| 0 <= w < items.len() && #[trigger] items[w].record_key() == key;
        lemma_exists_first(items, key, w);
        let p = change::first_with_key(items, key);
        assert forall|i: int, j: int|
            0 <= i < result.len() && 0 <= j < result.len() && i != j
            implies #[trigger] result[i].record_key() != #[trigger] result[j].record_key() by {
            assert(items[i].record_key() != items[j].record_key());
            if i == p {
                assert(items[p].record_key() != items[j].record_key());
            } else if j == p {
                assert(items[i].record_key() != items[p].record_key());
            }
        }
        assert forall|i: int| 0 <= i < result.len() && #[trigger] result[i].record_key() == key
            implies result[i] == record by {
            if i != p {
                assert(items[i].record_key() != items[p].record_key());
            }
        }
    } else {
        assert forall|i: int, j: int|
            0 <= i < result.len() && 0 <= j < result.len() && i != j
            implies #[trigger] result[i].record_key() != #[trigger] result[j].record_key() by {
            if i < items.len() && j < items.len() {
                assert(items[i].record_key() != items[j].record_key());
            } else if i < items.len() {
                assert(items[i].record_key() != key);
            } else {
                assert(items[j].record_key() != key);
            }
        }
    }
}

/// A creation appends the record after all the items, which stay as they
/// were, whatever the collection holds.
pub proof fn law_create_appends<T: Record>(items: Seq<T>, record: T)
    ensures
        change::applied(Action::Create, items, record).len() == items.len() + 1,
        change::applied(Action::Create, items, record)[items.len() as int] == record,
        forall|i: int| 0 <= i < items.len()
            ==> #[trigger] change::applied(Action::Create, items, record)[i] == items[i],
{
}

/// Applying the same update twice leaves what applying it once leaves.
pub proof fn law_update_idempotent<T: Record>(items: Seq<T>, record: T)
    ensures
        change::applied(Action::Update, change::applied(Action::Update, items, record), record)
            == change::applied(Action::Update, items, record),
{
    let key = record.record_key();
    let once = change::applied(Action::Update, items, record);
    let p = if change::has_key(items, key) {
        let w = choose|w: int| 0 <= w < items.len() && #[trigger] items[w].record_key() == key;
        lemma_exists_first(items, key, w);
        change::first_with_key(items, key)
    } else {
        items.len() as int
    };
    assert(change::is_first_with_key(once, key, p)) by {
        assert forall|j: int| 0 <= j < p implies #[trigger] once[j].record_key() != key by {
            if change::has_key(items, key) {
                assert(once[j] == items[j]);
            } else {
                assert(once[j] == items[j]);
                assert(!(items[j].record_key() == key));
            }
        }
    }
    change::lemma_first_with_key_unique(once, key, p);
    assert(once.update(p, record) =~= once);
}

} // verus!
