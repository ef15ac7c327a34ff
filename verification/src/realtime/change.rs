//! A change that the realtime API reports for a record, and how it is
//! applied to a local collection of records.
use vstd::prelude::*;

verus! {

/// A record kept in a local collection, identified by its key.
pub trait Record {
    /// The record's key, by its characters.
    spec fn record_key(&self) -> Seq<char>;

    /// The record's key.
    fn key(&self) -> (key: &str)
        ensures
            key@ == self.record_key(),
    ;
}

/// A record that names the key of the record that follows it.
pub trait OrderedRecord {
    fn next_record_key(&self) -> &str;
}

/// What happened to a record.
#[derive(Debug, Clone, Copy, PartialEq, Eq, Structural)]
pub enum Action {
    Update,
    Create,
    Delete,
}

/// A change reported by the realtime API: the record's JSON text and what
/// happened to it.
#[derive(Debug, Clone)]
pub struct Change {
    pub record: String,
    pub action: Action,
}

/// Some item of `items` has the key `key`.
pub open spec fn has_key<T: Record>(items: Seq<T>, key: Seq<char>) -> bool {
    exists|i: int| 0 <= i < items.len() && #[trigger] items[i].record_key() == key
}

/// `i` is the first position in `items` of an item with the key `key`.
pub open spec fn is_first_with_key<T: Record>(items: Seq<T>, key: Seq<char>, i: int) -> bool {
    &&& 0 <= i < items.len()
    &&& items[i].record_key() == key
    &&& forall|j: int| 0 <= j < i ==> #[trigger] items[j].record_key() != key
}

/// The first position in `items` of an item with the key `key` (meaningful
/// where `has_key(items, key)`).
pub open spec fn first_with_key<T: Record>(items: Seq<T>, key: Seq<char>) -> int {
    choose|i: int| is_first_with_key(items, key, i)
}

/// Holds of the items whose key is not `key`.
pub open spec fn key_differs<T: Record>(key: Seq<char>) -> spec_fn(T) -> bool {
    |x: T| x.record_key() != key
}

/// The items whose key is not `key`, in their order.
pub open spec fn without_key<T: Record>(items: Seq<T>, key: Seq<char>) -> Seq<T> {
    items.filter(key_differs(key))
}

/// The collection after a change with `action` and the decoded `record`:
/// an update replaces the first item with the record's key, or appends the
/// record where there is none; a creation appends the record; a deletion
/// removes every item with the record's key.
pub open spec fn applied<T: Record>(action: Action, items: Seq<T>, record: T) -> Seq<T> {
    match action {
        Action::Update => if has_key(items, record.record_key()) {
            items.update(first_with_key(items, record.record_key()), record)
        } else {
            items.push(record)
        },
        Action::Create => items.push(record),
        Action::Delete => without_key(items, record.record_key()),
    }
}

/// There is at most one first position of a key.
pub proof fn lemma_first_with_key_unique<T: Record>(items: Seq<T>, key: Seq<char>, i: int)
    requires
        is_first_with_key(items, key, i),
    ensures
        has_key(items, key),
        first_with_key(items, key) == i,
{
    let k = first_with_key(items, key);
    assert(is_first_with_key(items, key, k));
    if k < i {
        assert(items[k].record_key() != key);
    } else if i < k {
        assert(items[i].record_key() != key);
    }
}

/// The position of the first item of `items` with the key `key`, if any.
fn position_of_key<T: Record>(items: &Vec<T>, key: &String) -> (position: Option<usize>)
    ensures
        match position {
            Some(i) => is_first_with_key(items@, key@, i as int),
            None => !has_key(items@, key@),
        },
{
    let n: usize = items.len();
    let mut i: usize = 0;
    while i < n
        invariant
            n == items@.len(),
            i <= n,
            forall|j: int| 0 <= j < i ==> #[trigger] items@[j].record_key() != key@,
        decreases n - i,
    {
        let item_key = items[i].key().to_owned();
        if item_key == *key {
            return Some(i);
        }
        i = i + 1;
    }
    None
}

/// Removes every item of `items` whose key is `key`, keeping the order of the
/// others.
fn remove_key<T: Record>(items: &mut Vec<T>, key: &String)
    ensures
        final(items)@ == without_key(old(items)@, key@),
{
    let ghost original = items@;
    let ghost keep = key_differs::<T>(key@);
    let mut i: usize = 0;
    let ghost mut k: int = 0;
    while i < items.len()
        invariant
            0 <= i <= items@.len(),
            0 <= k <= original.len(),
            items@.subrange(0, i as int) == original.take(k).filter(keep),
            items@.subrange(i as int, items@.len() as int) == original.skip(k),
            keep == key_differs::<T>(key@),
            items@.len() - i == original.len() - k,
        decreases items@.len() - i,
    {
        let ghost before = items@;
        assert(before[i as int] == original[k]) by {
            assert(before.subrange(i as int, before.len() as int)[0] == before[i as int]);
            assert(original.skip(k)[0] == original[k]);
        }
        assert(original.take(k + 1).drop_last() =~= original.take(k));
        assert(original.take(k + 1).last() == original[k]);
        assert forall|j: int| 0 <= j < original.len() - k - 1
            implies #[trigger] original.skip(k + 1)[j] == before[i + 1 + j] by {
            assert(original.skip(k)[j + 1] == before.subrange(i as int, before.len() as int)[j + 1]);
        }
        reveal_with_fuel(Seq::<_>::filter, 1);
        let item_key = items[i].key().to_owned();
        if item_key == *key {
            items.remove(i);
            assert(!keep(original[k]));
            assert(items@.subrange(0, i as int) =~= before.subrange(0, i as int));
            assert(items@.subrange(i as int, items@.len() as int) =~= original.skip(k + 1));
        } else {
            assert(keep(original[k]));
            assert(items@.subrange(0, i as int + 1) =~= before.subrange(0, i as int).push(original[k]));
            assert(items@.subrange(i as int + 1, items@.len() as int) =~= original.skip(k + 1));
            i = i + 1;
        }
        proof { k = k + 1; }
    }
    assert(k == original.len()) by {
        assert(original.skip(k).len() == 0);
    }
    assert(original.take(k) =~= original);
    assert(items@ =~= items@.subrange(0, i as int));
}

impl Change {
    /// Applies this change to `collection`, where `record` is this change's
    /// record decoded by the caller: an update replaces the first item with
    /// the record's key (or appends the record if no item has it), a creation
    /// appends the record, a deletion removes every item with its key.
    pub fn apply<T: Record>(&self, collection: &mut Vec<T>, record: T)
        ensures
            final(collection)@ == applied(self.action, old(collection)@, record),
    {
        let record_key = record.key().to_owned();
        match self.action {
            Action::Update => {
                match position_of_key(collection, &record_key) {
                    Some(i) => {
                        proof { lemma_first_with_key_unique(collection@, record_key@, i as int); }
                        collection.set(i, record);
                    },
                    None => {
                        collection.push(record);
                    },
                }
            },
            Action::Create => {
                collection.push(record);
            },
            Action::Delete => {
                remove_key(collection, &record_key);
            },
        }
    }
}

} // verus!
