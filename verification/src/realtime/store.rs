//! A local store of the records of one topic, kept up to date with the
//! changes that the realtime API reports for that topic.
use super::change::{self, Change, Record};
use vstd::prelude::*;

verus! {

/// The records of one topic.
pub struct Store<T> {
    topic: String,
    items: Vec<T>,
}

impl<T> Store<T> {
    /// The topic whose changes the store follows.
    pub closed spec fn topic_view(&self) -> Seq<char> {
        self.topic@
    }

    /// The records that the store holds, in order.
    pub closed spec fn items_view(&self) -> Seq<T> {
        self.items@
    }

    /// An empty store that follows `topic`.
    pub fn new(topic: String) -> (store: Self)
        ensures
            store.topic_view() == topic@,
            store.items_view() == Seq::<T>::empty(),
    {
        Store { topic, items: Vec::new() }
    }

    /// The topic whose changes the store follows.
    pub fn topic(&self) -> (topic: &str)
        ensures
            topic@ == self.topic_view(),
    {
        self.topic.as_str()
    }

    /// The records that the store holds.
    pub fn read(&self) -> (items: &Vec<T>)
        ensures
            items@ == self.items_view(),
    {
        &self.items
    }

    /// Runs `mutable_callback` on the store's records and returns what it
    /// returns; the records are then those that the callback left.
    pub fn update<O, F: FnOnce(&mut Vec<T>) -> O>(&mut self, mutable_callback: F) -> (out: O)
        requires
            forall|v: &mut Vec<T>| mutable_callback.requires((v,)),
        ensures
            final(self).topic_view() == old(self).topic_view(),
            exists|v: &mut Vec<T>|
                (*v)@ == old(self).items_view() && (*final(v))@ == final(self).items_view()
                    && #[trigger] mutable_callback.ensures((v,), out),
    {
        mutable_callback(&mut self.items)
    }
}

impl<T: Record> Store<T> {
    /// Applies `change` to the store's records when `change_topic` is the
    /// store's topic, where `record` is the change's record decoded by the
    /// caller; a change of another topic leaves the store as it is.
    pub fn notify(&mut self, change_topic: &str, change: &Change, record: T)
        ensures
            final(self).topic_view() == old(self).topic_view(),
            final(self).items_view() == if old(self).topic_view() == change_topic@ {
                change::applied(change.action, old(self).items_view(), record)
            } else {
                old(self).items_view()
            },
    {
        if self.topic == change_topic.to_owned() {
            change.apply(&mut self.items, record);
        }
    }
}

} // verus!
