use vstd::prelude::*;

use crate::entry_type::EntryType;

verus! {

/// One entry as a collector is shown it: key, value, kind, sequence number
/// and the table's size so far.
pub type EntryRecord = (Seq<u8>, Seq<u8>, EntryType, u64, u64);

/// The byte contents of a list of (name, value) properties.
pub open spec fn pairs_of(v: Seq<(Vec<u8>, Vec<u8>)>) -> Seq<(Seq<u8>, Seq<u8>)> {
    v.map_values(|p: (Vec<u8>, Vec<u8>)| (p.0@, p.1@))
}

/// Whether no property name occurs twice.
pub open spec fn names_unique(props: Seq<(Seq<u8>, Seq<u8>)>) -> bool {
    forall|i: int, j: int|
        0 <= i < props.len() && 0 <= j < props.len() && i != j ==> #[trigger] props[i].0
            != #[trigger] props[j].0
}

/// The state a collector reaches from `c` when shown `entries` in order.
pub open spec fn replay<T: TablePropertiesCollector>(c: T, entries: Seq<EntryRecord>) -> T
    decreases entries.len(),
{
    if entries.len() == 0 {
        c
    } else {
        let e = entries.last();
        replay(c, entries.drop_last()).after_add(e.0, e.1, e.2, e.3, e.4)
    }
}

/// One more entry is one more step of the collector: the state reached by
/// `entries` then `e` is the state reached by `entries`, shown `e`.
pub proof fn lemma_replay_push<T: TablePropertiesCollector>(
    c: T,
    entries: Seq<EntryRecord>,
    e: EntryRecord,
)
    ensures
        replay(c, entries.push(e)) == replay(c, entries).after_add(e.0, e.1, e.2, e.3, e.4),
{
    assert(entries.push(e).drop_last() =~= entries);
}

/// Entries shown in two runs leave the collector where showing them in one
/// run, in the same order, does.
pub proof fn lemma_replay_concat<T: TablePropertiesCollector>(
    c: T,
    first: Seq<EntryRecord>,
    second: Seq<EntryRecord>,
)
    ensures
        replay(c, first + second) == replay(replay(c, first), second),
    decreases second.len(),
{
    if second.len() == 0 {
        assert(first + second =~= first);
    } else {
        let e = second.last();
        let rest = second.drop_last();
        lemma_replay_concat(c, first, rest);
        assert(first + second =~= (first + rest).push(e));
        lemma_replay_push(c, first + rest, e);
        lemma_replay_push(replay(c, first), rest, e);
        assert(rest.push(e) =~= second);
    }
}

/// A collector of user properties for one table: it is shown every entry
/// written into the table, then asked once for the properties it gathered.
pub trait TablePropertiesCollector: Sized {
    /// The collector's state after it has been shown one entry; a collector
    /// that keeps no state stays as it is.
    open spec fn after_add(
        self,
        key: Seq<u8>,
        value: Seq<u8>,
        entry_type: EntryType,
        seq: u64,
        file_size: u64,
    ) -> Self {
        self
    }

    /// The properties that `finish` hands out from this state, in order;
    /// none unless a collector says otherwise.
    open spec fn properties(self) -> Seq<(Seq<u8>, Seq<u8>)> {
        Seq::empty()
    }

    /// Whether the table built from this state asks to be compacted again;
    /// a collector with no opinion on compaction says `false`.
    open spec fn wants_compaction(&self) -> bool {
        false
    }

    /// Called when a new key/value pair is inserted into the table.
    fn add(&mut self, key: &[u8], value: &[u8], entry_type: EntryType, seq: u64, file_size: u64)
        ensures
            *final(self) == old(self).after_add(key@, value@, entry_type, seq, file_size),
    ;

    /// Called once the table is built, to fill its properties block.
    fn finish(&mut self) -> (r: Vec<(Vec<u8>, Vec<u8>)>)
        ensures
            pairs_of(r@) == old(self).properties(),
            names_unique(pairs_of(r@)),
    ;

    /// Whether the finished table should be compacted again.
    fn need_compact(&self) -> (r: bool)
        ensures
            r == self.wants_compaction(),
    ;
}

} // verus!
