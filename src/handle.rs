use vstd::prelude::*;
use vstd::string::StringSliceAdditionalSpecFns;

use crate::collector::{
    lemma_replay_push, names_unique, pairs_of, replay, EntryRecord, TablePropertiesCollector,
};
use crate::entry_type::{kind_of_code, EntryType};

verus! {

/// Whether `name` can serve as an identifying name: it holds no zero byte,
/// so that a terminating zero can end it.
pub open spec fn is_plain_name(name: Seq<u8>) -> bool {
    !name.contains(0u8)
}

/// Tests that `name` holds no zero byte.
pub fn is_valid_name(name: &str) -> (r: bool)
    ensures
        r == is_plain_name(name.spec_bytes()),
{
    let bytes = name.as_bytes();
    let mut i: usize = 0;
    while i < bytes.len()
        invariant
            bytes@ == name.spec_bytes(),
            i <= bytes@.len(),
            forall|j: int| 0 <= j < i ==> bytes@[j] != 0u8,
        decreases bytes@.len() - i,
    {
        if bytes[i] == 0 {
            return false;
        }
        i = i + 1;
    }
    true
}

/// One collector together with the zero-terminated name it is known by.
/// Beside them it keeps, as ghost state, the collector it started from, the
/// entries it has been shown since, and whether it has been finished.
pub struct TablePropertiesCollectorHandle<T: TablePropertiesCollector> {
    name: Vec<u8>,
    rep: T,
    start: Ghost<T>,
    entries: Ghost<Seq<EntryRecord>>,
    finished: Ghost<bool>,
}

impl<T: TablePropertiesCollector> TablePropertiesCollectorHandle<T> {
    /// The name's bytes, terminating zero included.
    pub closed spec fn name_bytes(&self) -> Seq<u8> {
        self.name@
    }

    /// The collector in its present state.
    pub closed spec fn collector(&self) -> T {
        self.rep
    }

    /// The collector as the handle was made with it.
    pub closed spec fn initial(&self) -> T {
        self.start@
    }

    /// The entries forwarded to the collector, in order.
    pub closed spec fn entries(&self) -> Seq<EntryRecord> {
        self.entries@
    }

    /// Whether the collector has been asked for its properties.
    pub closed spec fn is_finished(&self) -> bool {
        self.finished@
    }

    /// The name ends in its only zero byte, and until it is finished the
    /// collector is its first state shown every forwarded entry.
    pub closed spec fn wf(&self) -> bool {
        &&& self.name@.len() > 0
        &&& self.name@.last() == 0u8
        &&& is_plain_name(self.name@.drop_last())
        &&& (!self.finished@ ==> self.rep == replay(self.start@, self.entries@))
    }

    /// Wraps `rep` under the name `name`.
    pub fn new(name: &str, rep: T) -> (r: Self)
        requires
            is_plain_name(name.spec_bytes()),
        ensures
            r.wf(),
            r.name_bytes() == name.spec_bytes().push(0u8),
            r.collector() == rep,
            r.initial() == rep,
            r.entries() == Seq::<EntryRecord>::empty(),
            !r.is_finished(),
    {
        let mut buf = vstd::slice::slice_to_vec(name.as_bytes());
        buf.push(0u8);
        proof {
            assert(buf@.drop_last() =~= name.spec_bytes());
        }
        TablePropertiesCollectorHandle {
            name: buf,
            rep,
            start: Ghost(rep),
            entries: Ghost(Seq::empty()),
            finished: Ghost(false),
        }
    }
}

/// The handle's name, terminating zero included. It is fixed for the
/// handle's whole life.
pub fn name<T: TablePropertiesCollector>(handle: &TablePropertiesCollectorHandle<T>) -> (r: &[u8])
    ensures
        r@ == handle.name_bytes(),
{
    handle.name.as_slice()
}

/// Ends the handle's life, and the collector's with it.
pub fn destruct<T: TablePropertiesCollector>(handle: TablePropertiesCollectorHandle<T>) {
    let _ = handle;
}

/// Forwards one entry to the collector, with its integer code read as an
/// entry kind. An entry whose code stands for no kind is not forwarded and
/// gives `false`.
pub fn add<T: TablePropertiesCollector>(
    handle: &mut TablePropertiesCollectorHandle<T>,
    key: &[u8],
    value: &[u8],
    entry_type: i32,
    seq: u64,
    file_size: u64,
) -> (r: bool)
    requires
        old(handle).wf(),
        !old(handle).is_finished(),
    ensures
        final(handle).wf(),
        !final(handle).is_finished(),
        final(handle).name_bytes() == old(handle).name_bytes(),
        final(handle).initial() == old(handle).initial(),
        r == (kind_of_code(entry_type) is Some),
        match kind_of_code(entry_type) {
            Some(t) => {
                &&& final(handle).collector() == old(handle).collector().after_add(
                    key@,
                    value@,
                    t,
                    seq,
                    file_size,
                )
                &&& final(handle).entries() == old(handle).entries().push(
                    (key@, value@, t, seq, file_size),
                )
            },
            None => {
                &&& final(handle).collector() == old(handle).collector()
                &&& final(handle).entries() == old(handle).entries()
            },
        },
{
    match EntryType::from_code(entry_type) {
        Some(t) => {
            handle.rep.add(key, value, t, seq, file_size);
            let ghost e: EntryRecord = (key@, value@, t, seq, file_size);
            proof {
                lemma_replay_push(handle.start@, handle.entries@, e);
                handle.entries = Ghost(handle.entries@.push(e));
            }
            true
        },
        None => false,
    }
}

/// Asks the collector once for its properties and appends a copy of each
/// (name, value) pair to `props`, in the order the collector gave them.
pub fn finish<T: TablePropertiesCollector>(
    handle: &mut TablePropertiesCollectorHandle<T>,
    props: &mut Vec<(Vec<u8>, Vec<u8>)>,
)
    requires
        old(handle).wf(),
        !old(handle).is_finished(),
    ensures
        final(handle).wf(),
        final(handle).is_finished(),
        final(handle).name_bytes() == old(handle).name_bytes(),
        final(handle).initial() == old(handle).initial(),
        final(handle).entries() == old(handle).entries(),
        pairs_of(final(props)@) == pairs_of(old(props)@) + replay(
            old(handle).initial(),
            old(handle).entries(),
        ).properties(),
        names_unique(pairs_of(final(props)@).skip(old(props)@.len() as int)),
{
    let produced = handle.rep.finish();
    proof {
        handle.finished = Ghost(true);
    }
    let ghost before = props@;
    let mut i: usize = 0;
    while i < produced.len()
        invariant
            i <= produced@.len(),
            pairs_of(props@) == pairs_of(before) + pairs_of(produced@).take(i as int),
        decreases produced@.len() - i,
    {
        let k = vstd::slice::slice_to_vec(produced[i].0.as_slice());
        let v = vstd::slice::slice_to_vec(produced[i].1.as_slice());
        let ghost prev = props@;
        props.push((k, v));
        proof {
            assert(pairs_of(props@) =~= pairs_of(prev).push(pairs_of(produced@)[i as int]));
            assert(pairs_of(produced@).take(i + 1) =~= pairs_of(produced@).take(i as int).push(
                pairs_of(produced@)[i as int],
            ));
        }
        i = i + 1;
    }
    proof {
        assert(pairs_of(produced@).take(i as int) =~= pairs_of(produced@));
        assert(pairs_of(props@).skip(before.len() as int) =~= pairs_of(produced@));
    }
}

/// Whether the collector asks for the table to be compacted again.
pub fn need_compact<T: TablePropertiesCollector>(handle: &TablePropertiesCollectorHandle<T>) -> (r:
    bool)
    ensures
        r == handle.collector().wants_compaction(),
{
    handle.rep.need_compact()
}

} // verus!
