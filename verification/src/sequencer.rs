//! The event log as the write path sees it: events are appended and get
//! sequence numbers that only grow; the events of an identity can be
//! dropped, all but the ones that are named.
//!
//! The log that downstream consumers read from lives outside the server.
//! [`EventLog`] holds in memory what such a log must do, so that the order in
//! which a request is announced can be followed to the end.

use crate::collab::{
    AccountEvent, AccountStatus, CommitEvent, Emission, EmissionView, IdentityEvent, SyncEvent,
};
use crate::commit::AppliedCommit;
use vstd::prelude::*;

verus! {

/// The log cannot take an event: its sequence numbers are used up.
#[derive(Clone, Copy, Debug, PartialEq, Eq, Structural)]
pub enum SequencerError {
    Exhausted,
}

/// An event with the sequence number that the log gave it.
#[derive(Clone, Debug, PartialEq, Eq)]
pub struct Sequenced {
    pub seq: u64,
    pub event: Emission,
}

/// What a [`Sequenced`] holds, as plain values.
pub struct SequencedView {
    pub seq: u64,
    pub event: EmissionView,
}

impl DeepView for Sequenced {
    type V = SequencedView;

    open spec fn deep_view(&self) -> SequencedView {
        SequencedView {
            seq: self.seq.deep_view(),
            event: self.event.deep_view(),
        }
    }
}

impl View for Sequenced {
    type V = SequencedView;

    open spec fn view(&self) -> SequencedView {
        self.deep_view()
    }
}

/// The identity that an event is about.
pub open spec fn event_did(event: EmissionView) -> Seq<char> {
    match event {
        EmissionView::Identity(e) => e.did,
        EmissionView::Account(e) => e.did,
        EmissionView::Commit(e) => e.did,
        EmissionView::Sync(e) => e.did,
    }
}

/// Whether compaction for `did` keeps an entry: it is about another
/// identity, or its sequence number is one of the excepted.
pub open spec fn survives(entry: SequencedView, did: Seq<char>, except: Seq<u64>) -> bool {
    event_did(entry.event) != did || except.contains(entry.seq)
}

/// The entries that compaction for `did` keeps, in their order.
pub open spec fn compacted(entries: Seq<SequencedView>, did: Seq<char>, except: Seq<u64>) -> Seq<
    SequencedView,
>
    decreases entries.len(),
{
    if entries.len() == 0 {
        Seq::empty()
    } else if survives(entries.last(), did, except) {
        compacted(entries.drop_last(), did, except).push(entries.last())
    } else {
        compacted(entries.drop_last(), did, except)
    }
}

/// The sequence numbers grow from entry to entry and stay below `bound`.
pub open spec fn ascending(entries: Seq<SequencedView>, bound: u64) -> bool {
    &&& forall|i: int, j: int|
        0 <= i < j < entries.len() ==> (#[trigger] entries[i]).seq < (#[trigger] entries[j]).seq
    &&& forall|i: int| 0 <= i < entries.len() ==> (#[trigger] entries[i]).seq < bound
}

/// An append-only log of events in memory.
pub struct EventLog {
    next: u64,
    entries: Vec<Sequenced>,
}

impl EventLog {
    /// The sequence numbers of the log grow from entry to entry and stay
    /// below the number that the next event gets. Every log made by
    /// [`EventLog::new`] and changed by the methods here is well formed.
    pub open spec fn well_formed(self) -> bool {
        ascending(self.entries(), self.next_seq())
    }

    /// The entries of the log, oldest first.
    pub closed spec fn entries(self) -> Seq<SequencedView> {
        self.entries.deep_view()
    }

    /// The sequence number that the next event gets.
    pub closed spec fn next_seq(self) -> u64 {
        self.next
    }

    /// An empty log, whose first event gets the number 1.
    pub fn new() -> (out: EventLog)
        ensures
            out.entries() == Seq::<SequencedView>::empty(),
            out.next_seq() == 1,
            out.well_formed(),
    {
        let entries: Vec<Sequenced> = Vec::new();
        assert(entries.deep_view() =~= Seq::empty());
        EventLog { next: 1, entries }
    }

    /// An empty log whose first event gets the number `next`, for a log
    /// that goes on where another left off.
    pub fn starting_at(next: u64) -> (out: EventLog)
        ensures
            out.entries() == Seq::<SequencedView>::empty(),
            out.next_seq() == next,
            out.well_formed(),
    {
        let entries: Vec<Sequenced> = Vec::new();
        assert(entries.deep_view() =~= Seq::empty());
        EventLog { next, entries }
    }

    /// How many entries the log holds.
    pub fn len(&self) -> (out: usize)
        ensures
            out == self.entries().len(),
    {
        self.entries.len()
    }

    /// The sequence number and the kind of the entry at `index`.
    pub fn get(&self, index: usize) -> (out: &Sequenced)
        requires
            index < self.entries().len(),
        ensures
            out@ == self.entries()[index as int],
    {
        &self.entries[index]
    }

    /// Appends an event. It gets the next sequence number, which is larger
    /// than every number given before. A log whose numbers are used up
    /// takes nothing.
    pub fn append(&mut self, event: Emission) -> (out: Result<u64, SequencerError>)
        requires
            old(self).well_formed(),
        ensures
            old(self).next_seq() == u64::MAX ==> out == Err::<u64, SequencerError>(
                SequencerError::Exhausted,
            ) && final(self).entries() == old(self).entries() && final(self).next_seq() == old(
                self,
            ).next_seq(),
            old(self).next_seq() < u64::MAX ==> out == Ok::<u64, SequencerError>(
                old(self).next_seq(),
            ) && final(self).entries() == old(self).entries().push(
                SequencedView { seq: old(self).next_seq(), event: event@ },
            ) && final(self).next_seq() == old(self).next_seq() + 1,
            final(self).well_formed(),
    {
        if self.next == u64::MAX {
            return Err(SequencerError::Exhausted);
        }
        let seq: u64 = self.next;
        let ghost before = self.entries.deep_view();
        self.next = seq + 1;
        self.entries.push(Sequenced { seq, event });
        proof {
            assert(self.entries.deep_view() =~= before.push(
                SequencedView { seq: seq, event: event@ },
            ));
        }
        Ok(seq)
    }

    /// Announces the handle of an identity.
    pub fn emit_identity(&mut self, did: String, handle: Option<String>) -> (out: Result<
        u64,
        SequencerError,
    >)
        requires
            old(self).well_formed(),
        ensures
            final(self).well_formed(),
            out is Ok <==> old(self).next_seq() < u64::MAX,
            out matches Ok(seq) ==> seq == old(self).next_seq() && final(self).entries() == old(
                self,
            ).entries().push(
                SequencedView {
                    seq: seq,
                    event: EmissionView::Identity(
                        crate::collab::IdentityEventView { did: did@, handle: handle.deep_view() },
                    ),
                },
            ),
            out is Err ==> final(self).entries() == old(self).entries(),
    {
        self.append(Emission::Identity(IdentityEvent { did, handle }))
    }

    /// Announces how an account stands.
    pub fn emit_account_status(&mut self, did: String, status: AccountStatus) -> (out: Result<
        u64,
        SequencerError,
    >)
        requires
            old(self).well_formed(),
        ensures
            final(self).well_formed(),
            out is Ok <==> old(self).next_seq() < u64::MAX,
            out matches Ok(seq) ==> seq == old(self).next_seq() && final(self).entries() == old(
                self,
            ).entries().push(
                SequencedView {
                    seq: seq,
                    event: EmissionView::Account(
                        crate::collab::AccountEventView { did: did@, status: status },
                    ),
                },
            ),
            out is Err ==> final(self).entries() == old(self).entries(),
    {
        self.append(Emission::Account(AccountEvent { did, status }))
    }

    /// Announces a commit.
    pub fn emit_commit(&mut self, did: String, commit: AppliedCommit) -> (out: Result<
        u64,
        SequencerError,
    >)
        requires
            old(self).well_formed(),
        ensures
            final(self).well_formed(),
            out is Ok <==> old(self).next_seq() < u64::MAX,
            out matches Ok(seq) ==> seq == old(self).next_seq() && final(self).entries() == old(
                self,
            ).entries().push(
                SequencedView {
                    seq: seq,
                    event: EmissionView::Commit(
                        crate::collab::CommitEventView { did: did@, commit: commit@ },
                    ),
                },
            ),
            out is Err ==> final(self).entries() == old(self).entries(),
    {
        self.append(Emission::Commit(CommitEvent { did, commit }))
    }

    /// Announces the state of a repository as of a commit.
    pub fn emit_sync(&mut self, did: String, commit: AppliedCommit) -> (out: Result<
        u64,
        SequencerError,
    >)
        requires
            old(self).well_formed(),
        ensures
            final(self).well_formed(),
            out is Ok <==> old(self).next_seq() < u64::MAX,
            out matches Ok(seq) ==> seq == old(self).next_seq() && final(self).entries() == old(
                self,
            ).entries().push(
                SequencedView {
                    seq: seq,
                    event: EmissionView::Sync(
                        crate::collab::SyncEventView { did: did@, commit: commit@ },
                    ),
                },
            ),
            out is Err ==> final(self).entries() == old(self).entries(),
    {
        self.append(Emission::Sync(SyncEvent { did, commit }))
    }

    /// Drops every event of the identity `did` but those whose sequence
    /// number is among `except`. The events of other identities stay, and
    /// what stays keeps its order and its numbers.
    pub fn compact(&mut self, did: &String, except: &Vec<u64>)
        requires
            old(self).well_formed(),
        ensures
            final(self).entries() == compacted(old(self).entries(), did@, except@),
            final(self).next_seq() == old(self).next_seq(),
            final(self).well_formed(),
    {
        let ghost all = self.entries.deep_view();
        let ghost bound = self.next;
        let mut taken: Vec<Sequenced> = Vec::new();
        assert(taken.deep_view() =~= Seq::empty());
        core::mem::swap(&mut self.entries, &mut taken);
        let ghost items = taken@;
        let mut kept: Vec<Sequenced> = Vec::new();
        assert(kept.deep_view() =~= Seq::empty());
        assert(all.take(0) =~= Seq::empty());
        for entry in it: taken.into_iter()
            invariant
                it.seq() == items,
                items.len() == all.len(),
                forall|k: int| 0 <= k < items.len() ==> (#[trigger] items[k])@ == all[k],
                ascending(all, bound),
                kept.deep_view() == compacted(all.take(it.index() as int), did@, except@),
                ascending(kept.deep_view(), bound),
                forall|k: int|
                    0 <= k < kept.len() && it.index() < all.len() ==> (
                    #[trigger] kept.deep_view()[k]).seq < all[it.index() as int].seq,
        {
            let ghost i = it.index() as int;
            let ghost before = kept.deep_view();
            assert(entry@ == all[i]);
            assert(all.take(i + 1).drop_last() =~= all.take(i));
            assert(all.take(i + 1).last() == all[i]);
            if !about(&entry.event, did) || holds(except, entry.seq) {
                kept.push(entry);
                assert(kept.deep_view() =~= before.push(all[i]));
            }
        }
        assert(all.take(all.len() as int) =~= all);
        core::mem::swap(&mut self.entries, &mut kept);
    }
}

/// Whether `event` is about the identity `did`.
pub fn about(event: &Emission, did: &String) -> (out: bool)
    ensures
        out == (event_did(event@) == did@),
{
    match event {
        Emission::Identity(e) => e.did == *did,
        Emission::Account(e) => e.did == *did,
        Emission::Commit(e) => e.did == *did,
        Emission::Sync(e) => e.did == *did,
    }
}

/// Whether `seq` is among `numbers`.
pub fn holds(numbers: &Vec<u64>, seq: u64) -> (out: bool)
    ensures
        out == numbers@.contains(seq),
{
    let mut i: usize = 0;
    while i < numbers.len()
        invariant
            i <= numbers.len(),
            forall|k: int| 0 <= k < i ==> numbers@[k] != seq,
        decreases numbers.len() - i,
    {
        if numbers[i] == seq {
            return true;
        }
        i += 1;
    }
    false
}

/// Compaction keeps exactly the entries that survive it: what stays was
/// there before and survives, and every entry that survives stays.
pub proof fn lemma_compaction_keeps_the_survivors(
    entries: Seq<SequencedView>,
    did: Seq<char>,
    except: Seq<u64>,
)
    ensures
        forall|entry: SequencedView| #[trigger]
            compacted(entries, did, except).contains(entry) <==> entries.contains(entry)
                && survives(entry, did, except),
        compacted(entries, did, except).len() <= entries.len(),
    decreases entries.len(),
{
    let kept = compacted(entries, did, except);
    if entries.len() > 0 {
        let rest = entries.drop_last();
        let last = entries.last();
        lemma_compaction_keeps_the_survivors(rest, did, except);
        let kept_rest = compacted(rest, did, except);
        assert forall|entry: SequencedView| #[trigger]
            kept.contains(entry) <==> entries.contains(entry) && survives(
                entry,
                did,
                except,
            ) by {
            if kept.contains(entry) {
                let i = choose|i: int| 0 <= i < kept.len() && kept[i] == entry;
                if survives(last, did, except) && i == kept.len() - 1 {
                    assert(entries[entries.len() - 1] == entry);
                } else {
                    assert(kept_rest[i] == entry);
                    assert(kept_rest.contains(entry));
                    assert(rest.contains(entry));
                    let j = choose|j: int| 0 <= j < rest.len() && rest[j] == entry;
                    assert(entries[j] == entry);
                }
            }
            if entries.contains(entry) && survives(entry, did, except) {
                let j = choose|j: int| 0 <= j < entries.len() && entries[j] == entry;
                if j == entries.len() - 1 {
                    assert(kept[kept.len() - 1] == entry);
                } else {
                    assert(rest[j] == entry);
                    assert(rest.contains(entry));
                    assert(kept_rest.contains(entry));
                    let i = choose|i: int| 0 <= i < kept_rest.len() && kept_rest[i] == entry;
                    assert(kept[i] == entry);
                }
            }
        }
    }
}

/// After compaction for an identity, the only events of that identity that
/// the log still holds are the excepted ones.
pub proof fn lemma_compaction_erases_the_identity(
    entries: Seq<SequencedView>,
    did: Seq<char>,
    except: Seq<u64>,
    entry: SequencedView,
)
    requires
        compacted(entries, did, except).contains(entry),
        event_did(entry.event) == did,
    ensures
        except.contains(entry.seq),
{
    lemma_compaction_keeps_the_survivors(entries, did, except);
}

} // verus!
