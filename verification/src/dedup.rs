//! Dedup ledger: records which inbound activity identifiers have been
//! processed, so that re-delivery of an activity is discarded instead
//! of reapplying its effects.

use vstd::prelude::*;

verus! {

/// Outcome of recording an activity identifier.
#[derive(Clone, Copy, Debug, PartialEq, Eq, Structural)]
pub enum RecordOutcome {
    /// The identifier was not known and is now recorded.
    Inserted,
    /// The identifier was already recorded: the activity is a
    /// duplicate and must be discarded without side effects.
    AlreadyPresent,
}

/// The set of activity identifiers that were already processed, in the
/// order they were first recorded. Insertion is attempted exactly once
/// per inbound activity, before any side effect runs.
pub struct DedupLedger {
    ids: Vec<String>,
}

impl View for DedupLedger {
    type V = Seq<Seq<char>>;

    closed spec fn view(&self) -> Seq<Seq<char>> {
        self.ids@.map_values(|s: String| s@)
    }
}

/// Whether the ledger already holds `id`.
pub open spec fn ledger_knows(ledger: Seq<Seq<char>>, id: Seq<char>) -> bool {
    ledger.contains(id)
}

/// What recording `id` leaves in the ledger: a known identifier leaves
/// it unchanged, an unknown one is appended.
pub open spec fn spec_record(ledger: Seq<Seq<char>>, id: Seq<char>) -> Seq<Seq<char>> {
    if ledger_knows(ledger, id) {
        ledger
    } else {
        ledger.push(id)
    }
}

impl DedupLedger {
    /// A ledger that has processed nothing.
    pub fn new() -> (r: DedupLedger)
        ensures
            r@ == Seq::<Seq<char>>::empty(),
    {
        DedupLedger { ids: Vec::new() }
    }

    /// Record `id` as processed unless it already is. `Inserted` means
    /// the caller saw this identifier first and may proceed;
    /// `AlreadyPresent` means the activity is a duplicate.
    pub fn record_if_new(&mut self, id: &String) -> (r: RecordOutcome)
        ensures
            final(self)@ == spec_record(old(self)@, id@),
            r == RecordOutcome::Inserted <==> !ledger_knows(old(self)@, id@),
            ledger_knows(final(self)@, id@),
    {
        let n = self.ids.len();
        for i in 0..n
            invariant
                n == self.ids.len(),
                forall|k: int| 0 <= k < i ==> self.ids@[k]@ != id@,
        {
            if self.ids[i] == *id {
                assert(self@[i as int] == id@);
                return RecordOutcome::AlreadyPresent;
            }
        }
        assert(!ledger_knows(self@, id@)) by {
            assert(forall|k: int| 0 <= k < self@.len() ==> self@[k] == self.ids@[k]@);
        }
        self.ids.push(id.clone());
        assert(self@ =~= old(self)@.push(id@));
        assert(self@[self@.len() - 1] == id@);
        RecordOutcome::Inserted
    }

    /// How many identifiers the ledger holds.
    pub fn len(&self) -> (n: usize)
        ensures
            n == self@.len(),
    {
        self.ids.len()
    }
}

} // verus!
