//! The vote state the core asks the storage layer to hold: at most one
//! vote per (actor, object), changed only by idempotent upsert and
//! delete, exactly the two atomic operations the pipeline relies on.

use vstd::prelude::*;
use crate::policy::{ObjectKind, VoteType};

verus! {

/// One actor's vote on one object.
#[derive(Clone, Copy, Debug, PartialEq, Eq, Structural)]
pub struct VoteRow {
    pub actor_id: u64,
    pub object_kind: ObjectKind,
    pub object_id: u64,
    pub value: VoteType,
}

/// Whether `row` is the vote of `actor_id` on the given object.
pub open spec fn row_keyed(row: VoteRow, actor_id: u64, kind: ObjectKind, object_id: u64) -> bool {
    row.actor_id == actor_id && row.object_kind == kind && row.object_id == object_id
}

/// Whether some row in `rows` is keyed by (actor, object).
pub open spec fn has_vote(rows: Seq<VoteRow>, actor_id: u64, kind: ObjectKind, object_id: u64) -> bool {
    exists|i: int| 0 <= i < rows.len() && row_keyed(rows[i], actor_id, kind, object_id)
}

/// Whether two rows carry the same (actor, object) key.
pub open spec fn same_key(a: VoteRow, b: VoteRow) -> bool {
    row_keyed(a, b.actor_id, b.object_kind, b.object_id)
}

/// At most one row per (actor, object) key.
pub open spec fn rows_unique(rows: Seq<VoteRow>) -> bool {
    forall|i: int, j: int|
        0 <= i < j < rows.len() ==> !same_key(#[trigger] rows[i], #[trigger] rows[j])
}

/// What upserting a vote leaves in the store: the existing row for the
/// key is overwritten in place, or a new row is appended.
pub open spec fn spec_upsert(rows: Seq<VoteRow>, row: VoteRow) -> Seq<VoteRow> {
    if has_vote(rows, row.actor_id, row.object_kind, row.object_id) {
        let i = choose|i: int|
            0 <= i < rows.len() && row_keyed(rows[i], row.actor_id, row.object_kind, row.object_id);
        rows.update(i, row)
    } else {
        rows.push(row)
    }
}

/// What deleting a vote leaves in the store: the row for the key is
/// removed; deleting a vote that does not exist changes nothing.
pub open spec fn spec_delete(rows: Seq<VoteRow>, actor_id: u64, kind: ObjectKind, object_id: u64) -> Seq<VoteRow> {
    if has_vote(rows, actor_id, kind, object_id) {
        let i = choose|i: int| 0 <= i < rows.len() && row_keyed(rows[i], actor_id, kind, object_id);
        rows.remove(i)
    } else {
        rows
    }
}

/// The vote each key maps to, if any. Well defined on unique rows.
pub open spec fn spec_vote_of(rows: Seq<VoteRow>, actor_id: u64, kind: ObjectKind, object_id: u64) -> Option<VoteType> {
    if has_vote(rows, actor_id, kind, object_id) {
        let i = choose|i: int| 0 <= i < rows.len() && row_keyed(rows[i], actor_id, kind, object_id);
        Some(rows[i].value)
    } else {
        None
    }
}

/// The vote table: one row per (actor, object) that currently holds a
/// vote. Mutation goes through the storage layer's two atomic
/// operations, upsert and delete, both idempotent.
pub struct VoteStore {
    rows: Vec<VoteRow>,
}

impl View for VoteStore {
    type V = Seq<VoteRow>;

    closed spec fn view(&self) -> Seq<VoteRow> {
        self.rows@
    }
}

impl VoteStore {
    /// The store keeps at most one row per key.
    pub open spec fn wf(&self) -> bool {
        rows_unique(self@)
    }

    /// An empty vote table.
    pub fn new() -> (r: VoteStore)
        ensures
            r@ == Seq::<VoteRow>::empty(),
            r.wf(),
    {
        VoteStore { rows: Vec::new() }
    }

    /// Read the vote of `actor_id` on the given object.
    pub fn vote_of(&self, actor_id: u64, kind: ObjectKind, object_id: u64) -> (r: Option<VoteType>)
        requires
            self.wf(),
        ensures
            r == spec_vote_of(self@, actor_id, kind, object_id),
    {
        let n = self.rows.len();
        for i in 0..n
            invariant
                self.wf(),
                n == self.rows.len(),
                forall|k: int| 0 <= k < i ==> !row_keyed(self@[k], actor_id, kind, object_id),
        {
            let row = self.rows[i];
            if row.actor_id == actor_id && row.object_kind == kind && row.object_id == object_id {
                proof {
                    lemma_unique_vote_value(self@, actor_id, kind, object_id, i as int);
                }
                return Some(row.value);
            }
        }
        None
    }

    /// Record `value` as the one vote of the actor on the object,
    /// replacing any previous vote. Upserting the value a second time
    /// leaves the table exactly as after the first time.
    pub fn upsert(&mut self, actor_id: u64, kind: ObjectKind, object_id: u64, value: VoteType)
        requires
            old(self).wf(),
        ensures
            final(self).wf(),
            final(self)@ == spec_upsert(
                old(self)@,
                VoteRow { actor_id, object_kind: kind, object_id, value },
            ),
            spec_vote_of(final(self)@, actor_id, kind, object_id) == Some(value),
    {
        let n = self.rows.len();
        for i in 0..n
            invariant
                self.wf(),
                n == self.rows.len(),
                self@ == old(self)@,
                forall|k: int| 0 <= k < i ==> !row_keyed(self@[k], actor_id, kind, object_id),
        {
            let r = self.rows[i];
            if r.actor_id == actor_id && r.object_kind == kind && r.object_id == object_id {
                let row = VoteRow { actor_id, object_kind: kind, object_id, value };
                self.rows.set(i, row);
                proof {
                    let j = choose|j: int|
                        0 <= j < old(self)@.len() && row_keyed(
                            old(self)@[j],
                            actor_id,
                            kind,
                            object_id,
                        );
                    assert(j == i as int);
                    lemma_update_keeps_unique(old(self)@, i as int, row);
                    lemma_unique_vote_value(self@, actor_id, kind, object_id, i as int);
                }
                return ;
            }
        }
        let row = VoteRow { actor_id, object_kind: kind, object_id, value };
        self.rows.push(row);
        proof {
            assert(self@ == old(self)@.push(row));
            assert(row_keyed(self@[self@.len() - 1], actor_id, kind, object_id));
            lemma_push_keeps_unique(old(self)@, row);
            lemma_unique_vote_value(self@, actor_id, kind, object_id, self@.len() - 1);
        }
    }

    /// Delete the actor's vote on the object, if any; deleting a vote
    /// that does not exist is a no-op, not an error.
    pub fn delete(&mut self, actor_id: u64, kind: ObjectKind, object_id: u64)
        requires
            old(self).wf(),
        ensures
            final(self).wf(),
            final(self)@ == spec_delete(old(self)@, actor_id, kind, object_id),
            spec_vote_of(final(self)@, actor_id, kind, object_id) is None,
    {
        let n = self.rows.len();
        for i in 0..n
            invariant
                self.wf(),
                n == self.rows.len(),
                self@ == old(self)@,
                forall|k: int| 0 <= k < i ==> !row_keyed(self@[k], actor_id, kind, object_id),
        {
            let r = self.rows[i];
            if r.actor_id == actor_id && r.object_kind == kind && r.object_id == object_id {
                self.rows.remove(i);
                proof {
                    let j = choose|j: int|
                        0 <= j < old(self)@.len() && row_keyed(
                            old(self)@[j],
                            actor_id,
                            kind,
                            object_id,
                        );
                    assert(j == i as int);
                    lemma_remove_keeps_unique(old(self)@, i as int);
                    lemma_remove_only_key(old(self)@, actor_id, kind, object_id, i as int);
                }
                return ;
            }
        }
    }

    /// How many votes the table holds.
    pub fn len(&self) -> (n: usize)
        ensures
            n == self@.len(),
    {
        self.rows.len()
    }
}

/// On unique rows, every row that carries a key carries the key's one
/// value, so reads are deterministic.
pub proof fn lemma_unique_vote_value(rows: Seq<VoteRow>, actor_id: u64, kind: ObjectKind, object_id: u64, i: int)
    requires
        rows_unique(rows),
        0 <= i < rows.len(),
        row_keyed(rows[i], actor_id, kind, object_id),
    ensures
        spec_vote_of(rows, actor_id, kind, object_id) == Some(rows[i].value),
{
    assert(has_vote(rows, actor_id, kind, object_id));
    let j = choose|j: int| 0 <= j < rows.len() && row_keyed(rows[j], actor_id, kind, object_id);
    assert(j == i);
}

/// Upserting keeps the table unique and leaves the key present.
pub proof fn lemma_upsert_keeps_unique(rows: Seq<VoteRow>, row: VoteRow)
    requires
        rows_unique(rows),
    ensures
        rows_unique(spec_upsert(rows, row)),
        has_vote(spec_upsert(rows, row), row.actor_id, row.object_kind, row.object_id),
{
    if has_vote(rows, row.actor_id, row.object_kind, row.object_id) {
        let i = choose|i: int|
            0 <= i < rows.len() && row_keyed(rows[i], row.actor_id, row.object_kind, row.object_id);
        lemma_update_keeps_unique(rows, i, row);
        assert(row_keyed(spec_upsert(rows, row)[i], row.actor_id, row.object_kind, row.object_id));
    } else {
        lemma_push_keeps_unique(rows, row);
        assert(row_keyed(
            spec_upsert(rows, row)[rows.len() as int],
            row.actor_id,
            row.object_kind,
            row.object_id,
        ));
    }
}

/// Idempotence of vote application: upserting an identical vote a
/// second time leaves the table exactly as after the first time.
pub proof fn lemma_upsert_idempotent(rows: Seq<VoteRow>, row: VoteRow)
    requires
        rows_unique(rows),
    ensures
        spec_upsert(spec_upsert(rows, row), row) == spec_upsert(rows, row),
{
    let r1 = spec_upsert(rows, row);
    lemma_upsert_keeps_unique(rows, row);
    let k: int = if has_vote(rows, row.actor_id, row.object_kind, row.object_id) {
        choose|i: int|
            0 <= i < rows.len() && row_keyed(rows[i], row.actor_id, row.object_kind, row.object_id)
    } else {
        rows.len() as int
    };
    assert(r1[k] == row);
    let j = choose|j: int|
        0 <= j < r1.len() && row_keyed(r1[j], row.actor_id, row.object_kind, row.object_id);
    assert(j == k) by {
        if j < k {
            assert(same_key(r1[j], r1[k]));
        }
        if k < j {
            assert(same_key(r1[k], r1[j]));
        }
    }
    assert(r1.update(j, row) =~= r1);
}

/// Deleting a key keeps the table unique and erases the key entirely.
pub proof fn lemma_delete_erases(rows: Seq<VoteRow>, actor_id: u64, kind: ObjectKind, object_id: u64)
    requires
        rows_unique(rows),
    ensures
        rows_unique(spec_delete(rows, actor_id, kind, object_id)),
        !has_vote(spec_delete(rows, actor_id, kind, object_id), actor_id, kind, object_id),
{
    if has_vote(rows, actor_id, kind, object_id) {
        let i = choose|i: int| 0 <= i < rows.len() && row_keyed(rows[i], actor_id, kind, object_id);
        lemma_remove_keeps_unique(rows, i);
        lemma_remove_only_key(rows, actor_id, kind, object_id, i);
    }
}

proof fn lemma_update_keeps_unique(rows: Seq<VoteRow>, i: int, row: VoteRow)
    requires
        rows_unique(rows),
        0 <= i < rows.len(),
        row_keyed(rows[i], row.actor_id, row.object_kind, row.object_id),
    ensures
        rows_unique(rows.update(i, row)),
{
}

proof fn lemma_push_keeps_unique(rows: Seq<VoteRow>, row: VoteRow)
    requires
        rows_unique(rows),
        !has_vote(rows, row.actor_id, row.object_kind, row.object_id),
    ensures
        rows_unique(rows.push(row)),
{
}

proof fn lemma_remove_keeps_unique(rows: Seq<VoteRow>, i: int)
    requires
        rows_unique(rows),
        0 <= i < rows.len(),
    ensures
        rows_unique(rows.remove(i)),
{
    let r = rows.remove(i);
    assert forall|a: int, b: int| 0 <= a < b < r.len() implies !same_key(r[a], r[b]) by {
        let a0: int = if a < i { a } else { a + 1 };
        let b0: int = if b < i { b } else { b + 1 };
        assert(r[a] == rows[a0]);
        assert(r[b] == rows[b0]);
    }
}

proof fn lemma_remove_only_key(rows: Seq<VoteRow>, actor_id: u64, kind: ObjectKind, object_id: u64, i: int)
    requires
        rows_unique(rows),
        0 <= i < rows.len(),
        row_keyed(rows[i], actor_id, kind, object_id),
    ensures
        !has_vote(rows.remove(i), actor_id, kind, object_id),
{
    let r = rows.remove(i);
    assert forall|k: int| 0 <= k < r.len() implies !row_keyed(r[k], actor_id, kind, object_id) by {
        let k0: int = if k < i { k } else { k + 1 };
        assert(r[k] == rows[k0]);
    }
}

} // verus!
