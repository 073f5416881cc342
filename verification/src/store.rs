//! The durable state as three tables held in memory.
//!
//! The gateway's rules are stated over these tables. A deployment keeps them
//! in a database and answers the same questions from there; this store answers
//! them from memory, which is what the rules are proved against and what tests
//! run on.

use vstd::prelude::*;
use crate::models::{Documents, Submission, SubmissionRejection};
use crate::schema::Status;
use crate::text::same;
use crate::time::Timestamp;

verus! {

/// The three tables.
#[derive(Debug)]
pub struct Store {
    pub submissions: Vec<Submission>,
    pub submission_rejections: Vec<SubmissionRejection>,
    pub documents: Vec<Documents>,
}

/// What a [`Store`] holds: the rows of its three tables, each in the order in which they were added.
pub struct StoreView {
    pub submissions: Seq<Submission>,
    pub submission_rejections: Seq<SubmissionRejection>,
    pub documents: Seq<Documents>,
}

impl View for Store {
    type V = StoreView;

    open spec fn view(&self) -> StoreView {
        StoreView {
            submissions: self.submissions@,
            submission_rejections: self.submission_rejections@,
            documents: self.documents@,
        }
    }
}

/// Whether `row` carries the submission number `number` and was received at or after `since`.
pub open spec fn is_recent(row: Submission, number: Seq<char>, since: Timestamp) -> bool {
    row.ch_submission_id@ == number && row.received_timestamp.spec_at_or_after(since)
}

/// How many of `rows` carry `number` and were received at or after `since`.
pub open spec fn recent_count(rows: Seq<Submission>, number: Seq<char>, since: Timestamp) -> nat
    decreases rows.len(),
{
    if rows.len() == 0 {
        0
    } else {
        recent_count(rows.drop_last(), number, since) + (if is_recent(rows.last(), number, since) {
            1nat
        } else {
            0nat
        })
    }
}

/// How many of `rows` are pending.
pub open spec fn pending_count(rows: Seq<Submission>) -> nat
    decreases rows.len(),
{
    if rows.len() == 0 {
        0
    } else {
        pending_count(rows.drop_last()) + (if rows.last().status == Status::Pending {
            1nat
        } else {
            0nat
        })
    }
}

/// Whether `found` is the first of `rows` that carries `number`, or nothing where none does.
pub open spec fn is_first_match(rows: Seq<Submission>, number: Seq<char>, found: Option<Submission>) -> bool {
    match found {
        Some(row) => exists|i: int|
            0 <= i < rows.len() && rows[i] == row && rows[i].ch_submission_id@ == number && forall|j: int|
                0 <= j < i ==> rows[j].ch_submission_id@ != number,
        None => forall|i: int| 0 <= i < rows.len() ==> rows[i].ch_submission_id@ != number,
    }
}

/// `rows` with every row of `submission`'s identifier replaced by `submission`.
pub open spec fn updated(rows: Seq<Submission>, submission: Submission) -> Seq<Submission> {
    rows.map_values(
        |row: Submission|
            if row.id == submission.id {
                submission
            } else {
                row
            },
    )
}

/// No row counts where no row matches, and the other way round.
pub proof fn lemma_recent_count_zero(rows: Seq<Submission>, number: Seq<char>, since: Timestamp)
    ensures
        recent_count(rows, number, since) == 0 <==> forall|i: int|
            0 <= i < rows.len() ==> !is_recent(rows[i], number, since),
        recent_count(rows, number, since) <= rows.len(),
    decreases rows.len(),
{
    if rows.len() > 0 {
        lemma_recent_count_zero(rows.drop_last(), number, since);
        if recent_count(rows, number, since) == 0 {
            assert forall|i: int| 0 <= i < rows.len() implies !is_recent(rows[i], number, since) by {
                if i < rows.len() - 1 {
                    assert(rows.drop_last()[i] == rows[i]);
                }
            }
        } else if forall|i: int| 0 <= i < rows.len() ==> !is_recent(rows[i], number, since) {
            assert(forall|i: int|
                0 <= i < rows.drop_last().len() ==> !is_recent(rows.drop_last()[i], number, since));
        }
    }
}

impl Store {
    /// A store with three empty tables.
    pub fn new() -> (r: Self)
        ensures
            r.submissions@.len() == 0,
            r.submission_rejections@.len() == 0,
            r.documents@.len() == 0,
    {
        Store { submissions: Vec::new(), submission_rejections: Vec::new(), documents: Vec::new() }
    }

    /// How many submissions are pending.
    pub fn count_pending(&self) -> (n: usize)
        ensures
            n == pending_count(self.submissions@),
    {
        let mut n: usize = 0;
        let mut i: usize = 0;
        while i < self.submissions.len()
            invariant
                i <= self.submissions.len(),
                n == pending_count(self.submissions@.take(i as int)),
                n <= i,
            decreases self.submissions.len() - i,
        {
            proof {
                assert(self.submissions@.take(i + 1).drop_last() == self.submissions@.take(i as int));
            }
            if self.submissions[i].status == Status::Pending {
                n += 1;
            }
            i += 1;
        }
        proof {
            assert(self.submissions@.take(i as int) == self.submissions@);
        }
        n
    }

    /// How many submissions carry `number` and were received at or after `since`.
    pub fn count_recent(&self, number: &str, since: Timestamp) -> (n: usize)
        ensures
            n == recent_count(self.submissions@, number@, since),
    {
        let mut n: usize = 0;
        let mut i: usize = 0;
        while i < self.submissions.len()
            invariant
                i <= self.submissions.len(),
                n == recent_count(self.submissions@.take(i as int), number@, since),
                n <= i,
            decreases self.submissions.len() - i,
        {
            proof {
                assert(self.submissions@.take(i + 1).drop_last() == self.submissions@.take(i as int));
            }
            let row = &self.submissions[i];
            if same(row.ch_submission_id.as_str(), number) && row.received_timestamp.at_or_after(since) {
                n += 1;
            }
            i += 1;
        }
        proof {
            assert(self.submissions@.take(i as int) == self.submissions@);
        }
        n
    }

    /// The first submission that carries `number`.
    pub fn find(&self, number: &str) -> (r: Option<Submission>)
        ensures
            is_first_match(self.submissions@, number@, r),
    {
        let mut i: usize = 0;
        while i < self.submissions.len()
            invariant
                i <= self.submissions.len(),
                forall|j: int| 0 <= j < i ==> self.submissions@[j].ch_submission_id@ != number@,
            decreases self.submissions.len() - i,
        {
            if same(self.submissions[i].ch_submission_id.as_str(), number) {
                return Some(self.submissions[i].clone());
            }
            i += 1;
        }
        None
    }

    /// Adds a submission.
    pub fn insert_submission(&mut self, submission: Submission)
        ensures
            final(self).submissions@ == old(self).submissions@.push(submission),
            final(self).submission_rejections == old(self).submission_rejections,
            final(self).documents == old(self).documents,
    {
        self.submissions.push(submission);
    }

    /// Adds a document.
    pub fn insert_document(&mut self, document: Documents)
        ensures
            final(self).documents@ == old(self).documents@.push(document),
            final(self).submissions == old(self).submissions,
            final(self).submission_rejections == old(self).submission_rejections,
    {
        self.documents.push(document);
    }

    /// Writes back one reconciled submission together with its new rejections:
    /// the row of the same identifier is replaced and the rejections are added
    /// behind those already there, in one step.
    pub fn persist(&mut self, submission: Submission, rejections: Vec<SubmissionRejection>)
        ensures
            final(self).submissions@ == updated(old(self).submissions@, submission),
            final(self).submission_rejections@ == old(self).submission_rejections@ + rejections@,
            final(self).documents == old(self).documents,
    {
        let mut i: usize = 0;
        while i < self.submissions.len()
            invariant
                i <= self.submissions.len(),
                self.submissions@.len() == old(self).submissions@.len(),
                forall|j: int|
                    0 <= j < i ==> self.submissions@[j] == updated(old(self).submissions@, submission)[j],
                forall|j: int|
                    i <= j < self.submissions@.len() ==> self.submissions@[j] == old(self).submissions@[j],
                self.submission_rejections == old(self).submission_rejections,
                self.documents == old(self).documents,
            decreases self.submissions.len() - i,
        {
            if self.submissions[i].id == submission.id {
                self.submissions[i] = submission.clone();
            }
            i += 1;
        }
        let mut rejections = rejections;
        self.submission_rejections.append(&mut rejections);
    }
}

} // verus!
