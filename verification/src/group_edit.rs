//! Single-kind batch results for group membership and adminship edits.
//!
//! Group member and admin add/remove operations only ever target accounts,
//! so their batch result specializes the two-kind aggregation to a single
//! `(succeeded, failed)` pair of user sequences; there are no group-shaped
//! fields in this result.

use vstd::prelude::*;
use crate::access::FailView;
use crate::ids::UserId;

verus! {

/// The engine's outcome for one user targeted by a group edit.
#[derive(Debug, Clone, PartialEq, Eq)]
pub enum UserAccessOutcome {
    Succeeded { id: UserId },
    Failed { id: UserId, err: String },
}

/// Mathematical model of a [`UserAccessOutcome`].
pub enum UserOutcomeView {
    Succeeded { id: Seq<char> },
    Failed { id: Seq<char>, err: Seq<char> },
}

impl View for UserAccessOutcome {
    type V = UserOutcomeView;

    open spec fn view(&self) -> UserOutcomeView {
        match self {
            UserAccessOutcome::Succeeded { id } => UserOutcomeView::Succeeded { id: id@ },
            UserAccessOutcome::Failed { id, err } => UserOutcomeView::Failed {
                id: id@,
                err: err@,
            },
        }
    }
}

pub open spec fn user_outcome_views(s: Seq<UserAccessOutcome>) -> Seq<UserOutcomeView> {
    s.map_values(|o: UserAccessOutcome| o@)
}

/// Ids of the succeeded outcomes, in input order.
pub open spec fn succeeded_ids(s: Seq<UserOutcomeView>) -> Seq<Seq<char>>
    decreases s.len(),
{
    if s.len() == 0 {
        Seq::empty()
    } else {
        let rest = succeeded_ids(s.drop_last());
        match s.last() {
            UserOutcomeView::Succeeded { id } => rest.push(id),
            _ => rest,
        }
    }
}

/// Failure entries of the failed outcomes, in input order.
pub open spec fn failed_entries(s: Seq<UserOutcomeView>) -> Seq<FailView>
    decreases s.len(),
{
    if s.len() == 0 {
        Seq::empty()
    } else {
        let rest = failed_entries(s.drop_last());
        match s.last() {
            UserOutcomeView::Failed { id, err } => rest.push(FailView { id, err }),
            _ => rest,
        }
    }
}

/// One user's failure within a group edit: the user and the error message.
#[derive(Debug, Clone, PartialEq)]
pub struct GroupAccessEditErr {
    user: UserId,
    error: String,
}

impl View for GroupAccessEditErr {
    type V = FailView;

    closed spec fn view(&self) -> FailView {
        FailView { id: self.user@, err: self.error@ }
    }
}

impl GroupAccessEditErr {
    /// The user whose entry failed.
    pub fn user(&self) -> (r: UserId)
        ensures
            r@ == self@.id,
    {
        self.user.duplicate()
    }

    /// The error message attached to the failure.
    pub fn error(&self) -> (r: String)
        ensures
            r@ == self@.err,
    {
        self.error.clone()
    }
}

pub open spec fn edit_err_views(s: Seq<GroupAccessEditErr>) -> Seq<FailView> {
    s.map_values(|e: GroupAccessEditErr| e@)
}

/// The single-kind batch result of a group membership or adminship edit.
#[derive(Debug)]
pub struct GroupAccessEditResult {
    succeeded: Vec<UserId>,
    failed: Vec<GroupAccessEditErr>,
}

/// Mathematical model of a [`GroupAccessEditResult`].
pub struct GroupEditView {
    pub succeeded: Seq<Seq<char>>,
    pub failed: Seq<FailView>,
}

impl View for GroupAccessEditResult {
    type V = GroupEditView;

    closed spec fn view(&self) -> GroupEditView {
        GroupEditView {
            succeeded: crate::access::user_id_views(self.succeeded@),
            failed: edit_err_views(self.failed@),
        }
    }
}

impl GroupAccessEditResult {
    /// Ids of the users whose entries succeeded, in input order.
    pub fn succeeded(&self) -> (r: Vec<UserId>)
        ensures
            crate::access::user_id_views(r@) == self@.succeeded,
    {
        let mut out: Vec<UserId> = Vec::new();
        let mut i: usize = 0;
        while i < self.succeeded.len()
            invariant
                i <= self.succeeded@.len(),
                out@.len() == i,
                forall|j: int| 0 <= j < i ==> out@[j]@ == self.succeeded@[j]@,
            decreases self.succeeded@.len() - i,
        {
            out.push(self.succeeded[i].duplicate());
            i += 1;
        }
        proof {
            assert(crate::access::user_id_views(out@) =~= crate::access::user_id_views(
                self.succeeded@,
            ));
        }
        out
    }

    /// The failed entries, in input order.
    pub fn failed(&self) -> (r: Vec<GroupAccessEditErr>)
        ensures
            edit_err_views(r@) == self@.failed,
    {
        let mut out: Vec<GroupAccessEditErr> = Vec::new();
        let mut i: usize = 0;
        while i < self.failed.len()
            invariant
                i <= self.failed@.len(),
                out@.len() == i,
                forall|j: int| 0 <= j < i ==> out@[j]@ == self.failed@[j]@,
            decreases self.failed@.len() - i,
        {
            let e = &self.failed[i];
            out.push(GroupAccessEditErr { user: e.user.duplicate(), error: e.error.clone() });
            i += 1;
        }
        proof {
            assert(edit_err_views(out@) =~= edit_err_views(self.failed@));
        }
        out
    }
}

/// Appending one outcome extends exactly the sequence of its status, at the
/// end, and leaves the other unchanged: the single-kind step law.
pub proof fn lemma_user_partition_append(s: Seq<UserOutcomeView>, o: UserOutcomeView)
    ensures
        (match o {
            UserOutcomeView::Succeeded { id } => succeeded_ids(s.push(o)) == succeeded_ids(s).push(
                id,
            ) && failed_entries(s.push(o)) == failed_entries(s),
            UserOutcomeView::Failed { id, err } => failed_entries(s.push(o)) == failed_entries(
                s,
            ).push(FailView { id, err }) && succeeded_ids(s.push(o)) == succeeded_ids(s),
        }),
{
    assert(s.push(o).drop_last() =~= s);
    assert(s.push(o).last() == o);
}

/// The single-kind partition is total: every outcome lands in exactly one of
/// the two sequences, so their lengths sum to the input's length.
pub proof fn lemma_user_partition_total(s: Seq<UserOutcomeView>)
    ensures
        succeeded_ids(s).len() + failed_entries(s).len() == s.len(),
    decreases s.len(),
{
    if s.len() > 0 {
        lemma_user_partition_total(s.drop_last());
    }
}

/// Partition a sequence of single-kind outcomes into the succeeded ids and
/// the failure entries, preserving input order within each.
pub fn aggregate_user_outcomes(outcomes: &[UserAccessOutcome]) -> (r: GroupAccessEditResult)
    ensures
        r@.succeeded == succeeded_ids(user_outcome_views(outcomes@)),
        r@.failed == failed_entries(user_outcome_views(outcomes@)),
{
    let mut succeeded: Vec<UserId> = Vec::new();
    let mut failed: Vec<GroupAccessEditErr> = Vec::new();
    let mut i: usize = 0;
    while i < outcomes.len()
        invariant
            i <= outcomes@.len(),
            crate::access::user_id_views(succeeded@) == succeeded_ids(
                user_outcome_views(outcomes@.take(i as int)),
            ),
            edit_err_views(failed@) == failed_entries(
                user_outcome_views(outcomes@.take(i as int)),
            ),
        decreases outcomes@.len() - i,
    {
        proof {
            assert(user_outcome_views(outcomes@.take(i + 1)) =~= user_outcome_views(
                outcomes@.take(i as int),
            ).push(outcomes@[i as int]@));
            lemma_user_partition_append(
                user_outcome_views(outcomes@.take(i as int)),
                outcomes@[i as int]@,
            );
        }
        match &outcomes[i] {
            UserAccessOutcome::Succeeded { id } => {
                succeeded.push(id.duplicate());
                proof {
                    assert(crate::access::user_id_views(succeeded@) =~= succeeded_ids(
                        user_outcome_views(outcomes@.take(i + 1)),
                    ));
                }
            },
            UserAccessOutcome::Failed { id, err } => {
                failed.push(GroupAccessEditErr { user: id.duplicate(), error: err.clone() });
                proof {
                    assert(edit_err_views(failed@) =~= failed_entries(
                        user_outcome_views(outcomes@.take(i + 1)),
                    ));
                }
            },
        }
        i += 1;
    }
    proof {
        assert(outcomes@.take(outcomes@.len() as int) =~= outcomes@);
    }
    GroupAccessEditResult { succeeded, failed }
}

/// Carrier for a group's optional member or admin list: the boundary cannot
/// pass a nullable sequence directly, so presence is carried by wrapping the
/// sequence in a single-field type.
#[derive(Debug)]
pub struct GroupUserList {
    list: Vec<UserId>,
}

impl View for GroupUserList {
    type V = Seq<Seq<char>>;

    closed spec fn view(&self) -> Seq<Seq<char>> {
        crate::access::user_id_views(self.list@)
    }
}

impl GroupUserList {
    /// Wrap a present list of users.
    pub fn new(list: Vec<UserId>) -> (r: GroupUserList)
        ensures
            r@ == crate::access::user_id_views(list@),
    {
        GroupUserList { list }
    }

    /// The wrapped list of users.
    pub fn list(&self) -> (r: Vec<UserId>)
        ensures
            crate::access::user_id_views(r@) == self@,
    {
        let mut out: Vec<UserId> = Vec::new();
        let mut i: usize = 0;
        while i < self.list.len()
            invariant
                i <= self.list@.len(),
                out@.len() == i,
                forall|j: int| 0 <= j < i ==> out@[j]@ == self.list@[j]@,
            decreases self.list@.len() - i,
        {
            out.push(self.list[i].duplicate());
            i += 1;
        }
        proof {
            assert(crate::access::user_id_views(out@) =~= crate::access::user_id_views(
                self.list@,
            ));
        }
        out
    }
}

} // verus!
