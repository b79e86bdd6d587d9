//! Aggregation of batch access-change results.
//!
//! A batch access-control call targets a list of entities, each either a user
//! or a group, and the engine reports one outcome per entity: succeeded, or
//! failed with a message. The boundary cannot carry tagged unions, so the
//! outcomes are lowered into two records of four sequences, partitioned by
//! (kind, status). The partition is total and stable: every outcome lands in
//! exactly one sequence, and same-group outcomes keep their relative order.

use vstd::prelude::*;
use crate::ids::{GroupId, UserId};

verus! {

/// A batch target or outcome tag: a user's account id or a group id.
#[derive(Debug, Clone, PartialEq, Eq)]
pub enum UserOrGroup {
    User { id: UserId },
    Group { id: GroupId },
}

/// Mathematical model of a [`UserOrGroup`].
pub enum EntityView {
    User { id: Seq<char> },
    Group { id: Seq<char> },
}

impl View for UserOrGroup {
    type V = EntityView;

    open spec fn view(&self) -> EntityView {
        match self {
            UserOrGroup::User { id } => EntityView::User { id: id@ },
            UserOrGroup::Group { id } => EntityView::Group { id: id@ },
        }
    }
}

/// The engine's outcome for one targeted entity of a batch call.
#[derive(Debug, Clone, PartialEq, Eq)]
pub enum AccessChangeOutcome {
    Succeeded { target: UserOrGroup },
    Failed { target: UserOrGroup, err: String },
}

/// Mathematical model of an [`AccessChangeOutcome`].
pub enum OutcomeView {
    Succeeded { target: EntityView },
    Failed { target: EntityView, err: Seq<char> },
}

impl View for AccessChangeOutcome {
    type V = OutcomeView;

    open spec fn view(&self) -> OutcomeView {
        match self {
            AccessChangeOutcome::Succeeded { target } => OutcomeView::Succeeded {
                target: target@,
            },
            AccessChangeOutcome::Failed { target, err } => OutcomeView::Failed {
                target: target@,
                err: err@,
            },
        }
    }
}

/// A per-entity failure reported by the engine, tagged by entity kind.
#[derive(Debug, Clone, PartialEq, Eq)]
pub struct DocAccessEditErr {
    pub user_or_group: UserOrGroup,
    pub err: String,
}

/// Mathematical model of a [`DocAccessEditErr`].
pub struct AccessErrView {
    pub target: EntityView,
    pub err: Seq<char>,
}

impl View for DocAccessEditErr {
    type V = AccessErrView;

    open spec fn view(&self) -> AccessErrView {
        AccessErrView { target: self.user_or_group@, err: self.err@ }
    }
}

/// Model of one failure entry: the entity's id and the error message.
pub struct FailView {
    pub id: Seq<char>,
    pub err: Seq<char>,
}

/// A failed user entry of a batch result.
#[derive(Debug, Clone, PartialEq)]
pub struct UserAccessErr {
    id: UserId,
    err: String,
}

impl View for UserAccessErr {
    type V = FailView;

    closed spec fn view(&self) -> FailView {
        FailView { id: self.id@, err: self.err@ }
    }
}

impl UserAccessErr {
    /// The id of the user whose entry failed.
    pub fn id(&self) -> (r: UserId)
        ensures
            r@ == self@.id,
    {
        self.id.duplicate()
    }

    /// The error message attached to the failure.
    pub fn err(&self) -> (r: String)
        ensures
            r@ == self@.err,
    {
        self.err.clone()
    }
}

/// A failed group entry of a batch result.
#[derive(Debug, Clone, PartialEq)]
pub struct GroupAccessErr {
    id: GroupId,
    err: String,
}

impl View for GroupAccessErr {
    type V = FailView;

    closed spec fn view(&self) -> FailView {
        FailView { id: self.id@, err: self.err@ }
    }
}

impl GroupAccessErr {
    /// The id of the group whose entry failed.
    pub fn id(&self) -> (r: GroupId)
        ensures
            r@ == self@.id,
    {
        self.id.duplicate()
    }

    /// The error message attached to the failure.
    pub fn err(&self) -> (r: String)
        ensures
            r@ == self@.err,
    {
        self.err.clone()
    }
}

// View helpers over sequences of exec values.

pub open spec fn user_id_views(s: Seq<UserId>) -> Seq<Seq<char>> {
    s.map_values(|u: UserId| u@)
}

pub open spec fn group_id_views(s: Seq<GroupId>) -> Seq<Seq<char>> {
    s.map_values(|g: GroupId| g@)
}

pub open spec fn user_err_views(s: Seq<UserAccessErr>) -> Seq<FailView> {
    s.map_values(|e: UserAccessErr| e@)
}

pub open spec fn group_err_views(s: Seq<GroupAccessErr>) -> Seq<FailView> {
    s.map_values(|e: GroupAccessErr| e@)
}

pub open spec fn entity_views(s: Seq<UserOrGroup>) -> Seq<EntityView> {
    s.map_values(|e: UserOrGroup| e@)
}

pub open spec fn outcome_views(s: Seq<AccessChangeOutcome>) -> Seq<OutcomeView> {
    s.map_values(|o: AccessChangeOutcome| o@)
}

pub open spec fn access_err_views(s: Seq<DocAccessEditErr>) -> Seq<AccessErrView> {
    s.map_values(|e: DocAccessEditErr| e@)
}

// The partition of an outcome sequence, one spec function per (kind, status)
// group. Each walks the input in order and appends matching entries, so each
// output is the order-preserving selection of its group.

pub open spec fn succeeded_user_ids(s: Seq<OutcomeView>) -> Seq<Seq<char>>
    decreases s.len(),
{
    if s.len() == 0 {
        Seq::empty()
    } else {
        let rest = succeeded_user_ids(s.drop_last());
        match s.last() {
            OutcomeView::Succeeded { target: EntityView::User { id } } => rest.push(id),
            _ => rest,
        }
    }
}

pub open spec fn succeeded_group_ids(s: Seq<OutcomeView>) -> Seq<Seq<char>>
    decreases s.len(),
{
    if s.len() == 0 {
        Seq::empty()
    } else {
        let rest = succeeded_group_ids(s.drop_last());
        match s.last() {
            OutcomeView::Succeeded { target: EntityView::Group { id } } => rest.push(id),
            _ => rest,
        }
    }
}

pub open spec fn failed_user_errs(s: Seq<OutcomeView>) -> Seq<FailView>
    decreases s.len(),
{
    if s.len() == 0 {
        Seq::empty()
    } else {
        let rest = failed_user_errs(s.drop_last());
        match s.last() {
            OutcomeView::Failed { target: EntityView::User { id }, err } => rest.push(
                FailView { id, err },
            ),
            _ => rest,
        }
    }
}

pub open spec fn failed_group_errs(s: Seq<OutcomeView>) -> Seq<FailView>
    decreases s.len(),
{
    if s.len() == 0 {
        Seq::empty()
    } else {
        let rest = failed_group_errs(s.drop_last());
        match s.last() {
            OutcomeView::Failed { target: EntityView::Group { id }, err } => rest.push(
                FailView { id, err },
            ),
            _ => rest,
        }
    }
}

// The same partition restricted to a list of succeeded entities.

pub open spec fn user_ids_of(s: Seq<EntityView>) -> Seq<Seq<char>>
    decreases s.len(),
{
    if s.len() == 0 {
        Seq::empty()
    } else {
        let rest = user_ids_of(s.drop_last());
        match s.last() {
            EntityView::User { id } => rest.push(id),
            _ => rest,
        }
    }
}

pub open spec fn group_ids_of(s: Seq<EntityView>) -> Seq<Seq<char>>
    decreases s.len(),
{
    if s.len() == 0 {
        Seq::empty()
    } else {
        let rest = group_ids_of(s.drop_last());
        match s.last() {
            EntityView::Group { id } => rest.push(id),
            _ => rest,
        }
    }
}

// The same partition restricted to a list of failure entries.

pub open spec fn user_errs_of(s: Seq<AccessErrView>) -> Seq<FailView>
    decreases s.len(),
{
    if s.len() == 0 {
        Seq::empty()
    } else {
        let rest = user_errs_of(s.drop_last());
        match s.last().target {
            EntityView::User { id } => rest.push(FailView { id, err: s.last().err }),
            _ => rest,
        }
    }
}

pub open spec fn group_errs_of(s: Seq<AccessErrView>) -> Seq<FailView>
    decreases s.len(),
{
    if s.len() == 0 {
        Seq::empty()
    } else {
        let rest = group_errs_of(s.drop_last());
        match s.last().target {
            EntityView::Group { id } => rest.push(FailView { id, err: s.last().err }),
            _ => rest,
        }
    }
}

/// The succeeded half of a batch result: ids of the users and groups whose
/// entries the engine reported as succeeded, in input order.
#[derive(Debug)]
pub struct SucceededResult {
    users: Vec<UserId>,
    groups: Vec<GroupId>,
}

/// Mathematical model of a [`SucceededResult`].
pub struct SucceededView {
    pub users: Seq<Seq<char>>,
    pub groups: Seq<Seq<char>>,
}

impl View for SucceededResult {
    type V = SucceededView;

    closed spec fn view(&self) -> SucceededView {
        SucceededView { users: user_id_views(self.users@), groups: group_id_views(self.groups@) }
    }
}

/// The failed half of a batch result: per-entity failures of the users and
/// groups whose entries the engine reported as failed, in input order.
#[derive(Debug)]
pub struct FailedResult {
    users: Vec<UserAccessErr>,
    groups: Vec<GroupAccessErr>,
}

/// Mathematical model of a [`FailedResult`].
pub struct FailedView {
    pub users: Seq<FailView>,
    pub groups: Seq<FailView>,
}

impl View for FailedResult {
    type V = FailedView;

    closed spec fn view(&self) -> FailedView {
        FailedView { users: user_err_views(self.users@), groups: group_err_views(self.groups@) }
    }
}

fn copy_user_ids(v: &Vec<UserId>) -> (r: Vec<UserId>)
    ensures
        user_id_views(r@) == user_id_views(v@),
{
    let mut out: Vec<UserId> = Vec::new();
    let mut i: usize = 0;
    while i < v.len()
        invariant
            i <= v@.len(),
            out@.len() == i,
            forall|j: int| 0 <= j < i ==> out@[j]@ == v@[j]@,
        decreases v@.len() - i,
    {
        out.push(v[i].duplicate());
        i += 1;
    }
    proof {
        assert(user_id_views(out@) =~= user_id_views(v@));
    }
    out
}

fn copy_group_ids(v: &Vec<GroupId>) -> (r: Vec<GroupId>)
    ensures
        group_id_views(r@) == group_id_views(v@),
{
    let mut out: Vec<GroupId> = Vec::new();
    let mut i: usize = 0;
    while i < v.len()
        invariant
            i <= v@.len(),
            out@.len() == i,
            forall|j: int| 0 <= j < i ==> out@[j]@ == v@[j]@,
        decreases v@.len() - i,
    {
        out.push(v[i].duplicate());
        i += 1;
    }
    proof {
        assert(group_id_views(out@) =~= group_id_views(v@));
    }
    out
}

impl SucceededResult {
    /// Ids of the users whose entries succeeded, in input order.
    pub fn users(&self) -> (r: Vec<UserId>)
        ensures
            user_id_views(r@) == self@.users,
    {
        copy_user_ids(&self.users)
    }

    /// Ids of the groups whose entries succeeded, in input order.
    pub fn groups(&self) -> (r: Vec<GroupId>)
        ensures
            group_id_views(r@) == self@.groups,
    {
        copy_group_ids(&self.groups)
    }
}

impl FailedResult {
    /// True exactly when both the user and the group failure sequences are
    /// empty, i.e. when no targeted entity failed.
    pub fn is_empty(&self) -> (r: bool)
        ensures
            r == (self@.users.len() == 0 && self@.groups.len() == 0),
    {
        self.users.len() == 0 && self.groups.len() == 0
    }

    /// The failed user entries, in input order.
    pub fn users(&self) -> (r: Vec<UserAccessErr>)
        ensures
            user_err_views(r@) == self@.users,
    {
        let mut out: Vec<UserAccessErr> = Vec::new();
        let mut i: usize = 0;
        while i < self.users.len()
            invariant
                i <= self.users@.len(),
                out@.len() == i,
                forall|j: int| 0 <= j < i ==> out@[j]@ == self.users@[j]@,
            decreases self.users@.len() - i,
        {
            let e = &self.users[i];
            out.push(UserAccessErr { id: e.id.duplicate(), err: e.err.clone() });
            i += 1;
        }
        proof {
            assert(user_err_views(out@) =~= user_err_views(self.users@));
        }
        out
    }

    /// The failed group entries, in input order.
    pub fn groups(&self) -> (r: Vec<GroupAccessErr>)
        ensures
            group_err_views(r@) == self@.groups,
    {
        let mut out: Vec<GroupAccessErr> = Vec::new();
        let mut i: usize = 0;
        while i < self.groups.len()
            invariant
                i <= self.groups@.len(),
                out@.len() == i,
                forall|j: int| 0 <= j < i ==> out@[j]@ == self.groups@[j]@,
            decreases self.groups@.len() - i,
        {
            let e = &self.groups[i];
            out.push(GroupAccessErr { id: e.id.duplicate(), err: e.err.clone() });
            i += 1;
        }
        proof {
            assert(group_err_views(out@) =~= group_err_views(self.groups@));
        }
        out
    }
}

/// Appending one outcome extends exactly the output sequence of its
/// (kind, status) group, at the end, and leaves the other three unchanged.
/// This is the step law behind the partition's totality and stability.
pub proof fn lemma_partition_append(s: Seq<OutcomeView>, o: OutcomeView)
    ensures
        (match o {
            OutcomeView::Succeeded { target: EntityView::User { id } } => succeeded_user_ids(
                s.push(o),
            ) == succeeded_user_ids(s).push(id) && succeeded_group_ids(s.push(o))
                == succeeded_group_ids(s) && failed_user_errs(s.push(o)) == failed_user_errs(s)
                && failed_group_errs(s.push(o)) == failed_group_errs(s),
            OutcomeView::Succeeded { target: EntityView::Group { id } } => succeeded_group_ids(
                s.push(o),
            ) == succeeded_group_ids(s).push(id) && succeeded_user_ids(s.push(o))
                == succeeded_user_ids(s) && failed_user_errs(s.push(o)) == failed_user_errs(s)
                && failed_group_errs(s.push(o)) == failed_group_errs(s),
            OutcomeView::Failed { target: EntityView::User { id }, err } => failed_user_errs(
                s.push(o),
            ) == failed_user_errs(s).push(FailView { id, err }) && succeeded_user_ids(s.push(o))
                == succeeded_user_ids(s) && succeeded_group_ids(s.push(o)) == succeeded_group_ids(s)
                && failed_group_errs(s.push(o)) == failed_group_errs(s),
            OutcomeView::Failed { target: EntityView::Group { id }, err } => failed_group_errs(
                s.push(o),
            ) == failed_group_errs(s).push(FailView { id, err }) && succeeded_user_ids(s.push(o))
                == succeeded_user_ids(s) && succeeded_group_ids(s.push(o)) == succeeded_group_ids(s)
                && failed_user_errs(s.push(o)) == failed_user_errs(s),
        }),
{
    assert(s.push(o).drop_last() =~= s);
    assert(s.push(o).last() == o);
}

/// The partition is total: the four output sequences together hold exactly
/// one entry per outcome, so their lengths sum to the input's length.
pub proof fn lemma_partition_total(s: Seq<OutcomeView>)
    ensures
        succeeded_user_ids(s).len() + succeeded_group_ids(s).len() + failed_user_errs(s).len()
            + failed_group_errs(s).len() == s.len(),
    decreases s.len(),
{
    if s.len() > 0 {
        lemma_partition_total(s.drop_last());
    }
}

/// The partition is stable: on a prefix of the input, each group's output is
/// a prefix of that group's output on the whole input. Outcomes arriving
/// later in the input only ever append later in their group, so relative
/// order within each group follows input order.
pub proof fn lemma_partition_stable(s: Seq<OutcomeView>, n: int)
    requires
        0 <= n <= s.len(),
    ensures
        succeeded_user_ids(s.take(n)).is_prefix_of(succeeded_user_ids(s)),
        succeeded_group_ids(s.take(n)).is_prefix_of(succeeded_group_ids(s)),
        failed_user_errs(s.take(n)).is_prefix_of(failed_user_errs(s)),
        failed_group_errs(s.take(n)).is_prefix_of(failed_group_errs(s)),
    decreases s.len() - n,
{
    if n == s.len() {
        assert(s.take(n) =~= s);
    } else {
        lemma_partition_stable(s, n + 1);
        assert(s.take(n + 1) =~= s.take(n).push(s[n]));
        lemma_partition_append(s.take(n), s[n]);
    }
}

/// Combine the separate user and group target lists of a batch call into the
/// single tagged list the engine consumes: every user first, then every
/// group, each keeping its input order.
pub fn to_target_list(users: &[UserId], groups: &[GroupId]) -> (r: Vec<UserOrGroup>)
    ensures
        r@.len() == users@.len() + groups@.len(),
        forall|i: int| 0 <= i < users@.len() ==> r@[i]@ == (EntityView::User { id: users@[i]@ }),
        forall|j: int|
            0 <= j < groups@.len() ==> r@[users@.len() + j]@ == (EntityView::Group {
                id: groups@[j]@,
            }),
{
    let mut out: Vec<UserOrGroup> = Vec::new();
    let mut i: usize = 0;
    while i < users.len()
        invariant
            i <= users@.len(),
            out@.len() == i,
            forall|k: int| 0 <= k < i ==> out@[k]@ == (EntityView::User { id: users@[k]@ }),
        decreases users@.len() - i,
    {
        out.push(UserOrGroup::User { id: users[i].duplicate() });
        i += 1;
    }
    let mut j: usize = 0;
    while j < groups.len()
        invariant
            j <= groups@.len(),
            out@.len() == users@.len() + j,
            forall|k: int| 0 <= k < users@.len() ==> out@[k]@ == (EntityView::User {
                id: users@[k]@,
            }),
            forall|k: int|
                0 <= k < j ==> out@[users@.len() + k]@ == (EntityView::Group {
                    id: groups@[k]@,
                }),
        decreases groups@.len() - j,
    {
        out.push(UserOrGroup::Group { id: groups[j].duplicate() });
        j += 1;
    }
    out
}

/// Partition a sequence of engine outcomes into the two boundary records in
/// a single pass: each outcome is appended to exactly the sequence of its
/// (kind, status) pair, in input order.
pub fn aggregate(outcomes: &[AccessChangeOutcome]) -> (r: (SucceededResult, FailedResult))
    ensures
        r.0@.users == succeeded_user_ids(outcome_views(outcomes@)),
        r.0@.groups == succeeded_group_ids(outcome_views(outcomes@)),
        r.1@.users == failed_user_errs(outcome_views(outcomes@)),
        r.1@.groups == failed_group_errs(outcome_views(outcomes@)),
{
    let mut su: Vec<UserId> = Vec::new();
    let mut sg: Vec<GroupId> = Vec::new();
    let mut fu: Vec<UserAccessErr> = Vec::new();
    let mut fg: Vec<GroupAccessErr> = Vec::new();
    let mut i: usize = 0;
    while i < outcomes.len()
        invariant
            i <= outcomes@.len(),
            user_id_views(su@) == succeeded_user_ids(outcome_views(outcomes@.take(i as int))),
            group_id_views(sg@) == succeeded_group_ids(outcome_views(outcomes@.take(i as int))),
            user_err_views(fu@) == failed_user_errs(outcome_views(outcomes@.take(i as int))),
            group_err_views(fg@) == failed_group_errs(outcome_views(outcomes@.take(i as int))),
        decreases outcomes@.len() - i,
    {
        proof {
            assert(outcome_views(outcomes@.take(i + 1)) =~= outcome_views(
                outcomes@.take(i as int),
            ).push(outcomes@[i as int]@));
            lemma_partition_append(outcome_views(outcomes@.take(i as int)), outcomes@[i as int]@);
        }
        match &outcomes[i] {
            AccessChangeOutcome::Succeeded { target } => match target {
                UserOrGroup::User { id } => {
                    su.push(id.duplicate());
                    proof {
                        assert(user_id_views(su@) =~= succeeded_user_ids(
                            outcome_views(outcomes@.take(i + 1)),
                        ));
                    }
                },
                UserOrGroup::Group { id } => {
                    sg.push(id.duplicate());
                    proof {
                        assert(group_id_views(sg@) =~= succeeded_group_ids(
                            outcome_views(outcomes@.take(i + 1)),
                        ));
                    }
                },
            },
            AccessChangeOutcome::Failed { target, err } => match target {
                UserOrGroup::User { id } => {
                    fu.push(UserAccessErr { id: id.duplicate(), err: err.clone() });
                    proof {
                        assert(user_err_views(fu@) =~= failed_user_errs(
                            outcome_views(outcomes@.take(i + 1)),
                        ));
                    }
                },
                UserOrGroup::Group { id } => {
                    fg.push(GroupAccessErr { id: id.duplicate(), err: err.clone() });
                    proof {
                        assert(group_err_views(fg@) =~= failed_group_errs(
                            outcome_views(outcomes@.take(i + 1)),
                        ));
                    }
                },
            },
        }
        i += 1;
    }
    proof {
        assert(outcomes@.take(outcomes@.len() as int) =~= outcomes@);
    }
    (SucceededResult { users: su, groups: sg }, FailedResult { users: fu, groups: fg })
}

/// Partition the engine's list of succeeded entities by kind, preserving
/// input order within each kind.
pub fn to_succeeded_result(successes: &[UserOrGroup]) -> (r: SucceededResult)
    ensures
        r@.users == user_ids_of(entity_views(successes@)),
        r@.groups == group_ids_of(entity_views(successes@)),
{
    let mut users: Vec<UserId> = Vec::new();
    let mut groups: Vec<GroupId> = Vec::new();
    let mut i: usize = 0;
    while i < successes.len()
        invariant
            i <= successes@.len(),
            user_id_views(users@) == user_ids_of(entity_views(successes@.take(i as int))),
            group_id_views(groups@) == group_ids_of(entity_views(successes@.take(i as int))),
        decreases successes@.len() - i,
    {
        proof {
            let prev = entity_views(successes@.take(i as int));
            assert(entity_views(successes@.take(i + 1)) =~= prev.push(successes@[i as int]@));
            assert(prev.push(successes@[i as int]@).drop_last() =~= prev);
        }
        match &successes[i] {
            UserOrGroup::User { id } => {
                users.push(id.duplicate());
                proof {
                    assert(user_id_views(users@) =~= user_ids_of(
                        entity_views(successes@.take(i + 1)),
                    ));
                }
            },
            UserOrGroup::Group { id } => {
                groups.push(id.duplicate());
                proof {
                    assert(group_id_views(groups@) =~= group_ids_of(
                        entity_views(successes@.take(i + 1)),
                    ));
                }
            },
        }
        i += 1;
    }
    proof {
        assert(successes@.take(successes@.len() as int) =~= successes@);
    }
    SucceededResult { users, groups }
}

/// Partition the engine's list of per-entity failures by kind, preserving
/// input order within each kind.
pub fn to_failed_result(access_errs: &[DocAccessEditErr]) -> (r: FailedResult)
    ensures
        r@.users == user_errs_of(access_err_views(access_errs@)),
        r@.groups == group_errs_of(access_err_views(access_errs@)),
{
    let mut users: Vec<UserAccessErr> = Vec::new();
    let mut groups: Vec<GroupAccessErr> = Vec::new();
    let mut i: usize = 0;
    while i < access_errs.len()
        invariant
            i <= access_errs@.len(),
            user_err_views(users@) == user_errs_of(access_err_views(access_errs@.take(i as int))),
            group_err_views(groups@) == group_errs_of(
                access_err_views(access_errs@.take(i as int)),
            ),
        decreases access_errs@.len() - i,
    {
        proof {
            let prev = access_err_views(access_errs@.take(i as int));
            assert(access_err_views(access_errs@.take(i + 1)) =~= prev.push(
                access_errs@[i as int]@,
            ));
            assert(prev.push(access_errs@[i as int]@).drop_last() =~= prev);
        }
        let entry = &access_errs[i];
        match &entry.user_or_group {
            UserOrGroup::User { id } => {
                users.push(UserAccessErr { id: id.duplicate(), err: entry.err.clone() });
                proof {
                    assert(user_err_views(users@) =~= user_errs_of(
                        access_err_views(access_errs@.take(i + 1)),
                    ));
                }
            },
            UserOrGroup::Group { id } => {
                groups.push(GroupAccessErr { id: id.duplicate(), err: entry.err.clone() });
                proof {
                    assert(group_err_views(groups@) =~= group_errs_of(
                        access_err_views(access_errs@.take(i + 1)),
                    ));
                }
            },
        }
        i += 1;
    }
    proof {
        assert(access_errs@.take(access_errs@.len() as int) =~= access_errs@);
    }
    FailedResult { users, groups }
}

} // verus!
