//! What holds of every resolution, whatever the request and whatever
//! storage answers.

use vstd::prelude::*;
use crate::entity::{Member, NewMember, Team};
use crate::gateway::{
    inserted_member, loaded_members, loaded_teams, StorageCall, StorageError, StorageReply,
    MEMBER_LIMIT, TEAM_LIMIT,
};
use crate::request::{plan_of, request_error, Request, RootPlan};
use crate::resolution::{
    advanced, bare_record, begun, launched, members_of_team_call, resumed, validated,
    ResolutionView, StageView,
};
use crate::resolver::{capped, lemma_of_team_belongs, team_members};
use crate::response::{
    field_within_limits, list_within_limits, record_within_limits, records_within_limits,
    within_limits, FieldDataView, TeamRecordView,
};

verus! {

/// Where a resolution ends, and the statements that it hands out on the way,
/// when each statement is answered by the next of `replies`: until it asks
/// nothing more, or the replies run out.
pub open spec fn driven(state: ResolutionView, call: Option<StorageCall>, replies: Seq<StorageReply>) -> (
    ResolutionView,
    Seq<StorageCall>,
)
    decreases replies.len(),
{
    match call {
        None => (state, Seq::empty()),
        Some(call) => {
            if replies.len() == 0 {
                (state, seq![call])
            } else {
                let next = resumed(state, replies[0]);
                let rest = driven(next.0, next.1, replies.drop_first());
                (rest.0, seq![call] + rest.1)
            }
        },
    }
}

/// Where the resolution of a request ends, and the statements that it hands
/// out, when storage answers with `replies`.
pub open spec fn resolved(request: Request, replies: Seq<StorageReply>) -> (
    ResolutionView,
    Seq<StorageCall>,
) {
    let start = begun(validated(ResolutionView::Received { request }));
    driven(start.0, start.1, replies)
}

/// Whether what a stage holds is within the limits.
pub open spec fn stage_within_limits(stage: StageView) -> bool {
    match stage {
        StageView::TeamMembers { loads, team, lists, pending, records } => {
            &&& records.len() + 1 + pending.len() <= TEAM_LIMIT
            &&& records_within_limits(records)
            &&& forall|j: int|
                0 <= j < lists.len() ==> list_within_limits(#[trigger] lists[j], team@.id)
        },
        _ => true,
    }
}

/// Whether all that a resolution holds of its result is within the limits.
pub open spec fn state_within_limits(state: ResolutionView) -> bool {
    match state {
        ResolutionView::Executing { stage, remaining, finished } => stage_within_limits(stage)
            && within_limits(finished),
        ResolutionView::Completed { response } => within_limits(response),
        _ => true,
    }
}

/// Beginning the next root field keeps the result within the limits.
pub proof fn launched_within_limits(remaining: Seq<RootPlan>, finished: Seq<FieldDataView>)
    requires
        within_limits(finished),
    ensures
        state_within_limits(launched(remaining, finished).0),
{
}

/// Going on to the next team keeps the result within the limits.
pub proof fn advanced_within_limits(
    loads: usize,
    pending: Seq<Team>,
    records: Seq<TeamRecordView>,
    remaining: Seq<RootPlan>,
    finished: Seq<FieldDataView>,
)
    requires
        records.len() + pending.len() <= TEAM_LIMIT,
        records_within_limits(records),
        within_limits(finished),
    ensures
        state_within_limits(advanced(loads, pending, records, remaining, finished).0),
{
    if pending.len() == 0 || loads == 0 {
        let all = records + pending.map_values(|team: Team| bare_record(team));
        assert forall|i: int| 0 <= i < all.len() implies record_within_limits(#[trigger] all[i]) by {
            if i < records.len() {
                assert(all[i] == records[i]);
            } else {
                assert(all[i] == bare_record(pending[i - records.len()]));
            }
        }
        let closed = finished.push(FieldDataView::Teams(all));
        assert forall|i: int| 0 <= i < closed.len() implies field_within_limits(
            #[trigger] closed[i],
        ) by {
            if i < finished.len() {
                assert(closed[i] == finished[i]);
            }
        }
        launched_within_limits(remaining, closed);
    }
}

/// Whatever storage answers, a resolution whose result is within the limits
/// stays so.
pub proof fn resumed_within_limits(state: ResolutionView, reply: StorageReply)
    requires
        state_within_limits(state),
    ensures
        state_within_limits(resumed(state, reply).0),
{
    match state {
        ResolutionView::Executing { stage, remaining, finished } => {
            match stage {
                StageView::Members => {
                    if let Ok(rows) = loaded_members(reply) {
                        let closed = finished.push(
                            FieldDataView::Members(capped(rows, MEMBER_LIMIT as nat)),
                        );
                        assert forall|i: int| 0 <= i < closed.len() implies field_within_limits(
                            #[trigger] closed[i],
                        ) by {
                            if i < finished.len() {
                                assert(closed[i] == finished[i]);
                            }
                        }
                        launched_within_limits(remaining, closed);
                    }
                },
                StageView::Teams { loads } => {
                    if let Ok(rows) = loaded_teams(reply) {
                        advanced_within_limits(
                            loads,
                            capped(rows, TEAM_LIMIT as nat),
                            Seq::empty(),
                            remaining,
                            finished,
                        );
                    }
                },
                StageView::TeamMembers { loads, team, lists, pending, records } => {
                    if let Ok(rows) = loaded_members(reply) {
                        lemma_of_team_belongs(rows, team@.id);
                        let brought = lists.push(team_members(rows, team@.id));
                        assert forall|j: int| 0 <= j < brought.len() implies list_within_limits(
                            #[trigger] brought[j],
                            team@.id,
                        ) by {
                            if j < lists.len() {
                                assert(brought[j] == lists[j]);
                            }
                        }
                        if brought.len() >= loads {
                            let record = TeamRecordView { team, members: brought };
                            let done = records.push(record);
                            assert forall|i: int| 0 <= i < done.len() implies record_within_limits(
                                #[trigger] done[i],
                            ) by {
                                if i < records.len() {
                                    assert(done[i] == records[i]);
                                }
                            }
                            advanced_within_limits(loads, pending, done, remaining, finished);
                        }
                    }
                },
                StageView::Insert => {
                    if let Ok(member) = inserted_member(reply) {
                        let closed = finished.push(FieldDataView::Created(member));
                        assert forall|i: int| 0 <= i < closed.len() implies field_within_limits(
                            #[trigger] closed[i],
                        ) by {
                            if i < finished.len() {
                                assert(closed[i] == finished[i]);
                            }
                        }
                        launched_within_limits(remaining, closed);
                    }
                },
            }
        },
        _ => {},
    }
}

/// Whatever storage answers, and however often, a resolution whose result
/// is within the limits ends with its result within the limits.
pub proof fn driven_within_limits(
    state: ResolutionView,
    call: Option<StorageCall>,
    replies: Seq<StorageReply>,
)
    requires
        state_within_limits(state),
    ensures
        state_within_limits(driven(state, call, replies).0),
    decreases replies.len(),
{
    if call is Some && replies.len() > 0 {
        let next = resumed(state, replies[0]);
        resumed_within_limits(state, replies[0]);
        driven_within_limits(next.0, next.1, replies.drop_first());
    }
}

/// Whatever the request and whatever storage answers: of the result that a
/// resolution holds, no `members` field has more members than the limit of
/// members, no `teams` field more teams than the limit of teams, and the
/// members below a team are all of that team.
pub proof fn resolved_within_limits(request: Request, replies: Seq<StorageReply>)
    ensures
        state_within_limits(resolved(request, replies).0),
{
    let received = ResolutionView::Received { request };
    let start = begun(validated(received));
    if validated(received) is Validated {
        launched_within_limits(plan_of(request), Seq::empty());
    }
    driven_within_limits(start.0, start.1, replies);
}

/// A request that does not fit the type graph is rejected with its fault
/// and asks nothing of storage, whatever storage would answer.
pub proof fn rejected_asks_nothing(request: Request, replies: Seq<StorageReply>)
    requires
        request_error(request) is Some,
    ensures
        resolved(request, replies) == (
            ResolutionView::Rejected { fault: request_error(request).unwrap() },
            Seq::<StorageCall>::empty(),
        ),
{
}

/// A rejected resolution stays rejected, and a failed one failed: neither
/// asks anything of storage again.
pub proof fn rejected_and_failed_are_final(state: ResolutionView, reply: StorageReply)
    requires
        state is Rejected || state is Failed,
    ensures
        begun(state) == (state, None::<StorageCall>),
        resumed(state, reply) == (state, None::<StorageCall>),
        validated(state) == state,
{
}

/// A failure of storage fails the whole request, at whatever statement it
/// comes: the resolution keeps nothing of what it had resolved, and asks
/// nothing more.
pub proof fn storage_failure_fails_request(state: ResolutionView, error: StorageError)
    requires
        state is Executing,
    ensures
        resumed(state, StorageReply::Failed(error)) == (
            ResolutionView::Failed { error },
            None::<StorageCall>,
        ),
{
}

/// While the teams of a `teams` field that names `members` once are asked
/// for their members, each team still to come is asked exactly once, in the
/// teams' order, and the request is complete after the last.
pub proof fn members_asked_once_per_team(
    team: Team,
    pending: Seq<Team>,
    records: Seq<TeamRecordView>,
    finished: Seq<FieldDataView>,
    replies: Seq<StorageReply>,
)
    requires
        replies.len() == 1 + pending.len(),
        forall|i: int| 0 <= i < replies.len() ==> #[trigger] replies[i] is Members,
    ensures
        ({
            let state = ResolutionView::Executing {
                stage: StageView::TeamMembers {
                    loads: 1,
                    team,
                    lists: Seq::empty(),
                    pending,
                    records,
                },
                remaining: Seq::empty(),
                finished,
            };
            let end = driven(state, Some(members_of_team_call(team)), replies);
            &&& end.0 is Completed
            &&& end.1 == seq![members_of_team_call(team)] + pending.map_values(
                |team: Team| members_of_team_call(team),
            )
        }),
    decreases pending.len(),
{
    let call_of = |team: Team| members_of_team_call(team);
    let state = ResolutionView::Executing {
        stage: StageView::TeamMembers { loads: 1, team, lists: Seq::empty(), pending, records },
        remaining: Seq::empty(),
        finished,
    };
    let reply = replies[0];
    let rest = replies.drop_first();
    let next = resumed(state, reply);
    let end = driven(state, Some(members_of_team_call(team)), replies);
    let after = driven(next.0, next.1, rest);
    assert(end == (after.0, seq![members_of_team_call(team)] + after.1));
    let rows = reply->Members_0@;
    let lists = Seq::<Seq<Member>>::empty().push(team_members(rows, team@.id));
    let done = records.push(TeamRecordView { team, members: lists });
    assert(next == advanced(1, pending, done, Seq::empty(), finished));
    if pending.len() == 0 {
        assert(next.1 is None);
        assert(after.1 =~= Seq::<StorageCall>::empty());
        assert(end.1 =~= seq![members_of_team_call(team)] + pending.map_values(call_of));
    } else {
        assert forall|i: int| 0 <= i < rest.len() implies #[trigger] rest[i] is Members by {
            assert(rest[i] == replies[i + 1]);
        }
        members_asked_once_per_team(pending[0], pending.drop_first(), done, finished, rest);
        assert(after.1 == seq![members_of_team_call(pending[0])] + pending.drop_first().map_values(
            call_of,
        ));
        assert(after.1 =~= pending.map_values(call_of));
    }
}

/// A request for the teams with their members, each named once, asks once
/// for the teams and then once for the members of each team that storage
/// brought within the limit of teams: one statement for each team, never
/// one for several. It is complete when each is answered.
pub proof fn teams_with_members_ask_once_per_team(
    request: Request,
    rows: Vec<Team>,
    replies: Seq<StorageReply>,
)
    requires
        request_error(request) is None,
        plan_of(request) == seq![RootPlan::Teams { loads: 1 }],
        replies.len() == 1 + capped(rows@, TEAM_LIMIT as nat).len(),
        replies[0] == StorageReply::Teams(rows),
        forall|i: int| 1 <= i < replies.len() ==> #[trigger] replies[i] is Members,
    ensures
        resolved(request, replies).0 is Completed,
        resolved(request, replies).1 == seq![StorageCall::LoadTeams { limit: TEAM_LIMIT }]
            + capped(rows@, TEAM_LIMIT as nat).map_values(
            |team: Team| members_of_team_call(team),
        ),
{
    let call_of = |team: Team| members_of_team_call(team);
    let kept = capped(rows@, TEAM_LIMIT as nat);
    let plan = plan_of(request);
    let start = begun(validated(ResolutionView::Received { request }));
    assert(plan.drop_first() =~= Seq::<RootPlan>::empty());
    assert(start == launched(plan, Seq::empty()));
    let load = StorageCall::LoadTeams { limit: TEAM_LIMIT };
    assert(start.1 == Some(load));
    let rest = replies.drop_first();
    let next = resumed(start.0, replies[0]);
    let after = driven(next.0, next.1, rest);
    assert(resolved(request, replies) == (after.0, seq![load] + after.1));
    assert(next == advanced(1, kept, Seq::empty(), Seq::empty(), Seq::empty()));
    if kept.len() == 0 {
        assert(after.1 =~= kept.map_values(call_of));
    } else {
        assert forall|i: int| 0 <= i < rest.len() implies #[trigger] rest[i] is Members by {
            assert(rest[i] == replies[i + 1]);
        }
        members_asked_once_per_team(
            kept[0],
            kept.drop_first(),
            Seq::empty(),
            Seq::empty(),
            rest,
        );
        assert(after.1 =~= kept.map_values(call_of));
    }
}

/// `createMember` remembers nothing: asked twice with the same values, it
/// inserts twice, and the result holds both members as storage persisted
/// them, each with the identifier that storage gave it.
pub proof fn create_member_twice_inserts_twice(
    request: Request,
    data: NewMember,
    first: Member,
    second: Member,
)
    requires
        request_error(request) is None,
        plan_of(request) == seq![
            RootPlan::CreateMember { data },
            RootPlan::CreateMember { data },
        ],
    ensures
        resolved(
            request,
            seq![StorageReply::Inserted(first), StorageReply::Inserted(second)],
        ) == (
            ResolutionView::Completed {
                response: seq![FieldDataView::Created(first), FieldDataView::Created(second)],
            },
            seq![StorageCall::InsertMember { data }, StorageCall::InsertMember { data }],
        ),
        first@.id != second@.id ==> first != second,
{
    let replies = seq![StorageReply::Inserted(first), StorageReply::Inserted(second)];
    let plan = plan_of(request);
    let insert = StorageCall::InsertMember { data };
    let start = begun(validated(ResolutionView::Received { request }));
    assert(start == launched(plan, Seq::empty()));
    assert(plan.drop_first() =~= seq![RootPlan::CreateMember { data }]);
    let one = resumed(start.0, replies[0]);
    let rest = replies.drop_first();
    assert(rest =~= seq![StorageReply::Inserted(second)]);
    let held = Seq::<FieldDataView>::empty().push(FieldDataView::Created(first));
    assert(one == launched(plan.drop_first(), held));
    assert(plan.drop_first().drop_first() =~= Seq::<RootPlan>::empty());
    let two = resumed(one.0, rest[0]);
    assert(two == launched(Seq::<RootPlan>::empty(), held.push(FieldDataView::Created(second))));
    assert(rest.drop_first() =~= Seq::<StorageReply>::empty());
    let last = driven(two.0, two.1, rest.drop_first());
    assert(last == (two.0, Seq::<StorageCall>::empty()));
    let middle = driven(one.0, one.1, rest);
    assert(middle == (last.0, seq![insert] + last.1));
    assert(resolved(request, replies) == (middle.0, seq![insert] + middle.1));
    assert(seq![insert] + (seq![insert] + Seq::<StorageCall>::empty()) =~= seq![insert, insert]);
    assert(held.push(FieldDataView::Created(second)) =~= seq![
        FieldDataView::Created(first),
        FieldDataView::Created(second),
    ]);
}

/// Whether what a root field resolved to is of the kind that the field asks
/// for, with its members brought for each team as often as the field names
/// them.
pub open spec fn answers(root: RootPlan, field: FieldDataView) -> bool {
    match root {
        RootPlan::Members => field is Members,
        RootPlan::Teams { loads } => field matches FieldDataView::Teams(records) && forall|i: int|
            0 <= i < records.len() ==> (#[trigger] records[i]).members.len() == loads,
        RootPlan::CreateMember { .. } => field is Created,
    }
}

/// Whether a stage is one of the root field `root`.
pub open spec fn stage_of(root: RootPlan, stage: StageView) -> bool {
    match stage {
        StageView::Members => root is Members,
        StageView::Teams { loads } => root == (RootPlan::Teams { loads }),
        StageView::TeamMembers { loads, team, lists, pending, records } => {
            &&& root == (RootPlan::Teams { loads })
            &&& lists.len() < loads
            &&& forall|i: int|
                0 <= i < records.len() ==> (#[trigger] records[i]).members.len() == loads
        },
        StageView::Insert => root is CreateMember,
    }
}

/// Whether a resolution is on its way through `plan`: the root fields that
/// are done are answered in their order, the next is in progress, and the
/// rest are still to come.
pub open spec fn follows(plan: Seq<RootPlan>, state: ResolutionView) -> bool {
    match state {
        ResolutionView::Executing { stage, remaining, finished } => {
            &&& finished.len() < plan.len()
            &&& remaining == plan.skip(finished.len() as int + 1)
            &&& stage_of(plan[finished.len() as int], stage)
            &&& forall|i: int| 0 <= i < finished.len() ==> answers(plan[i], #[trigger] finished[i])
        },
        ResolutionView::Completed { response } => {
            &&& response.len() == plan.len()
            &&& forall|i: int| 0 <= i < response.len() ==> answers(plan[i], #[trigger] response[i])
        },
        _ => true,
    }
}

/// Beginning the next root field keeps a resolution on its way through the
/// plan.
pub proof fn launched_follows(
    plan: Seq<RootPlan>,
    remaining: Seq<RootPlan>,
    finished: Seq<FieldDataView>,
)
    requires
        finished.len() <= plan.len(),
        remaining == plan.skip(finished.len() as int),
        forall|i: int| 0 <= i < finished.len() ==> answers(plan[i], #[trigger] finished[i]),
    ensures
        follows(plan, launched(remaining, finished).0),
{
    if remaining.len() > 0 {
        assert(remaining[0] == plan[finished.len() as int]);
        assert(remaining.drop_first() =~= plan.skip(finished.len() as int + 1));
    }
}

/// Going on to the next team keeps a resolution on its way through the plan.
pub proof fn advanced_follows(
    plan: Seq<RootPlan>,
    loads: usize,
    pending: Seq<Team>,
    records: Seq<TeamRecordView>,
    remaining: Seq<RootPlan>,
    finished: Seq<FieldDataView>,
)
    requires
        finished.len() < plan.len(),
        remaining == plan.skip(finished.len() as int + 1),
        plan[finished.len() as int] == (RootPlan::Teams { loads }),
        forall|i: int| 0 <= i < records.len() ==> (#[trigger] records[i]).members.len() == loads,
        forall|i: int| 0 <= i < finished.len() ==> answers(plan[i], #[trigger] finished[i]),
    ensures
        follows(plan, advanced(loads, pending, records, remaining, finished).0),
{
    if pending.len() == 0 || loads == 0 {
        let all = records + pending.map_values(|team: Team| bare_record(team));
        assert forall|i: int| 0 <= i < all.len() implies (#[trigger] all[i]).members.len()
            == loads by {
            if i < records.len() {
                assert(all[i] == records[i]);
            } else {
                assert(all[i] == bare_record(pending[i - records.len()]));
            }
        }
        let closed = finished.push(FieldDataView::Teams(all));
        assert forall|i: int| 0 <= i < closed.len() implies answers(
            plan[i],
            #[trigger] closed[i],
        ) by {
            if i < finished.len() {
                assert(closed[i] == finished[i]);
            }
        }
        launched_follows(plan, remaining, closed);
    }
}

/// Whatever storage answers, a resolution stays on its way through the plan.
pub proof fn resumed_follows(plan: Seq<RootPlan>, state: ResolutionView, reply: StorageReply)
    requires
        follows(plan, state),
    ensures
        follows(plan, resumed(state, reply).0),
{
    match state {
        ResolutionView::Executing { stage, remaining, finished } => {
            let root = plan[finished.len() as int];
            match stage {
                StageView::Members => {
                    if let Ok(rows) = loaded_members(reply) {
                        let closed = finished.push(
                            FieldDataView::Members(capped(rows, MEMBER_LIMIT as nat)),
                        );
                        assert forall|i: int| 0 <= i < closed.len() implies answers(
                            plan[i],
                            #[trigger] closed[i],
                        ) by {
                            if i < finished.len() {
                                assert(closed[i] == finished[i]);
                            }
                        }
                        launched_follows(plan, remaining, closed);
                    }
                },
                StageView::Teams { loads } => {
                    if let Ok(rows) = loaded_teams(reply) {
                        advanced_follows(
                            plan,
                            loads,
                            capped(rows, TEAM_LIMIT as nat),
                            Seq::empty(),
                            remaining,
                            finished,
                        );
                    }
                },
                StageView::TeamMembers { loads, team, lists, pending, records } => {
                    if let Ok(rows) = loaded_members(reply) {
                        let brought = lists.push(team_members(rows, team@.id));
                        if brought.len() >= loads {
                            let done = records.push(TeamRecordView { team, members: brought });
                            assert forall|i: int| 0 <= i < done.len() implies (
                            #[trigger] done[i]).members.len() == loads by {
                                if i < records.len() {
                                    assert(done[i] == records[i]);
                                }
                            }
                            advanced_follows(plan, loads, pending, done, remaining, finished);
                        }
                    }
                },
                StageView::Insert => {
                    if let Ok(member) = inserted_member(reply) {
                        let closed = finished.push(FieldDataView::Created(member));
                        assert forall|i: int| 0 <= i < closed.len() implies answers(
                            plan[i],
                            #[trigger] closed[i],
                        ) by {
                            if i < finished.len() {
                                assert(closed[i] == finished[i]);
                            }
                        }
                        launched_follows(plan, remaining, closed);
                    }
                },
            }
        },
        _ => {},
    }
}

/// Whatever storage answers, and however often, a resolution on its way
/// through the plan ends on it.
pub proof fn driven_follows(
    plan: Seq<RootPlan>,
    state: ResolutionView,
    call: Option<StorageCall>,
    replies: Seq<StorageReply>,
)
    requires
        follows(plan, state),
    ensures
        follows(plan, driven(state, call, replies).0),
    decreases replies.len(),
{
    if call is Some && replies.len() > 0 {
        let next = resumed(state, replies[0]);
        resumed_follows(plan, state, replies[0]);
        driven_follows(plan, next.0, next.1, replies.drop_first());
    }
}

/// The result has the shape of the request: a completed resolution holds
/// one answer for each root field, in the fields' order, each of the kind
/// that its field asks for, and below each team one list of members for each
/// time that the field names them.
pub proof fn completed_answers_each_root_field(request: Request, replies: Seq<StorageReply>)
    ensures
        resolved(request, replies).0 matches ResolutionView::Completed { response } ==> {
            &&& response.len() == plan_of(request).len()
            &&& forall|i: int|
                0 <= i < response.len() ==> answers(plan_of(request)[i], #[trigger] response[i])
        },
{
    let plan = plan_of(request);
    let received = ResolutionView::Received { request };
    let start = begun(validated(received));
    if validated(received) is Validated {
        assert(plan.skip(0) =~= plan);
        launched_follows(plan, plan, Seq::empty());
    }
    driven_follows(plan, start.0, start.1, replies);
}

} // verus!
