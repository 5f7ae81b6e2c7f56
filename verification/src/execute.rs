//! The steps of a resolution, as executable code.

use vstd::prelude::*;
use crate::entity::{Member, Team};
use crate::gateway::{StorageCall, StorageReply};
use crate::request::{Request, RootPlan};
use crate::resolution::{
    advanced, bare_record, begun, launched, phase_of, resumed, validated, Phase, Resolution,
    ResolutionView, Stage,
};
use crate::resolver::{MutationRoot, QueryRoot};
use crate::response::{fields_view, lists_view, records_view, FieldData, TeamRecord};
use crate::schema::Schema;

verus! {

/// Begins the next root field, or completes the resolution.
fn launch(remaining: Vec<RootPlan>, finished: Vec<FieldData>) -> (next: (
    Resolution,
    Option<StorageCall>,
))
    ensures
        (next.0@, next.1) == launched(remaining@, fields_view(finished@)),
{
    if remaining.len() == 0 {
        return (Resolution::Completed { response: finished }, None);
    }
    let mut rest = remaining;
    let root = rest.remove(0);
    assert(rest@ =~= remaining@.drop_first());
    match root {
        RootPlan::Members => (
            Resolution::Executing { stage: Stage::Members, remaining: rest, finished },
            Some(QueryRoot::members_query()),
        ),
        RootPlan::Teams { loads } => (
            Resolution::Executing { stage: Stage::Teams { loads }, remaining: rest, finished },
            Some(QueryRoot::teams_query()),
        ),
        RootPlan::CreateMember { data } => (
            Resolution::Executing { stage: Stage::Insert, remaining: rest, finished },
            Some(MutationRoot::create_member(data)),
        ),
    }
}

/// Asks for the members of the next team, or closes the root field `teams`.
fn advance(
    loads: usize,
    pending: Vec<Team>,
    records: Vec<TeamRecord>,
    remaining: Vec<RootPlan>,
    finished: Vec<FieldData>,
) -> (next: (Resolution, Option<StorageCall>))
    ensures
        (next.0@, next.1) == advanced(
            loads,
            pending@,
            records_view(records@),
            remaining@,
            fields_view(finished@),
        ),
{
    if pending.len() == 0 || loads == 0 {
        let ghost bare = |team: Team| bare_record(team);
        let mut done = records;
        let mut at: usize = 0;
        assert(records_view(done@) =~= records_view(records@) + pending@.subrange(
            0,
            0,
        ).map_values(bare));
        while at < pending.len()
            invariant
                at <= pending.len(),
                bare == |team: Team| bare_record(team),
                records_view(done@) == records_view(records@) + pending@.subrange(
                    0,
                    at as int,
                ).map_values(bare),
            decreases pending.len() - at,
        {
            let ghost before = done@;
            let record = TeamRecord { team: pending[at].clone(), members: Vec::new() };
            assert(record@ == bare_record(pending@[at as int])) by {
                assert(lists_view(record.members@) =~= Seq::<Seq<Member>>::empty());
            }
            done.push(record);
            assert(records_view(done@) =~= records_view(records@) + pending@.subrange(
                0,
                at + 1,
            ).map_values(bare)) by {
                assert(records_view(done@) =~= records_view(before).push(record@));
                assert(pending@.subrange(0, at + 1) =~= pending@.subrange(0, at as int).push(
                    pending@[at as int],
                ));
            }
            at += 1;
        }
        assert(pending@.subrange(0, at as int) =~= pending@);
        let mut closed = finished;
        let field = FieldData::Teams(done);
        closed.push(field);
        assert(fields_view(closed@) =~= fields_view(finished@).push(field@));
        launch(remaining, closed)
    } else {
        let mut rest = pending;
        let team = rest.remove(0);
        assert(rest@ =~= pending@.drop_first());
        let call = team.members_query();
        let lists: Vec<Vec<Member>> = Vec::new();
        assert(lists_view(lists@) =~= Seq::<Seq<Member>>::empty());
        (
            Resolution::Executing {
                stage: Stage::TeamMembers { loads, team, lists, pending: rest, records },
                remaining,
                finished,
            },
            Some(call),
        )
    }
}

impl Resolution {
    /// Takes a request in. Nothing is asked of storage yet.
    pub fn receive(request: Request) -> (state: Resolution)
        ensures
            state@ == (ResolutionView::Received { request }),
    {
        Resolution::Received { request }
    }

    /// The name of the state.
    pub fn phase(&self) -> (phase: Phase)
        ensures
            phase == phase_of(self@),
    {
        match self {
            Resolution::Received { .. } => Phase::Received,
            Resolution::Validated { .. } => Phase::Validated,
            Resolution::Executing { .. } => Phase::Executing,
            Resolution::Completed { .. } => Phase::Completed,
            Resolution::Rejected { .. } => Phase::Rejected,
            Resolution::Failed { .. } => Phase::Failed,
        }
    }

    /// Holds a received request against the type graph: it becomes
    /// validated, with its plan, or rejected, with its first fault.
    pub fn validate(self, schema: &Schema) -> (state: Resolution)
        ensures
            state@ == validated(self@),
    {
        match self {
            Resolution::Received { request } => match schema.validate(&request) {
                Ok(plan) => Resolution::Validated { plan },
                Err(fault) => Resolution::Rejected { fault },
            },
            other => other,
        }
    }

    /// Begins to execute a validated request, and hands out the first
    /// statement.
    pub fn begin(self) -> (next: (Resolution, Option<StorageCall>))
        ensures
            (next.0@, next.1) == begun(self@),
    {
        match self {
            Resolution::Validated { plan } => {
                let finished: Vec<FieldData> = Vec::new();
                assert(fields_view(finished@) =~= Seq::empty());
                launch(plan, finished)
            },
            other => (other, None),
        }
    }

    /// Takes in what storage answered to the statement that is out, and
    /// hands out the next statement, if the request needs one more.
    pub fn resume(self, reply: StorageReply) -> (next: (Resolution, Option<StorageCall>))
        ensures
            (next.0@, next.1) == resumed(self@, reply),
    {
        match self {
            Resolution::Executing { stage, remaining, finished } => match stage {
                Stage::Members => match QueryRoot::members(reply.into_members()) {
                    Ok(kept) => {
                        let mut closed = finished;
                        let field = FieldData::Members(kept);
                        closed.push(field);
                        assert(fields_view(closed@) =~= fields_view(finished@).push(field@));
                        launch(remaining, closed)
                    },
                    Err(error) => (Resolution::Failed { error }, None),
                },
                Stage::Teams { loads } => match QueryRoot::teams(reply.into_teams()) {
                    Ok(kept) => {
                        let records: Vec<TeamRecord> = Vec::new();
                        assert(records_view(records@) =~= Seq::empty());
                        advance(loads, kept, records, remaining, finished)
                    },
                    Err(error) => (Resolution::Failed { error }, None),
                },
                Stage::TeamMembers { loads, team, lists, pending, records } => match team.members(
                    reply.into_members(),
                ) {
                    Ok(kept) => {
                        let mut brought = lists;
                        brought.push(kept);
                        assert(lists_view(brought@) =~= lists_view(lists@).push(kept@));
                        if brought.len() >= loads {
                            let mut done = records;
                            let record = TeamRecord { team, members: brought };
                            done.push(record);
                            assert(records_view(done@) =~= records_view(records@).push(record@));
                            advance(loads, pending, done, remaining, finished)
                        } else {
                            let call = team.members_query();
                            (
                                Resolution::Executing {
                                    stage: Stage::TeamMembers {
                                        loads,
                                        team,
                                        lists: brought,
                                        pending,
                                        records,
                                    },
                                    remaining,
                                    finished,
                                },
                                Some(call),
                            )
                        }
                    },
                    Err(error) => (Resolution::Failed { error }, None),
                },
                Stage::Insert => match reply.into_inserted() {
                    Ok(member) => {
                        let mut closed = finished;
                        let field = FieldData::Created(member);
                        closed.push(field);
                        assert(fields_view(closed@) =~= fields_view(finished@).push(field@));
                        launch(remaining, closed)
                    },
                    Err(error) => (Resolution::Failed { error }, None),
                },
            },
            other => (other, None),
        }
    }
}

} // verus!
