//! The life of one request: received, validated, executing statement by
//! statement, and then completed, rejected or failed.
//!
//! The library never runs a statement. It hands out the statement that is
//! due, and is handed back what storage answered.

use vstd::prelude::*;
use crate::entity::{Member, Team};
use crate::gateway::{
    inserted_member, loaded_members, loaded_teams, StorageCall, StorageError, StorageReply,
    MEMBER_LIMIT, TEAM_LIMIT,
};
use crate::request::{plan_of, request_error, Request, RootPlan, ValidationError};
use crate::resolver::{capped, team_members};
use crate::response::{
    fields_view, lists_view, records_view, FieldData, FieldDataView, TeamRecord, TeamRecordView,
};

verus! {

/// Which reply the root field in progress waits for.
#[derive(Debug, PartialEq, Eq)]
pub enum Stage {
    /// The members of the root field `members`.
    Members,
    /// The teams of the root field `teams`, each of which is then asked for
    /// its members `loads` times.
    Teams { loads: usize },
    /// The members of `team`. `lists` holds what was brought for it so far,
    /// `records` the teams that are done, `pending` those still to come.
    TeamMembers {
        loads: usize,
        team: Team,
        lists: Vec<Vec<Member>>,
        pending: Vec<Team>,
        records: Vec<TeamRecord>,
    },
    /// The member that `createMember` inserted.
    Insert,
}

/// A [`Stage`] with its lists as sequences.
pub enum StageView {
    Members,
    Teams { loads: usize },
    TeamMembers {
        loads: usize,
        team: Team,
        lists: Seq<Seq<Member>>,
        pending: Seq<Team>,
        records: Seq<TeamRecordView>,
    },
    Insert,
}

impl View for Stage {
    type V = StageView;

    open spec fn view(&self) -> StageView {
        match *self {
            Stage::Members => StageView::Members,
            Stage::Teams { loads } => StageView::Teams { loads },
            Stage::TeamMembers { loads, team, lists, pending, records } => StageView::TeamMembers {
                loads,
                team,
                lists: lists_view(lists@),
                pending: pending@,
                records: records_view(records@),
            },
            Stage::Insert => StageView::Insert,
        }
    }
}

/// One request on its way. Only an executing resolution asks anything of
/// storage; a completed one holds the whole result, a rejected or failed one
/// holds no part of it.
#[derive(Debug, PartialEq, Eq)]
pub enum Resolution {
    /// The request as it arrived.
    Received { request: Request },
    /// The request fits the type graph; `plan` is what its root fields ask.
    Validated { plan: Vec<RootPlan> },
    /// A statement is out. `remaining` are the root fields not yet begun,
    /// `finished` what the earlier ones resolved to.
    Executing { stage: Stage, remaining: Vec<RootPlan>, finished: Vec<FieldData> },
    /// Every root field is resolved.
    Completed { response: Vec<FieldData> },
    /// The request does not fit the type graph.
    Rejected { fault: ValidationError },
    /// Storage failed on a statement.
    Failed { error: StorageError },
}

/// A [`Resolution`] with its lists as sequences.
pub enum ResolutionView {
    Received { request: Request },
    Validated { plan: Seq<RootPlan> },
    Executing { stage: StageView, remaining: Seq<RootPlan>, finished: Seq<FieldDataView> },
    Completed { response: Seq<FieldDataView> },
    Rejected { fault: ValidationError },
    Failed { error: StorageError },
}

impl View for Resolution {
    type V = ResolutionView;

    open spec fn view(&self) -> ResolutionView {
        match *self {
            Resolution::Received { request } => ResolutionView::Received { request },
            Resolution::Validated { plan } => ResolutionView::Validated { plan: plan@ },
            Resolution::Executing { stage, remaining, finished } => ResolutionView::Executing {
                stage: stage@,
                remaining: remaining@,
                finished: fields_view(finished@),
            },
            Resolution::Completed { response } => ResolutionView::Completed {
                response: fields_view(response@),
            },
            Resolution::Rejected { fault } => ResolutionView::Rejected { fault },
            Resolution::Failed { error } => ResolutionView::Failed { error },
        }
    }
}

/// The statement that brings the members of one team.
pub open spec fn members_of_team_call(team: Team) -> StorageCall {
    StorageCall::LoadMembers { team_id: Some(team@.id as i32), limit: MEMBER_LIMIT }
}

/// Where a resolution stands once the root fields before `remaining` are
/// resolved: it begins the next root field with that field's statement, or
/// is complete.
pub open spec fn launched(remaining: Seq<RootPlan>, finished: Seq<FieldDataView>) -> (
    ResolutionView,
    Option<StorageCall>,
) {
    if remaining.len() == 0 {
        (ResolutionView::Completed { response: finished }, None)
    } else {
        let rest = remaining.drop_first();
        match remaining[0] {
            RootPlan::Members => (
                ResolutionView::Executing { stage: StageView::Members, remaining: rest, finished },
                Some(StorageCall::LoadMembers { team_id: None, limit: MEMBER_LIMIT }),
            ),
            RootPlan::Teams { loads } => (
                ResolutionView::Executing {
                    stage: StageView::Teams { loads },
                    remaining: rest,
                    finished,
                },
                Some(StorageCall::LoadTeams { limit: TEAM_LIMIT }),
            ),
            RootPlan::CreateMember { data } => (
                ResolutionView::Executing { stage: StageView::Insert, remaining: rest, finished },
                Some(StorageCall::InsertMember { data }),
            ),
        }
    }
}

/// A team of which no members are asked.
pub open spec fn bare_record(team: Team) -> TeamRecordView {
    TeamRecordView { team, members: Seq::empty() }
}

/// Where a resolution stands once the teams in `records` are done and those
/// in `pending` are not: it asks for the members of the first pending team,
/// or, where no team needs members, goes on behind the root field.
pub open spec fn advanced(
    loads: usize,
    pending: Seq<Team>,
    records: Seq<TeamRecordView>,
    remaining: Seq<RootPlan>,
    finished: Seq<FieldDataView>,
) -> (ResolutionView, Option<StorageCall>) {
    if pending.len() == 0 || loads == 0 {
        launched(
            remaining,
            finished.push(
                FieldDataView::Teams(records + pending.map_values(|team: Team| bare_record(team))),
            ),
        )
    } else {
        (
            ResolutionView::Executing {
                stage: StageView::TeamMembers {
                    loads,
                    team: pending[0],
                    lists: Seq::empty(),
                    pending: pending.drop_first(),
                    records,
                },
                remaining,
                finished,
            },
            Some(members_of_team_call(pending[0])),
        )
    }
}

/// Where a resolution stands once a request is validated: a request that
/// fits the type graph has its plan, one that does not is rejected. Any
/// other state is left as it is.
pub open spec fn validated(state: ResolutionView) -> ResolutionView {
    match state {
        ResolutionView::Received { request } => match request_error(request) {
            Some(fault) => ResolutionView::Rejected { fault },
            None => ResolutionView::Validated { plan: plan_of(request) },
        },
        _ => state,
    }
}

/// Where a resolution stands once execution has begun, and the first
/// statement. Any state but a validated one is left as it is and asks nothing.
pub open spec fn begun(state: ResolutionView) -> (ResolutionView, Option<StorageCall>) {
    match state {
        ResolutionView::Validated { plan } => launched(plan, Seq::empty()),
        _ => (state, None),
    }
}

/// Where an executing resolution stands once storage has answered, and the
/// next statement. A failure, or an answer to another statement, fails the
/// whole resolution. Any state but an executing one is left as it is and
/// asks nothing.
pub open spec fn resumed(state: ResolutionView, reply: StorageReply) -> (
    ResolutionView,
    Option<StorageCall>,
) {
    match state {
        ResolutionView::Executing { stage, remaining, finished } => match stage {
            StageView::Members => match loaded_members(reply) {
                Ok(rows) => launched(
                    remaining,
                    finished.push(FieldDataView::Members(capped(rows, MEMBER_LIMIT as nat))),
                ),
                Err(error) => (ResolutionView::Failed { error }, None),
            },
            StageView::Teams { loads } => match loaded_teams(reply) {
                Ok(rows) => advanced(
                    loads,
                    capped(rows, TEAM_LIMIT as nat),
                    Seq::empty(),
                    remaining,
                    finished,
                ),
                Err(error) => (ResolutionView::Failed { error }, None),
            },
            StageView::TeamMembers { loads, team, lists, pending, records } => match loaded_members(
                reply,
            ) {
                Ok(rows) => {
                    let lists = lists.push(team_members(rows, team@.id));
                    if lists.len() >= loads {
                        advanced(
                            loads,
                            pending,
                            records.push(TeamRecordView { team, members: lists }),
                            remaining,
                            finished,
                        )
                    } else {
                        (
                            ResolutionView::Executing {
                                stage: StageView::TeamMembers {
                                    loads,
                                    team,
                                    lists,
                                    pending,
                                    records,
                                },
                                remaining,
                                finished,
                            },
                            Some(members_of_team_call(team)),
                        )
                    }
                },
                Err(error) => (ResolutionView::Failed { error }, None),
            },
            StageView::Insert => match inserted_member(reply) {
                Ok(member) => launched(remaining, finished.push(FieldDataView::Created(member))),
                Err(error) => (ResolutionView::Failed { error }, None),
            },
        },
        _ => (state, None),
    }
}

} // verus!

verus! {

/// The states of a resolution by name.
#[derive(Clone, Copy, Debug, PartialEq, Eq, Structural)]
pub enum Phase {
    Received,
    Validated,
    Executing,
    Completed,
    Rejected,
    Failed,
}

/// The name of a state.
pub open spec fn phase_of(state: ResolutionView) -> Phase {
    match state {
        ResolutionView::Received { .. } => Phase::Received,
        ResolutionView::Validated { .. } => Phase::Validated,
        ResolutionView::Executing { .. } => Phase::Executing,
        ResolutionView::Completed { .. } => Phase::Completed,
        ResolutionView::Rejected { .. } => Phase::Rejected,
        ResolutionView::Failed { .. } => Phase::Failed,
    }
}

} // verus!
