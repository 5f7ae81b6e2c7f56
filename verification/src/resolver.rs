//! The resolvers of the fields that need storage: which statement each asks,
//! and what it makes of the rows that come back.

use vstd::prelude::*;
use crate::entity::{Member, NewMember, Team};
use crate::gateway::{StorageCall, StorageError, MEMBER_LIMIT, TEAM_LIMIT};

verus! {

/// The first `limit` rows, or all of them where there are fewer.
pub open spec fn capped<T>(rows: Seq<T>, limit: nat) -> Seq<T> {
    if rows.len() <= limit {
        rows
    } else {
        rows.subrange(0, limit as int)
    }
}

/// The rows that belong to the team `team_id`, in their order.
pub open spec fn of_team(rows: Seq<Member>, team_id: int) -> Seq<Member> {
    rows.filter(|member: Member| member@.team_id == team_id)
}

/// The members that a team shows of the rows that storage brought.
pub open spec fn team_members(rows: Seq<Member>, team_id: int) -> Seq<Member> {
    capped(of_team(rows, team_id), MEMBER_LIMIT as nat)
}

/// Keeps the rows of one team, in their order.
fn keep_team(rows: Vec<Member>, team_id: i32) -> (kept: Vec<Member>)
    ensures
        kept@ == of_team(rows@, team_id as int),
{
    let ghost belongs = |member: Member| member@.team_id == team_id as int;
    let mut kept: Vec<Member> = Vec::new();
    let mut at: usize = 0;
    assert(rows@.subrange(0, 0) =~= Seq::<Member>::empty());
    while at < rows.len()
        invariant
            at <= rows.len(),
            belongs == |member: Member| member@.team_id == team_id as int,
            kept@ == rows@.subrange(0, at as int).filter(belongs),
        decreases rows.len() - at,
    {
        proof {
            let before = rows@.subrange(0, at as int);
            let one = seq![rows@[at as int]];
            assert(rows@.subrange(0, at + 1) =~= before + one);
            Seq::filter_distributes_over_add(before, one, belongs);
            reveal_with_fuel(Seq::filter, 2);
            assert(one.drop_last() =~= Seq::<Member>::empty());
        }
        if rows[at].team_id() == team_id {
            kept.push(rows[at].clone());
        }
        at += 1;
    }
    assert(rows@.subrange(0, at as int) =~= rows@);
    kept
}

impl Team {
    /// The statement that brings this team's members.
    pub fn members_query(&self) -> (call: StorageCall)
        ensures
            call == (StorageCall::LoadMembers {
                team_id: Some(self@.id as i32),
                limit: MEMBER_LIMIT,
            }),
    {
        StorageCall::LoadMembers { team_id: Some(self.id()), limit: MEMBER_LIMIT }
    }

    /// The team's `members` field: of the rows that storage brought, those
    /// whose team is this one, and no more than the limit. A failure of
    /// storage is passed on, never turned into an empty list.
    pub fn members(&self, loaded: Result<Vec<Member>, StorageError>) -> (resolved: Result<
        Vec<Member>,
        StorageError,
    >)
        ensures
            match loaded {
                Ok(rows) => resolved matches Ok(kept) && kept@ == team_members(
                    rows@,
                    self@.id,
                ),
                Err(error) => resolved == Err::<Vec<Member>, StorageError>(error),
            },
            resolved matches Ok(kept) ==> kept@.len() <= MEMBER_LIMIT && forall|i: int|
                0 <= i < kept@.len() ==> (#[trigger] kept@[i])@.team_id == self@.id,
    {
        match loaded {
            Ok(rows) => {
                let mut kept = keep_team(rows, self.id());
                proof {
                    lemma_of_team_belongs(rows@, self@.id);
                }
                kept.truncate(MEMBER_LIMIT);
                Ok(kept)
            },
            Err(error) => Err(error),
        }
    }
}

/// Every row that `of_team` keeps belongs to the team.
pub proof fn lemma_of_team_belongs(rows: Seq<Member>, team_id: int)
    ensures
        of_team(rows, team_id).len() <= rows.len(),
        forall|i: int|
            0 <= i < of_team(rows, team_id).len() ==> (#[trigger] of_team(
                rows,
                team_id,
            )[i])@.team_id == team_id,
{
    let belongs = |member: Member| member@.team_id == team_id;
    rows.lemma_filter_len(belongs);
    assert forall|i: int| 0 <= i < of_team(rows, team_id).len() implies (#[trigger] of_team(
        rows,
        team_id,
    )[i])@.team_id == team_id by {
        rows.lemma_filter_pred(belongs, i);
    }
}

/// The entry point of reads.
#[derive(Debug, PartialEq, Eq)]
pub struct QueryRoot {}

impl QueryRoot {
    /// The statement that brings the members.
    pub fn members_query() -> (call: StorageCall)
        ensures
            call == (StorageCall::LoadMembers { team_id: None, limit: MEMBER_LIMIT }),
    {
        StorageCall::LoadMembers { team_id: None, limit: MEMBER_LIMIT }
    }

    /// The `members` field: the rows that storage brought, and no more than
    /// the limit. A failure of storage is passed on.
    pub fn members(loaded: Result<Vec<Member>, StorageError>) -> (resolved: Result<
        Vec<Member>,
        StorageError,
    >)
        ensures
            match loaded {
                Ok(rows) => resolved matches Ok(kept) && kept@ == capped(
                    rows@,
                    MEMBER_LIMIT as nat,
                ),
                Err(error) => resolved == Err::<Vec<Member>, StorageError>(error),
            },
            resolved matches Ok(kept) ==> kept@.len() <= MEMBER_LIMIT,
    {
        match loaded {
            Ok(rows) => {
                let mut kept = rows;
                kept.truncate(MEMBER_LIMIT);
                Ok(kept)
            },
            Err(error) => Err(error),
        }
    }

    /// The statement that brings the teams.
    pub fn teams_query() -> (call: StorageCall)
        ensures
            call == (StorageCall::LoadTeams { limit: TEAM_LIMIT }),
    {
        StorageCall::LoadTeams { limit: TEAM_LIMIT }
    }

    /// The `teams` field: the rows that storage brought, and no more than the
    /// limit. A failure of storage is passed on.
    pub fn teams(loaded: Result<Vec<Team>, StorageError>) -> (resolved: Result<
        Vec<Team>,
        StorageError,
    >)
        ensures
            match loaded {
                Ok(rows) => resolved matches Ok(kept) && kept@ == capped(
                    rows@,
                    TEAM_LIMIT as nat,
                ),
                Err(error) => resolved == Err::<Vec<Team>, StorageError>(error),
            },
            resolved matches Ok(kept) ==> kept@.len() <= TEAM_LIMIT,
    {
        match loaded {
            Ok(rows) => {
                let mut kept = rows;
                kept.truncate(TEAM_LIMIT);
                Ok(kept)
            },
            Err(error) => Err(error),
        }
    }
}

/// The entry point of writes.
#[derive(Debug, PartialEq, Eq)]
pub struct MutationRoot;

impl MutationRoot {
    /// The one statement that creates a member from the caller's values.
    /// Nothing about the values is checked, and nothing is remembered: the
    /// same values asked twice are two inserts.
    pub fn create_member(data: NewMember) -> (call: StorageCall)
        ensures
            call == (StorageCall::InsertMember { data }),
    {
        StorageCall::InsertMember { data }
    }
}

} // verus!
