//! Teams, members and the input from which a member is created.

use vstd::prelude::*;

verus! {

/// What a [`Member`] row holds, as mathematical values.
pub struct MemberView {
    pub id: int,
    pub name: Seq<char>,
    pub knockouts: int,
    pub team_id: int,
}

/// A member of a team, as persisted by storage.
#[derive(Debug, PartialEq, Eq)]
pub struct Member {
    id: i32,
    name: String,
    knockouts: i32,
    team_id: i32,
}

impl View for Member {
    type V = MemberView;

    closed spec fn view(&self) -> MemberView {
        MemberView {
            id: self.id as int,
            name: self.name@,
            knockouts: self.knockouts as int,
            team_id: self.team_id as int,
        }
    }
}

impl Clone for Member {
    fn clone(&self) -> (copy: Member)
        ensures
            copy == *self,
    {
        Member {
            id: self.id,
            name: self.name.clone(),
            knockouts: self.knockouts,
            team_id: self.team_id,
        }
    }
}

impl Member {
    /// Builds the member that a storage row describes.
    pub fn new(id: i32, name: String, knockouts: i32, team_id: i32) -> (member: Member)
        ensures
            member@ == (MemberView {
                id: id as int,
                name: name@,
                knockouts: knockouts as int,
                team_id: team_id as int,
            }),
    {
        Member { id, name, knockouts, team_id }
    }

    /// The identifier that storage assigned.
    pub fn id(&self) -> (id: i32)
        ensures
            id == self@.id,
    {
        self.id
    }

    /// The member's label.
    pub fn name(&self) -> (name: &str)
        ensures
            name@ == self@.name,
    {
        self.name.as_str()
    }

    /// The member's knockout counter; any integer is allowed.
    pub fn knockouts(&self) -> (knockouts: i32)
        ensures
            knockouts == self@.knockouts,
    {
        self.knockouts
    }

    /// The identifier of the team that the member belongs to.
    pub fn team_id(&self) -> (team_id: i32)
        ensures
            team_id == self@.team_id,
    {
        self.team_id
    }
}

} // verus!

verus! {

/// What a [`Team`] row holds, as mathematical values.
pub struct TeamView {
    pub id: int,
    pub name: Seq<char>,
}

/// A team, as persisted by storage. Its members are not stored on it.
#[derive(Debug, PartialEq, Eq)]
pub struct Team {
    id: i32,
    name: String,
}

impl View for Team {
    type V = TeamView;

    closed spec fn view(&self) -> TeamView {
        TeamView { id: self.id as int, name: self.name@ }
    }
}

impl Clone for Team {
    fn clone(&self) -> (copy: Team)
        ensures
            copy == *self,
    {
        Team { id: self.id, name: self.name.clone() }
    }
}

impl Team {
    /// Builds the team that a storage row describes.
    pub fn new(id: i32, name: String) -> (team: Team)
        ensures
            team@ == (TeamView { id: id as int, name: name@ }),
    {
        Team { id, name }
    }

    /// The identifier that storage assigned.
    pub fn id(&self) -> (id: i32)
        ensures
            id == self@.id,
    {
        self.id
    }

    /// The team's label.
    pub fn name(&self) -> (name: &str)
        ensures
            name@ == self@.name,
    {
        self.name.as_str()
    }
}

/// The caller's values for a member that is to be created. It lives for one
/// mutation and is never stored as a record of its own.
#[derive(Debug, PartialEq, Eq)]
pub struct NewMember {
    pub name: String,
    pub knockouts: i32,
    pub team_id: i32,
}

impl Clone for NewMember {
    fn clone(&self) -> (copy: NewMember)
        ensures
            copy == *self,
    {
        NewMember { name: self.name.clone(), knockouts: self.knockouts, team_id: self.team_id }
    }
}

} // verus!
