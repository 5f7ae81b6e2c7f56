//! What a resolved request holds: for each root field the records that it
//! brought.

use vstd::prelude::*;
use crate::entity::{Member, Team};
use crate::gateway::{MEMBER_LIMIT, TEAM_LIMIT};

verus! {

/// A team with the members that each `members` field selected on it
/// brought, one list for each such field, in the fields' order.
#[derive(Debug, PartialEq, Eq)]
pub struct TeamRecord {
    pub team: Team,
    pub members: Vec<Vec<Member>>,
}

/// A [`TeamRecord`] with its lists as sequences.
pub struct TeamRecordView {
    pub team: Team,
    pub members: Seq<Seq<Member>>,
}

/// The lists of members as sequences.
pub open spec fn lists_view(lists: Seq<Vec<Member>>) -> Seq<Seq<Member>> {
    lists.map_values(|list: Vec<Member>| list@)
}

impl View for TeamRecord {
    type V = TeamRecordView;

    open spec fn view(&self) -> TeamRecordView {
        TeamRecordView { team: self.team, members: lists_view(self.members@) }
    }
}

/// The records as values.
pub open spec fn records_view(records: Seq<TeamRecord>) -> Seq<TeamRecordView> {
    records.map_values(|record: TeamRecord| record@)
}

/// What one root field resolved to.
#[derive(Debug, PartialEq, Eq)]
pub enum FieldData {
    /// The field `members`.
    Members(Vec<Member>),
    /// The field `teams`.
    Teams(Vec<TeamRecord>),
    /// The field `createMember`: the member as persisted.
    Created(Member),
}

/// A [`FieldData`] with its lists as sequences.
pub enum FieldDataView {
    Members(Seq<Member>),
    Teams(Seq<TeamRecordView>),
    Created(Member),
}

impl View for FieldData {
    type V = FieldDataView;

    open spec fn view(&self) -> FieldDataView {
        match *self {
            FieldData::Members(members) => FieldDataView::Members(members@),
            FieldData::Teams(records) => FieldDataView::Teams(records_view(records@)),
            FieldData::Created(member) => FieldDataView::Created(member),
        }
    }
}

/// The resolved root fields as values.
pub open spec fn fields_view(fields: Seq<FieldData>) -> Seq<FieldDataView> {
    fields.map_values(|field: FieldData| field@)
}

/// Whether a list is one that a team may show as its members: within the
/// limit, and of that team only.
pub open spec fn list_within_limits(list: Seq<Member>, team_id: int) -> bool {
    &&& list.len() <= MEMBER_LIMIT
    &&& forall|i: int| 0 <= i < list.len() ==> (#[trigger] list[i])@.team_id == team_id
}

/// Whether each list of a record is one that its team may show.
pub open spec fn record_within_limits(record: TeamRecordView) -> bool {
    forall|j: int|
        0 <= j < record.members.len() ==> list_within_limits(
            #[trigger] record.members[j],
            record.team@.id,
        )
}

/// Whether each of the records is within its limits.
pub open spec fn records_within_limits(records: Seq<TeamRecordView>) -> bool {
    forall|i: int| 0 <= i < records.len() ==> record_within_limits(#[trigger] records[i])
}

/// Whether a resolved root field is within the limits of its kind: no more
/// members than the limit of members, no more teams than the limit of teams,
/// and below a team only members of that team.
pub open spec fn field_within_limits(field: FieldDataView) -> bool {
    match field {
        FieldDataView::Members(members) => members.len() <= MEMBER_LIMIT,
        FieldDataView::Teams(records) => records.len() <= TEAM_LIMIT && records_within_limits(
            records,
        ),
        FieldDataView::Created(_) => true,
    }
}

/// Whether every resolved root field is within its limits.
pub open spec fn within_limits(fields: Seq<FieldDataView>) -> bool {
    forall|i: int| 0 <= i < fields.len() ==> field_within_limits(#[trigger] fields[i])
}

} // verus!
