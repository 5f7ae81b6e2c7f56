use team_graph::entity::{Member, NewMember, Team};
use team_graph::gateway::{
    Config, ConfigError, StorageCall, StorageError, StorageReply, MEMBER_LIMIT, TEAM_LIMIT,
};
use team_graph::resolver::{MutationRoot, QueryRoot};

fn member(id: i32, team_id: i32) -> Member {
    Member::new(id, format!("m{}", id), id % 7, team_id)
}

fn members(count: i32, team_id: i32) -> Vec<Member> {
    (1..=count).map(|id| member(id, team_id)).collect()
}

fn teams(count: i32) -> Vec<Team> {
    (1..=count).map(|id| Team::new(id, format!("t{}", id))).collect()
}

#[test]
fn member_shows_its_row() {
    let row = Member::new(7, "m7".to_string(), 3, 5);
    assert_eq!(row.id(), 7);
    assert_eq!(row.name(), "m7");
    assert_eq!(row.knockouts(), 3);
    assert_eq!(row.team_id(), 5);
}

#[test]
fn member_knockouts_may_be_negative() {
    let row = Member::new(1, "down".to_string(), -4, 2);
    assert_eq!(row.knockouts(), -4);
    let low = Member::new(2, "lowest".to_string(), i32::MIN, 2);
    assert_eq!(low.knockouts(), i32::MIN);
}

#[test]
fn member_clone_is_equal() {
    let row = Member::new(7, "m7".to_string(), 3, 5);
    assert_eq!(row.clone(), row);
}

#[test]
fn team_shows_its_row() {
    let team = Team::new(5, "reds".to_string());
    assert_eq!(team.id(), 5);
    assert_eq!(team.name(), "reds");
    assert_eq!(team.clone(), team);
}

#[test]
fn limits_are_one_hundred_members_and_ten_teams() {
    assert_eq!(MEMBER_LIMIT, 100);
    assert_eq!(TEAM_LIMIT, 10);
}

#[test]
fn team_asks_for_its_own_members() {
    let team = Team::new(5, "reds".to_string());
    assert_eq!(
        team.members_query(),
        StorageCall::LoadMembers { team_id: Some(5), limit: 100 }
    );
    let other = Team::new(-3, "blues".to_string());
    assert_eq!(
        other.members_query(),
        StorageCall::LoadMembers { team_id: Some(-3), limit: 100 }
    );
}

#[test]
fn team_members_are_only_those_of_the_team() {
    let team = Team::new(5, "reds".to_string());
    let rows = vec![member(1, 5), member(2, 6), member(3, 5), member(4, 0), member(5, 5)];
    let kept = team.members(Ok(rows)).unwrap();
    assert_eq!(kept, vec![member(1, 5), member(3, 5), member(5, 5)]);
    assert!(kept.iter().all(|row| row.team_id() == team.id()));
}

#[test]
fn team_members_of_honest_rows_are_unchanged() {
    let team = Team::new(5, "reds".to_string());
    let kept = team.members(Ok(members(2, 5))).unwrap();
    assert_eq!(kept, members(2, 5));
}

#[test]
fn team_members_are_never_more_than_one_hundred() {
    let team = Team::new(5, "reds".to_string());
    let kept = team.members(Ok(members(150, 5))).unwrap();
    assert_eq!(kept.len(), 100);
    assert_eq!(kept, members(100, 5));
}

#[test]
fn team_members_are_filtered_before_they_are_capped() {
    let team = Team::new(5, "reds".to_string());
    let mut rows = members(120, 6);
    rows.extend((200..210).map(|id| member(id, 5)));
    let kept = team.members(Ok(rows)).unwrap();
    assert_eq!(kept.len(), 10);
    assert_eq!(kept[0].id(), 200);
    assert_eq!(kept[9].id(), 209);
}

#[test]
fn team_without_rows_has_no_members() {
    let team = Team::new(5, "reds".to_string());
    assert_eq!(team.members(Ok(Vec::new())), Ok(Vec::new()));
    assert_eq!(team.members(Ok(members(3, 6))), Ok(Vec::new()));
}

#[test]
fn team_members_fail_when_storage_fails() {
    let team = Team::new(5, "reds".to_string());
    assert_eq!(team.members(Err(StorageError::Unreachable)), Err(StorageError::Unreachable));
    assert_eq!(team.members(Err(StorageError::Rejected)), Err(StorageError::Rejected));
}

#[test]
fn query_root_asks_for_one_hundred_members() {
    assert_eq!(
        QueryRoot::members_query(),
        StorageCall::LoadMembers { team_id: None, limit: 100 }
    );
}

#[test]
fn query_members_are_never_more_than_one_hundred() {
    let kept = QueryRoot::members(Ok(members(250, 1))).unwrap();
    assert_eq!(kept, members(100, 1));
    let exact = QueryRoot::members(Ok(members(100, 1))).unwrap();
    assert_eq!(exact.len(), 100);
    let over = QueryRoot::members(Ok(members(101, 1))).unwrap();
    assert_eq!(over.len(), 100);
}

#[test]
fn query_members_keep_fewer_rows_as_they_are() {
    let rows = vec![member(3, 9), member(1, 2), member(2, 9)];
    assert_eq!(
        QueryRoot::members(Ok(rows)),
        Ok(vec![member(3, 9), member(1, 2), member(2, 9)])
    );
    assert_eq!(QueryRoot::members(Ok(Vec::new())), Ok(Vec::new()));
}

#[test]
fn query_members_fail_when_storage_fails() {
    assert_eq!(QueryRoot::members(Err(StorageError::Unreachable)), Err(StorageError::Unreachable));
}

#[test]
fn query_root_asks_for_ten_teams() {
    assert_eq!(QueryRoot::teams_query(), StorageCall::LoadTeams { limit: 10 });
}

#[test]
fn query_teams_are_never_more_than_ten() {
    let kept = QueryRoot::teams(Ok(teams(25))).unwrap();
    assert_eq!(kept, teams(10));
    assert_eq!(QueryRoot::teams(Ok(teams(11))).unwrap().len(), 10);
    assert_eq!(QueryRoot::teams(Ok(teams(10))).unwrap().len(), 10);
}

#[test]
fn query_teams_keep_fewer_rows_as_they_are() {
    assert_eq!(QueryRoot::teams(Ok(teams(3))), Ok(teams(3)));
    assert_eq!(QueryRoot::teams(Ok(Vec::new())), Ok(Vec::new()));
}

#[test]
fn query_teams_fail_when_storage_fails() {
    assert_eq!(QueryRoot::teams(Err(StorageError::Unreachable)), Err(StorageError::Unreachable));
}

#[test]
fn create_member_is_one_insert_of_the_input() {
    let data = NewMember { name: "m1".to_string(), knockouts: 0, team_id: 5 };
    assert_eq!(
        MutationRoot::create_member(data),
        StorageCall::InsertMember {
            data: NewMember { name: "m1".to_string(), knockouts: 0, team_id: 5 }
        }
    );
}

#[test]
fn create_member_checks_nothing_of_the_input() {
    let data = NewMember { name: String::new(), knockouts: -9, team_id: -1 };
    assert_eq!(
        MutationRoot::create_member(data.clone()),
        StorageCall::InsertMember { data }
    );
}

#[test]
fn create_member_twice_is_two_inserts() {
    let data = NewMember { name: "m1".to_string(), knockouts: 0, team_id: 5 };
    let first = MutationRoot::create_member(data.clone());
    let second = MutationRoot::create_member(data.clone());
    assert_eq!(first, StorageCall::InsertMember { data: data.clone() });
    assert_eq!(second, StorageCall::InsertMember { data });
}

#[test]
fn reply_is_read_as_what_was_asked() {
    assert_eq!(StorageReply::Members(members(2, 1)).into_members(), Ok(members(2, 1)));
    assert_eq!(StorageReply::Teams(teams(2)).into_teams(), Ok(teams(2)));
    assert_eq!(StorageReply::Inserted(member(1, 1)).into_inserted(), Ok(member(1, 1)));
}

#[test]
fn failed_reply_is_read_as_its_failure() {
    let failed = || StorageReply::Failed(StorageError::Unreachable);
    assert_eq!(failed().into_members(), Err(StorageError::Unreachable));
    assert_eq!(failed().into_teams(), Err(StorageError::Unreachable));
    assert_eq!(failed().into_inserted(), Err(StorageError::Unreachable));
    assert_eq!(
        StorageReply::Failed(StorageError::Rejected).into_inserted(),
        Err(StorageError::Rejected)
    );
}

#[test]
fn reply_to_another_statement_is_unexpected() {
    assert_eq!(StorageReply::Teams(teams(1)).into_members(), Err(StorageError::Unexpected));
    assert_eq!(StorageReply::Inserted(member(1, 1)).into_members(), Err(StorageError::Unexpected));
    assert_eq!(StorageReply::Members(members(1, 1)).into_teams(), Err(StorageError::Unexpected));
    assert_eq!(StorageReply::Inserted(member(1, 1)).into_teams(), Err(StorageError::Unexpected));
    assert_eq!(StorageReply::Members(members(1, 1)).into_inserted(), Err(StorageError::Unexpected));
    assert_eq!(StorageReply::Teams(teams(1)).into_inserted(), Err(StorageError::Unexpected));
}

#[test]
fn config_takes_the_connection_string() {
    assert_eq!(
        Config::from_lookup(Some("postgres://localhost/teams".to_string())),
        Ok(Config { database_url: "postgres://localhost/teams".to_string() })
    );
}

#[test]
fn config_without_connection_string_is_an_error() {
    assert_eq!(Config::from_lookup(None), Err(ConfigError::MissingDatabaseUrl));
}
