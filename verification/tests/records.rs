use team_swaps::rows::{keep_ok_rows, row_found, team_exists};
use team_swaps::statements::{
    assign_members, claim_statement, delete_user_statements, dissolve_team, insert_anime, insert_claim, insert_member,
    insert_team, rename_team, set_team_image, SqlParam, Statement, ASSIGN_MEMBER, DELETE_MEMBER,
    DELETE_SUBMISSIONS, DELETE_TEAM, DELETE_TEAM_CLAIMS, INSERT_CLAIM, RELEASE_TEAM_MEMBERS, RENAME_TEAM,
};
use team_swaps::teams::{collect_teams, group_by_team};
use team_swaps::{Member, Team, User};

fn team(id: u64, name: &str) -> Team {
    Team { team_id: id, team_image_url: None, team_name: name.to_string() }
}

fn member(id: u64, name: &str) -> Member {
    Member { member_id: id, member_name: name.to_string() }
}

fn ints(s: &Statement) -> Vec<Option<u64>> {
    s.params
        .iter()
        .map(|p| match p {
            SqlParam::Integer(n) => Some(*n),
            SqlParam::Text(_) => None,
        })
        .collect()
}

fn texts(s: &Statement) -> Vec<Option<String>> {
    s.params
        .iter()
        .map(|p| match p {
            SqlParam::Integer(_) => None,
            SqlParam::Text(t) => Some(t.clone()),
        })
        .collect()
}

#[test]
fn grouping_keeps_first_appearance_order_and_row_order() {
    let rows = vec![
        (team(2, "beta"), member(10, "ann")),
        (team(1, "alpha"), member(11, "bob")),
        (team(2, "beta-later"), member(12, "cat")),
        (team(1, "alpha"), member(13, "dan")),
        (team(3, "gamma"), member(14, "eve")),
    ];
    let groups = group_by_team(rows);
    assert_eq!(groups.len(), 3);
    assert_eq!(groups[0].team.team_id, 2);
    assert_eq!(groups[0].team.team_name, "beta");
    let ids: Vec<u64> = groups[0].members.iter().map(|m| m.member_id).collect();
    assert_eq!(ids, vec![10, 12]);
    assert_eq!(groups[1].team.team_id, 1);
    let ids: Vec<u64> = groups[1].members.iter().map(|m| m.member_id).collect();
    assert_eq!(ids, vec![11, 13]);
    assert_eq!(groups[2].team.team_id, 3);
    assert_eq!(groups[2].members.len(), 1);
    assert_eq!(groups[2].members[0].member_name, "eve");
    let total: usize = groups.iter().map(|g| g.members.len()).sum();
    assert_eq!(total, 5);
}

#[test]
fn grouping_no_rows_gives_no_teams() {
    assert!(group_by_team(Vec::new()).is_empty());
}

#[test]
fn collect_teams_drops_unreadable_rows() {
    let rows: Vec<Result<(Team, Member), String>> = vec![
        Ok((team(7, "x"), member(1, "a"))),
        Err("bad row".to_string()),
        Ok((team(7, "x"), member(2, "b"))),
        Err("another".to_string()),
    ];
    let groups = collect_teams(rows);
    assert_eq!(groups.len(), 1);
    assert_eq!(groups[0].members.len(), 2);
    assert_eq!(groups[0].members[1].member_id, 2);
}

#[test]
fn keep_ok_rows_keeps_order() {
    let rows: Vec<Result<u64, ()>> = vec![Ok(3), Err(()), Ok(1), Ok(2), Err(())];
    assert_eq!(keep_ok_rows(rows), vec![3, 1, 2]);
    let none: Vec<Result<u64, ()>> = vec![Err(()), Err(())];
    assert!(keep_ok_rows(none).is_empty());
}

#[test]
fn counts_and_lookups() {
    assert!(!team_exists(0));
    assert!(team_exists(1));
    assert!(team_exists(u64::MAX));
    assert!(row_found(&Some(5u64)));
    assert!(!row_found::<u64>(&None));
}

#[test]
fn create_team_statements() {
    let s = insert_team(&"Rockets".to_string());
    assert_eq!(texts(&s), vec![Some("Rockets".to_string())]);
    let members = vec![User { id: 100, name: "a".into() }, User { id: 200, name: "b".into() }];
    let updates = assign_members(42, &members);
    assert_eq!(updates.len(), 2);
    assert_eq!(updates[0].sql, ASSIGN_MEMBER);
    assert_eq!(ints(&updates[0]), vec![Some(42), Some(100)]);
    assert_eq!(ints(&updates[1]), vec![Some(42), Some(200)]);
    assert!(assign_members(1, &Vec::new()).is_empty());
}

#[test]
fn negative_rowid_is_read_as_unsigned() {
    let members = vec![User { id: 1, name: "a".into() }];
    let updates = assign_members(-1, &members);
    assert_eq!(ints(&updates[0]), vec![Some(u64::MAX), Some(1)]);
}

#[test]
fn member_and_anime_parameters_in_order() {
    let s = insert_member(User { id: 9, name: "nine".into() });
    assert_eq!(ints(&s), vec![Some(9), None]);
    assert_eq!(texts(&s), vec![None, Some("nine".to_string())]);
    let s = insert_anime(5, &"Mushishi".to_string(), 9);
    assert_eq!(ints(&s), vec![Some(5), None, Some(9)]);
    assert_eq!(texts(&s)[1], Some("Mushishi".to_string()));
}

#[test]
fn team_updates_bind_value_before_id() {
    let s = rename_team(3, "New".to_string());
    assert_eq!(s.sql, RENAME_TEAM);
    assert_eq!(texts(&s), vec![Some("New".to_string()), None]);
    assert_eq!(ints(&s), vec![None, Some(3)]);
    let s = set_team_image(4, "http://img".to_string());
    assert_eq!(texts(&s), vec![Some("http://img".to_string()), None]);
    assert_eq!(ints(&s), vec![None, Some(4)]);
}

#[test]
fn dissolving_a_team_releases_members_then_claims_then_team() {
    let s = dissolve_team(8);
    let sqls: Vec<&str> = s.iter().map(|st| st.sql).collect();
    assert_eq!(sqls, vec![RELEASE_TEAM_MEMBERS, DELETE_TEAM_CLAIMS, DELETE_TEAM]);
    for st in &s {
        assert_eq!(ints(st), vec![Some(8)]);
    }
}

#[test]
fn deleting_a_user_removes_submissions_first() {
    let s = delete_user_statements(77);
    let sqls: Vec<&str> = s.iter().map(|st| st.sql).collect();
    assert_eq!(sqls, vec![DELETE_SUBMISSIONS, DELETE_MEMBER]);
    assert_eq!(ints(&s[1]), vec![Some(77)]);
}

#[test]
fn claim_records_rfc3339_time() {
    let s = insert_claim(1, 2, 3, 0, 0).unwrap();
    assert_eq!(s.sql, INSERT_CLAIM);
    assert_eq!(ints(&s)[..3], [Some(1), Some(2), Some(3)]);
    assert_eq!(texts(&s)[3], Some("1970-01-01T00:00:00+00:00".to_string()));
    let s = insert_claim(1, 2, 3, 1431648000, 500_000_000).unwrap();
    assert_eq!(texts(&s)[3], Some("2015-05-15T00:00:00.500+00:00".to_string()));
}

#[test]
fn claim_time_out_of_range_is_refused() {
    assert!(insert_claim(1, 2, 3, 0, 2_000_000_000).is_none());
    assert!(insert_claim(1, 2, 3, i64::MAX, 0).is_none());
}

#[test]
fn claim_statement_binds_the_given_time() {
    let s = claim_statement(4, 5, 6, "2020-01-01T00:00:00+00:00".to_string());
    assert_eq!(s.sql, INSERT_CLAIM);
    assert_eq!(ints(&s), vec![Some(4), Some(5), Some(6), None]);
    assert_eq!(texts(&s)[3], Some("2020-01-01T00:00:00+00:00".to_string()));
}

#[test]
fn claim_time_accepted_exactly_within_chrono_range() {
    assert!(insert_claim(1, 2, 3, -8_334_601_228_800, 0).is_some());
    assert!(insert_claim(1, 2, 3, -8_334_601_228_801, 999_999_999).is_none());
    assert!(insert_claim(1, 2, 3, 8_210_266_876_799, 999_999_999).is_some());
    assert!(insert_claim(1, 2, 3, 8_210_266_876_800, 0).is_none());
    assert!(insert_claim(1, 2, 3, i64::MIN, 0).is_none());
}

#[test]
fn claim_time_leap_second_only_at_end_of_minute() {
    let s = insert_claim(1, 2, 3, 59, 1_500_000_000).unwrap();
    assert_eq!(texts(&s)[3], Some("1970-01-01T00:00:60.500+00:00".to_string()));
    assert!(insert_claim(1, 2, 3, -1, 1_000_000_000).is_some());
    assert!(insert_claim(1, 2, 3, 58, 1_000_000_000).is_none());
    assert!(insert_claim(1, 2, 3, 59, 2_000_000_000).is_none());
}
