use rusqlite::types::Value;
use rusqlite::{params_from_iter, Connection, OptionalExtension};
use team_swaps::rows::{keep_ok_rows, row_found, team_exists};
use team_swaps::statements::{
    all_anime_query, anime_by_name_query, anime_claimed_query, assign_members, delete_user_statements,
    dissolve_team, eligible_teamless_names_query, insert_anime, insert_claim, insert_member, insert_team,
    member_id_query, member_team_query, team_name_count_query, teams_with_members_query, unclaimed_names_query,
    SqlParam, Statement,
};
use team_swaps::teams::collect_teams;
use team_swaps::{Member, Team, User};

fn values(s: &Statement) -> Vec<Value> {
    s.params
        .iter()
        .map(|p| match p {
            SqlParam::Integer(n) => Value::Integer(i64::try_from(*n).unwrap()),
            SqlParam::Text(t) => Value::Text(t.clone()),
        })
        .collect()
}

fn run(conn: &Connection, s: &Statement) -> usize {
    conn.execute(s.sql, params_from_iter(values(s))).unwrap()
}

fn schema() -> Connection {
    let conn = Connection::open_in_memory().unwrap();
    conn.execute_batch(
        "CREATE TABLE teams (team_id INTEGER PRIMARY KEY, team_name TEXT, team_image_url TEXT);
         CREATE TABLE members (member_id INTEGER PRIMARY KEY, name TEXT, team INTEGER);
         CREATE TABLE anime (anime_id INTEGER PRIMARY KEY, name TEXT, submitter INTEGER);
         CREATE TABLE claimed_anime (anime_id INTEGER, team_id INTEGER, claimed_by INTEGER, claimed_on TEXT);",
    )
    .unwrap();
    conn
}

fn user(id: u64, name: &str) -> User {
    User { id, name: name.to_string() }
}

#[test]
fn team_lifecycle_through_sqlite() {
    let conn = schema();
    for u in [user(1, "ann"), user(2, "bob"), user(3, "cat")] {
        assert_eq!(run(&conn, &insert_member(u)), 1);
    }
    assert_eq!(run(&conn, &insert_team(&"Rockets".to_string())), 1);
    let rowid = conn.last_insert_rowid();
    for s in assign_members(rowid, &vec![user(1, "ann"), user(3, "cat")]) {
        assert_eq!(run(&conn, &s), 1);
    }

    let q = team_name_count_query(&"Rockets".to_string());
    let count: u64 = conn.query_row(q.sql, params_from_iter(values(&q)), |r| r.get(0)).unwrap();
    assert!(team_exists(count));

    let q = teams_with_members_query();
    let mut stmt = conn.prepare(q.sql).unwrap();
    let rows: Vec<Result<(Team, Member), rusqlite::Error>> = stmt
        .query_map(params_from_iter(values(&q)), |row| {
            Ok((
                Team { team_id: row.get(2)?, team_image_url: row.get(4)?, team_name: row.get(3)? },
                Member { member_id: row.get(0)?, member_name: row.get(1)? },
            ))
        })
        .unwrap()
        .collect();
    let teams = collect_teams(rows);
    assert_eq!(teams.len(), 1);
    assert_eq!(teams[0].team.team_name, "Rockets");
    let mut ids: Vec<u64> = teams[0].members.iter().map(|m| m.member_id).collect();
    ids.sort();
    assert_eq!(ids, vec![1, 3]);

    let q = member_team_query(2);
    let team_of_bob: Option<u64> = conn.query_row(q.sql, params_from_iter(values(&q)), |r| r.get(0)).unwrap();
    assert_eq!(team_of_bob, None);

    for s in dissolve_team(rowid as u64) {
        run(&conn, &s);
    }
    let q = member_team_query(1);
    let team_of_ann: Option<u64> = conn.query_row(q.sql, params_from_iter(values(&q)), |r| r.get(0)).unwrap();
    assert_eq!(team_of_ann, None);
}

#[test]
fn anime_claims_through_sqlite() {
    let conn = schema();
    run(&conn, &insert_member(user(1, "ann")));
    run(&conn, &insert_anime(10, &"Mushishi".to_string(), 1));
    run(&conn, &insert_anime(11, &"Haibane".to_string(), 1));
    run(&conn, &insert_claim(10, 5, 1, 0, 0).unwrap());

    let q = anime_claimed_query(&"Mushishi".to_string());
    let claimed: bool = conn.query_row(q.sql, params_from_iter(values(&q)), |r| r.get(0)).unwrap();
    assert!(claimed);

    let q = unclaimed_names_query();
    let mut stmt = conn.prepare(q.sql).unwrap();
    let names: Vec<Result<String, rusqlite::Error>> =
        stmt.query_map(params_from_iter(values(&q)), |r| r.get(0)).unwrap().collect();
    assert_eq!(keep_ok_rows(names), vec!["Haibane".to_string()]);

    let q = all_anime_query();
    let mut stmt = conn.prepare(q.sql).unwrap();
    let n = stmt.query_map(params_from_iter(values(&q)), |r| r.get::<_, u64>(0)).unwrap().count();
    assert_eq!(n, 2);

    let q = anime_by_name_query(&"Nothing".to_string());
    let found: Option<(u64, u64)> = conn
        .query_row(q.sql, params_from_iter(values(&q)), |r| Ok((r.get(0)?, r.get(1)?)))
        .optional()
        .unwrap();
    assert_eq!(found, None);

    let q = eligible_teamless_names_query();
    let mut stmt = conn.prepare(q.sql).unwrap();
    let eligible = stmt.query_map(params_from_iter(values(&q)), |r| r.get::<_, String>(0)).unwrap().count();
    assert_eq!(eligible, 0);

    for s in delete_user_statements(1) {
        run(&conn, &s);
    }
    let q = member_id_query(1);
    let gone: Option<u64> =
        conn.query_row(q.sql, params_from_iter(values(&q)), |r| r.get(0)).optional().unwrap();
    assert!(!row_found(&gone));
}

#[test]
fn teamless_members_with_seven_submissions_are_eligible() {
    let conn = schema();
    run(&conn, &insert_member(user(1, "ann")));
    run(&conn, &insert_member(user(2, "bob")));
    for k in 0..7u64 {
        run(&conn, &insert_anime(100 + k, &format!("a{}", k), 1));
    }
    for k in 0..6u64 {
        run(&conn, &insert_anime(200 + k, &format!("b{}", k), 2));
    }
    let q = eligible_teamless_names_query();
    let mut stmt = conn.prepare(q.sql).unwrap();
    let rows: Vec<Result<String, rusqlite::Error>> =
        stmt.query_map(params_from_iter(values(&q)), |r| r.get(0)).unwrap().collect();
    assert_eq!(keep_ok_rows(rows), vec!["ann".to_string()]);

    run(&conn, &insert_team(&"T".to_string()));
    let rowid = conn.last_insert_rowid();
    for s in assign_members(rowid, &vec![user(1, "ann")]) {
        run(&conn, &s);
    }
    let mut stmt = conn.prepare(q.sql).unwrap();
    let n = stmt.query_map(params_from_iter(values(&q)), |r| r.get::<_, String>(0)).unwrap().count();
    assert_eq!(n, 0);
}
