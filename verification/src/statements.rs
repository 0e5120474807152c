use vstd::prelude::*;

use crate::timestamp::{format_rfc3339, four_digit_year, is_utc_rfc3339, rfc3339_text, timestamp_accepted};
use crate::types::User;

verus! {

/// A value bound to a parameter of a statement.
pub enum SqlParam {
    Integer(u64),
    Text(String),
}

/// What a bound value stands for.
pub enum SqlValue {
    Integer(u64),
    Text(Seq<char>),
}

impl View for SqlParam {
    type V = SqlValue;

    open spec fn view(&self) -> SqlValue {
        match self {
            SqlParam::Integer(n) => SqlValue::Integer(*n),
            SqlParam::Text(s) => SqlValue::Text(s@),
        }
    }
}

/// An SQL statement and the values bound to its parameters, in order.
pub struct Statement {
    pub sql: &'static str,
    pub params: Vec<SqlParam>,
}

pub struct StatementView {
    pub sql: Seq<char>,
    pub params: Seq<SqlValue>,
}

impl View for Statement {
    type V = StatementView;

    open spec fn view(&self) -> StatementView {
        StatementView { sql: self.sql@, params: self.params@.map_values(|p: SqlParam| p@) }
    }
}

/// The view of a sequence of statements.
pub open spec fn statements_view(s: Seq<Statement>) -> Seq<StatementView> {
    s.map_values(|st: Statement| st@)
}

/// The statement with text `sql` and the given bound values.
pub open spec fn stmt(sql: &'static str, params: Seq<SqlValue>) -> StatementView {
    StatementView { sql: sql@, params }
}

pub const TEAMS_WITH_MEMBERS: &'static str = "SELECT members.member_id, members.name, teams.team_id, teams.team_name, teams.team_image_url FROM members INNER JOIN teams ON members.team = teams.team_id;";

pub const INSERT_TEAM: &'static str = "INSERT INTO teams (team_name) VALUES(?1);";

pub const ASSIGN_MEMBER: &'static str = "UPDATE members SET team = ?1 WHERE member_id = ?2;";

pub const INSERT_MEMBER: &'static str = "INSERT INTO members VALUES (?1, ?2, NULL);";

pub const INSERT_ANIME: &'static str = "INSERT INTO anime VALUES (?1, ?2, ?3);";

pub const INSERT_CLAIM: &'static str = "INSERT INTO claimed_anime (anime_id, team_id, claimed_by, claimed_on) VALUES (?1, ?2, ?3, ?4);";

pub const RELEASE_TEAM_MEMBERS: &'static str = "UPDATE MEMBERS SET team = NULL WHERE team = ?1;";

pub const DELETE_TEAM_CLAIMS: &'static str = "DELETE FROM claimed_anime WHERE team_id = ?1;";

pub const DELETE_TEAM: &'static str = "DELETE FROM teams WHERE team_id = ?1;";

pub const MEMBER_TEAM: &'static str = "SELECT team FROM members WHERE member_id = ?1;";

pub const TEAM_NAME_COUNT: &'static str = "SELECT COUNT(*) FROM teams WHERE team_name = ?1;";

pub const MEMBER_ID: &'static str = "SELECT member_id FROM members WHERE member_id = ?1;";

pub const ANIME_ID: &'static str = "SELECT anime_id FROM anime WHERE anime_id = ?1;";

pub const ANIME_CLAIMED: &'static str = "SELECT EXISTS( SELECT 1 FROM anime a JOIN claimed_anime ca ON a.anime_id = ca.anime_id WHERE a.name = ?1 )";

pub const SUBMISSION_COUNT: &'static str = "SELECT COUNT(*) AS anime_count FROM anime WHERE submitter = ?1;";

pub const SUBMITTED_NAMES: &'static str = "SELECT name FROM anime WHERE submitter = ?1;";

pub const ALL_ANIME: &'static str = "SELECT a.anime_id, a.name AS anime_name, m.name AS submitter_name, t.team_name AS claimed_team_name, ca.claimed_on FROM anime a JOIN members m ON a.submitter = m.member_id LEFT JOIN claimed_anime ca ON a.anime_id = ca.anime_id LEFT JOIN teams t ON ca.team_id = t.team_id;";

pub const ANIME_SUBMITTER: &'static str = "SELECT submitter FROM anime WHERE name = ?1;";

pub const MEMBER_ROW: &'static str = "SELECT * FROM members WHERE member_id = ?1;";

pub const ANIME_BY_NAME: &'static str = "SELECT anime_id, submitter FROM anime WHERE name = ?1;";

pub const UNCLAIMED_NAMES: &'static str = "SELECT a.name FROM anime a LEFT JOIN claimed_anime ca ON a.anime_id = ca.anime_id WHERE ca.anime_id IS NULL;";

pub const CLAIMED_BY_USER_TEAM: &'static str = "SELECT anime.name FROM claimed_anime JOIN anime ON claimed_anime.anime_id = anime.anime_id WHERE claimed_anime.team_id = ( SELECT team FROM members WHERE member_id = ? );";

pub const TEAM_MEMBER_IDS: &'static str = "SELECT member_id FROM members WHERE team = ?1;";

pub const TEAMLESS_MEMBERS: &'static str = "SELECT m.member_id, m.name FROM members m WHERE m.team IS NULL;";

pub const ELIGIBLE_TEAMLESS_NAMES: &'static str = "SELECT m.name FROM members m LEFT JOIN anime a ON m.member_id = a.submitter WHERE m.team IS NULL GROUP BY m.member_id, m.name HAVING COUNT(a.anime_id) >= 7;";

pub const CLAIM_OF_ANIME: &'static str = "SELECT team_id, claimed_on FROM claimed_anime WHERE anime_id = ?1;";

pub const SUBMISSION_COUNTS: &'static str = "SELECT m.member_id, m.name, COUNT(a.anime_id) AS anime_count FROM members m LEFT JOIN anime a ON m.member_id = a.submitter GROUP BY m.member_id, m.name;";

pub const DELETE_ANIME: &'static str = "DELETE FROM anime WHERE name = ?1;";

pub const DELETE_CLAIM: &'static str = "DELETE FROM claimed_anime WHERE anime_id = ?1;";

pub const DELETE_SUBMISSIONS: &'static str = "DELETE FROM anime WHERE submitter = ?1;";

pub const DELETE_MEMBER: &'static str = "DELETE FROM members WHERE member_id = ?1;";

pub const RENAME_TEAM: &'static str = "UPDATE teams SET team_name = ?1 WHERE team_id = ?2;";

pub const SET_TEAM_IMAGE: &'static str = "UPDATE teams SET team_image_url = ?1 WHERE team_id = ?2;";

fn no_params(sql: &'static str) -> (s: Statement)
    ensures
        s@ == stmt(sql, seq![]),
{
    let s = Statement { sql, params: Vec::new() };
    assert(s@.params =~= Seq::<SqlValue>::empty());
    s
}

fn one_param(sql: &'static str, p: SqlParam) -> (s: Statement)
    ensures
        s@ == stmt(sql, seq![p@]),
{
    let mut params: Vec<SqlParam> = Vec::new();
    params.push(p);
    let s = Statement { sql, params };
    assert(s@.params =~= seq![p@]);
    s
}

fn two_params(sql: &'static str, p: SqlParam, q: SqlParam) -> (s: Statement)
    ensures
        s@ == stmt(sql, seq![p@, q@]),
{
    let mut params: Vec<SqlParam> = Vec::new();
    params.push(p);
    params.push(q);
    let s = Statement { sql, params };
    assert(s@.params =~= seq![p@, q@]);
    s
}

/// The query for every member that belongs to a team, with that team.
pub fn teams_with_members_query() -> (s: Statement)
    ensures
        s@ == stmt(TEAMS_WITH_MEMBERS, seq![]),
{
    no_params(TEAMS_WITH_MEMBERS)
}

/// Adds a team with the given name.
pub fn insert_team(team_name: &String) -> (s: Statement)
    ensures
        s@ == stmt(INSERT_TEAM, seq![SqlValue::Text(team_name@)]),
{
    one_param(INSERT_TEAM, SqlParam::Text(team_name.clone()))
}

/// The team id that a row id of the `teams` table stands for: the row id's
/// bits read as an unsigned number.
pub open spec fn team_id_of_rowid(rowid: i64) -> u64 {
    rowid as u64
}

/// A row id that is not negative is the team id itself.
pub proof fn lemma_rowid_is_team_id(rowid: i64)
    requires
        rowid >= 0,
    ensures
        team_id_of_rowid(rowid) == rowid,
{
}

/// Puts each of `members`, in order, into the team that was added with row id
/// `team_rowid`: one statement per member.
pub fn assign_members(team_rowid: i64, members: &Vec<User>) -> (s: Vec<Statement>)
    ensures
        s@.len() == members@.len(),
        forall|i: int|
            0 <= i < members@.len() ==> #[trigger] s@[i]@ == stmt(
                ASSIGN_MEMBER,
                seq![SqlValue::Integer(team_id_of_rowid(team_rowid)), SqlValue::Integer(members@[i].id)],
            ),
{
    let team_id: u64 = team_rowid as u64;
    let mut s: Vec<Statement> = Vec::new();
    let n: usize = members.len();
    for i in 0..n
        invariant
            n == members@.len(),
            team_id == team_id_of_rowid(team_rowid),
            s@.len() == i,
            forall|k: int|
                0 <= k < i ==> #[trigger] s@[k]@ == stmt(
                    ASSIGN_MEMBER,
                    seq![SqlValue::Integer(team_id), SqlValue::Integer(members@[k].id)],
                ),
    {
        s.push(two_params(ASSIGN_MEMBER, SqlParam::Integer(team_id), SqlParam::Integer(members[i].id)));
    }
    s
}

/// Adds a member, with no team, under the user's id and name.
pub fn insert_member(member: User) -> (s: Statement)
    ensures
        s@ == stmt(INSERT_MEMBER, seq![SqlValue::Integer(member.id), SqlValue::Text(member.name@)]),
{
    two_params(INSERT_MEMBER, SqlParam::Integer(member.id), SqlParam::Text(member.name))
}

/// Adds an anime with its id, its name and the id of the member that submitted it.
pub fn insert_anime(anime_id: u64, anime_name: &String, submitter_id: u64) -> (s: Statement)
    ensures
        s@ == stmt(
            INSERT_ANIME,
            seq![SqlValue::Integer(anime_id), SqlValue::Text(anime_name@), SqlValue::Integer(submitter_id)],
        ),
{
    let mut params: Vec<SqlParam> = Vec::new();
    params.push(SqlParam::Integer(anime_id));
    params.push(SqlParam::Text(anime_name.clone()));
    params.push(SqlParam::Integer(submitter_id));
    let s = Statement { sql: INSERT_ANIME, params };
    assert(s@.params =~= seq![SqlValue::Integer(anime_id), SqlValue::Text(anime_name@), SqlValue::Integer(submitter_id)]);
    s
}

/// Records that a team claimed an anime, through one of its members, at the
/// time given as text.
pub fn claim_statement(anime_id: u64, team_id: u64, user_id: u64, claimed_on: String) -> (s: Statement)
    ensures
        s@ == stmt(
            INSERT_CLAIM,
            seq![
                SqlValue::Integer(anime_id),
                SqlValue::Integer(team_id),
                SqlValue::Integer(user_id),
                SqlValue::Text(claimed_on@),
            ],
        ),
{
    let ghost when = claimed_on@;
    let mut params: Vec<SqlParam> = Vec::new();
    params.push(SqlParam::Integer(anime_id));
    params.push(SqlParam::Integer(team_id));
    params.push(SqlParam::Integer(user_id));
    params.push(SqlParam::Text(claimed_on));
    let s = Statement { sql: INSERT_CLAIM, params };
    assert(s@.params =~= seq![
        SqlValue::Integer(anime_id),
        SqlValue::Integer(team_id),
        SqlValue::Integer(user_id),
        SqlValue::Text(when),
    ]);
    s
}

/// Records that a team claimed an anime, through one of its members, at the
/// instant `secs` seconds and `nanos` nanoseconds after the Unix epoch, which
/// is stored as its RFC 3339 text in UTC (date, time of day, fraction of the
/// second, `+00:00`; see `is_utc_rfc3339`). `None` exactly where chrono refuses that
/// instant (see `timestamp_accepted`).
pub fn insert_claim(anime_id: u64, team_id: u64, user_id: u64, secs: i64, nanos: u32) -> (s: Option<Statement>)
    ensures
        s matches Some(st) ==> st@ == stmt(
            INSERT_CLAIM,
            seq![
                SqlValue::Integer(anime_id),
                SqlValue::Integer(team_id),
                SqlValue::Integer(user_id),
                SqlValue::Text(rfc3339_text(secs, nanos)),
            ],
        ),
        s is Some <==> timestamp_accepted(secs, nanos),
        four_digit_year(secs as int) && s is Some ==> is_utc_rfc3339(
            rfc3339_text(secs, nanos),
            secs as int,
            nanos as int,
        ),
{
    match format_rfc3339(secs, nanos) {
        Some(claimed_on) => Some(claim_statement(anime_id, team_id, user_id, claimed_on)),
        None => None,
    }
}

/// Takes a team out of the records: its members are left without a team,
/// its claims are removed, then the team itself, in that order.
pub fn dissolve_team(team_id: u64) -> (s: Vec<Statement>)
    ensures
        statements_view(s@) == seq![
            stmt(RELEASE_TEAM_MEMBERS, seq![SqlValue::Integer(team_id)]),
            stmt(DELETE_TEAM_CLAIMS, seq![SqlValue::Integer(team_id)]),
            stmt(DELETE_TEAM, seq![SqlValue::Integer(team_id)]),
        ],
{
    let mut s: Vec<Statement> = Vec::new();
    s.push(one_param(RELEASE_TEAM_MEMBERS, SqlParam::Integer(team_id)));
    s.push(one_param(DELETE_TEAM_CLAIMS, SqlParam::Integer(team_id)));
    s.push(one_param(DELETE_TEAM, SqlParam::Integer(team_id)));
    assert(statements_view(s@) =~= seq![
        stmt(RELEASE_TEAM_MEMBERS, seq![SqlValue::Integer(team_id)]),
        stmt(DELETE_TEAM_CLAIMS, seq![SqlValue::Integer(team_id)]),
        stmt(DELETE_TEAM, seq![SqlValue::Integer(team_id)]),
    ]);
    s
}

/// The query for the team of a member (no value when the member has no team).
pub fn member_team_query(user_id: u64) -> (s: Statement)
    ensures
        s@ == stmt(MEMBER_TEAM, seq![SqlValue::Integer(user_id)]),
{
    one_param(MEMBER_TEAM, SqlParam::Integer(user_id))
}

/// The query for the number of teams with a given name.
pub fn team_name_count_query(team_name: &String) -> (s: Statement)
    ensures
        s@ == stmt(TEAM_NAME_COUNT, seq![SqlValue::Text(team_name@)]),
{
    one_param(TEAM_NAME_COUNT, SqlParam::Text(team_name.clone()))
}

/// The query for the member with a given id.
pub fn member_id_query(user_id: u64) -> (s: Statement)
    ensures
        s@ == stmt(MEMBER_ID, seq![SqlValue::Integer(user_id)]),
{
    one_param(MEMBER_ID, SqlParam::Integer(user_id))
}

/// The query for the anime with a given id.
pub fn anime_id_query(anime_id: u64) -> (s: Statement)
    ensures
        s@ == stmt(ANIME_ID, seq![SqlValue::Integer(anime_id)]),
{
    one_param(ANIME_ID, SqlParam::Integer(anime_id))
}

/// The query for whether an anime with a given name has been claimed.
pub fn anime_claimed_query(anime_name: &String) -> (s: Statement)
    ensures
        s@ == stmt(ANIME_CLAIMED, seq![SqlValue::Text(anime_name@)]),
{
    one_param(ANIME_CLAIMED, SqlParam::Text(anime_name.clone()))
}

/// The query for the number of anime that a member submitted.
pub fn submission_count_query(user_id: u64) -> (s: Statement)
    ensures
        s@ == stmt(SUBMISSION_COUNT, seq![SqlValue::Integer(user_id)]),
{
    one_param(SUBMISSION_COUNT, SqlParam::Integer(user_id))
}

/// The query for the names of the anime that a member submitted.
pub fn submitted_names_query(user_id: u64) -> (s: Statement)
    ensures
        s@ == stmt(SUBMITTED_NAMES, seq![SqlValue::Integer(user_id)]),
{
    one_param(SUBMITTED_NAMES, SqlParam::Integer(user_id))
}

/// The query for every submitted anime, with its submitter and its claim.
pub fn all_anime_query() -> (s: Statement)
    ensures
        s@ == stmt(ALL_ANIME, seq![]),
{
    no_params(ALL_ANIME)
}

/// The query for the submitter of the anime with a given name.
pub fn anime_submitter_query(anime_name: &String) -> (s: Statement)
    ensures
        s@ == stmt(ANIME_SUBMITTER, seq![SqlValue::Text(anime_name@)]),
{
    one_param(ANIME_SUBMITTER, SqlParam::Text(anime_name.clone()))
}

/// The query for the whole row of a member.
pub fn member_row_query(user_id: u64) -> (s: Statement)
    ensures
        s@ == stmt(MEMBER_ROW, seq![SqlValue::Integer(user_id)]),
{
    one_param(MEMBER_ROW, SqlParam::Integer(user_id))
}

/// The query for the id and the submitter of the anime with a given name.
pub fn anime_by_name_query(anime_name: &String) -> (s: Statement)
    ensures
        s@ == stmt(ANIME_BY_NAME, seq![SqlValue::Text(anime_name@)]),
{
    one_param(ANIME_BY_NAME, SqlParam::Text(anime_name.clone()))
}

/// The query for the names of the anime that nobody has claimed.
pub fn unclaimed_names_query() -> (s: Statement)
    ensures
        s@ == stmt(UNCLAIMED_NAMES, seq![]),
{
    no_params(UNCLAIMED_NAMES)
}

/// The query for the names of the anime claimed by the team of a member.
pub fn claimed_by_user_team_query(user_id: u64) -> (s: Statement)
    ensures
        s@ == stmt(CLAIMED_BY_USER_TEAM, seq![SqlValue::Integer(user_id)]),
{
    one_param(CLAIMED_BY_USER_TEAM, SqlParam::Integer(user_id))
}

/// The query for the ids of the members of a team.
pub fn team_member_ids_query(team_id: u64) -> (s: Statement)
    ensures
        s@ == stmt(TEAM_MEMBER_IDS, seq![SqlValue::Integer(team_id)]),
{
    one_param(TEAM_MEMBER_IDS, SqlParam::Integer(team_id))
}

/// The query for the id and name of every member without a team.
pub fn teamless_members_query() -> (s: Statement)
    ensures
        s@ == stmt(TEAMLESS_MEMBERS, seq![]),
{
    no_params(TEAMLESS_MEMBERS)
}

/// The query for the names of the members without a team that have submitted
/// at least seven anime.
pub fn eligible_teamless_names_query() -> (s: Statement)
    ensures
        s@ == stmt(ELIGIBLE_TEAMLESS_NAMES, seq![]),
{
    no_params(ELIGIBLE_TEAMLESS_NAMES)
}

/// The query for the team that claimed an anime and when.
pub fn claim_of_anime_query(anime_id: u64) -> (s: Statement)
    ensures
        s@ == stmt(CLAIM_OF_ANIME, seq![SqlValue::Integer(anime_id)]),
{
    one_param(CLAIM_OF_ANIME, SqlParam::Integer(anime_id))
}

/// The query for the id, the name and the number of submissions of every member.
pub fn submission_counts_query() -> (s: Statement)
    ensures
        s@ == stmt(SUBMISSION_COUNTS, seq![]),
{
    no_params(SUBMISSION_COUNTS)
}

/// Removes the anime with a given name.
pub fn delete_anime_statement(anime_name: &String) -> (s: Statement)
    ensures
        s@ == stmt(DELETE_ANIME, seq![SqlValue::Text(anime_name@)]),
{
    one_param(DELETE_ANIME, SqlParam::Text(anime_name.clone()))
}

/// Removes the claim on an anime.
pub fn delete_claim_statement(anime_id: u64) -> (s: Statement)
    ensures
        s@ == stmt(DELETE_CLAIM, seq![SqlValue::Integer(anime_id)]),
{
    one_param(DELETE_CLAIM, SqlParam::Integer(anime_id))
}

/// Removes a member: first the anime it submitted, then the member itself.
pub fn delete_user_statements(user_id: u64) -> (s: Vec<Statement>)
    ensures
        statements_view(s@) == seq![
            stmt(DELETE_SUBMISSIONS, seq![SqlValue::Integer(user_id)]),
            stmt(DELETE_MEMBER, seq![SqlValue::Integer(user_id)]),
        ],
{
    let mut s: Vec<Statement> = Vec::new();
    s.push(one_param(DELETE_SUBMISSIONS, SqlParam::Integer(user_id)));
    s.push(one_param(DELETE_MEMBER, SqlParam::Integer(user_id)));
    assert(statements_view(s@) =~= seq![
        stmt(DELETE_SUBMISSIONS, seq![SqlValue::Integer(user_id)]),
        stmt(DELETE_MEMBER, seq![SqlValue::Integer(user_id)]),
    ]);
    s
}

/// Gives a team a new name.
pub fn rename_team(team_id: u64, new_name: String) -> (s: Statement)
    ensures
        s@ == stmt(RENAME_TEAM, seq![SqlValue::Text(new_name@), SqlValue::Integer(team_id)]),
{
    two_params(RENAME_TEAM, SqlParam::Text(new_name), SqlParam::Integer(team_id))
}

/// Gives a team a new image.
pub fn set_team_image(team_id: u64, new_image: String) -> (s: Statement)
    ensures
        s@ == stmt(SET_TEAM_IMAGE, seq![SqlValue::Text(new_image@), SqlValue::Integer(team_id)]),
{
    two_params(SET_TEAM_IMAGE, SqlParam::Text(new_image), SqlParam::Integer(team_id))
}

} // verus!
