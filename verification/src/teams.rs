use vstd::prelude::*;

use crate::rows::{keep_ok_rows, ok_values};
use crate::types::{Member, MemberView, Team, TeamMembers, TeamMembersView, TeamView, members_view};

verus! {

/// The view of a sequence of (team, member) rows.
pub open spec fn rows_view(rows: Seq<(Team, Member)>) -> Seq<(TeamView, MemberView)> {
    rows.map_values(|r: (Team, Member)| (r.0@, r.1@))
}

/// The view of a sequence of teams with their members.
pub open spec fn groups_view(groups: Seq<TeamMembers>) -> Seq<TeamMembersView> {
    groups.map_values(|g: TeamMembers| g@)
}

/// The position of the last group whose team has id `id`, or -1 if there is none.
pub open spec fn team_index(groups: Seq<TeamMembersView>, id: u64) -> int
    decreases groups.len(),
{
    if groups.len() == 0 {
        -1
    } else if groups.last().team.team_id == id {
        groups.len() - 1
    } else {
        team_index(groups.drop_last(), id)
    }
}

/// Files one row under its team: the member joins the group of a team with the
/// same id if there is one, else a new group for the row's team is added at the end.
pub open spec fn add_row(groups: Seq<TeamMembersView>, row: (TeamView, MemberView)) -> Seq<TeamMembersView> {
    let j = team_index(groups, row.0.team_id);
    if j >= 0 {
        groups.update(j, TeamMembersView { team: groups[j].team, members: groups[j].members.push(row.1) })
    } else {
        groups.push(TeamMembersView { team: row.0, members: seq![row.1] })
    }
}

/// The rows grouped by team id, the groups in the order in which their team
/// first occurs among the rows.
pub open spec fn group_rows(rows: Seq<(TeamView, MemberView)>) -> Seq<TeamMembersView>
    decreases rows.len(),
{
    if rows.len() == 0 {
        Seq::empty()
    } else {
        add_row(group_rows(rows.drop_last()), rows.last())
    }
}

/// The members of the rows whose team has id `id`, in the order of the rows.
pub open spec fn members_of_team(rows: Seq<(TeamView, MemberView)>, id: u64) -> Seq<MemberView>
    decreases rows.len(),
{
    if rows.len() == 0 {
        Seq::empty()
    } else if rows.last().0.team_id == id {
        members_of_team(rows.drop_last(), id).push(rows.last().1)
    } else {
        members_of_team(rows.drop_last(), id)
    }
}

/// Whether some row belongs to the team with id `id`.
pub open spec fn has_team(rows: Seq<(TeamView, MemberView)>, id: u64) -> bool {
    exists|i: int| 0 <= i < rows.len() && #[trigger] rows[i].0.team_id == id
}

/// The team of the first row whose team has id `id`.
pub open spec fn first_team(rows: Seq<(TeamView, MemberView)>, id: u64) -> TeamView
    decreases rows.len(),
{
    if rows.len() == 0 {
        arbitrary()
    } else if has_team(rows.drop_last(), id) {
        first_team(rows.drop_last(), id)
    } else {
        rows.last().0
    }
}

/// The number of members over all groups.
pub open spec fn total_members(groups: Seq<TeamMembersView>) -> nat
    decreases groups.len(),
{
    if groups.len() == 0 {
        0
    } else {
        total_members(groups.drop_last()) + groups.last().members.len()
    }
}

/// `groups` is a grouping of `rows` by team: no two groups share a team id; a
/// group exists for exactly the team ids that occur among the rows; each group
/// holds the team of the first row with its id and the members of all rows with
/// its id, in row order; and the groups hold as many members as there are rows.
pub open spec fn is_grouping_of(groups: Seq<TeamMembersView>, rows: Seq<(TeamView, MemberView)>) -> bool {
    &&& forall|i: int, k: int|
        0 <= i < k < groups.len() ==> #[trigger] groups[i].team.team_id != #[trigger] groups[k].team.team_id
    &&& forall|id: u64|
        (exists|k: int| 0 <= k < groups.len() && #[trigger] groups[k].team.team_id == id) <==> #[trigger] has_team(
            rows,
            id,
        )
    &&& forall|k: int|
        0 <= k < groups.len() ==> #[trigger] groups[k].members == members_of_team(rows, groups[k].team.team_id)
    &&& forall|k: int| 0 <= k < groups.len() ==> #[trigger] groups[k].team == first_team(rows, groups[k].team.team_id)
    &&& total_members(groups) == rows.len()
}

proof fn lemma_team_index(groups: Seq<TeamMembersView>, id: u64)
    ensures
        -1 <= team_index(groups, id) < groups.len(),
        team_index(groups, id) >= 0 ==> groups[team_index(groups, id)].team.team_id == id,
        team_index(groups, id) == -1 ==> forall|k: int| 0 <= k < groups.len() ==> #[trigger] groups[k].team.team_id != id,
    decreases groups.len(),
{
    if groups.len() > 0 {
        lemma_team_index(groups.drop_last(), id);
        if groups.last().team.team_id != id && team_index(groups, id) == -1 {
            assert forall|k: int| 0 <= k < groups.len() implies #[trigger] groups[k].team.team_id != id by {
                if k < groups.len() - 1 {
                    assert(groups.drop_last()[k] == groups[k]);
                }
            }
        }
    }
}

proof fn lemma_has_team_step(rows: Seq<(TeamView, MemberView)>, id: u64)
    requires
        rows.len() > 0,
    ensures
        has_team(rows, id) <==> (has_team(rows.drop_last(), id) || rows.last().0.team_id == id),
{
    let r = rows.drop_last();
    if has_team(r, id) {
        let i = choose|i: int| 0 <= i < r.len() && #[trigger] r[i].0.team_id == id;
        assert(rows[i] == r[i]);
    }
    if rows.last().0.team_id == id {
        assert(rows[rows.len() - 1].0.team_id == id);
    }
    if has_team(rows, id) && rows.last().0.team_id != id {
        let i = choose|i: int| 0 <= i < rows.len() && #[trigger] rows[i].0.team_id == id;
        assert(r[i] == rows[i]);
    }
}

proof fn lemma_no_members_without_team(rows: Seq<(TeamView, MemberView)>, id: u64)
    requires
        !has_team(rows, id),
    ensures
        members_of_team(rows, id) == Seq::<MemberView>::empty(),
    decreases rows.len(),
{
    if rows.len() > 0 {
        lemma_has_team_step(rows, id);
        lemma_no_members_without_team(rows.drop_last(), id);
    }
}

proof fn lemma_total_update(groups: Seq<TeamMembersView>, j: int, g: TeamMembersView)
    requires
        0 <= j < groups.len(),
        g.members.len() == groups[j].members.len() + 1,
    ensures
        total_members(groups.update(j, g)) == total_members(groups) + 1,
    decreases groups.len(),
{
    let u = groups.update(j, g);
    if j == groups.len() - 1 {
        assert(u.drop_last() =~= groups.drop_last());
    } else {
        lemma_total_update(groups.drop_last(), j, g);
        assert(u.drop_last() =~= groups.drop_last().update(j, g));
    }
}

/// Grouping the rows by team partitions them: no two groups share a team id;
/// a group exists for exactly the team ids that occur among the rows; each
/// group holds the team of the first row with its id and the members of all
/// the rows with its id, in row order; and no member is lost or added.
pub proof fn lemma_grouping_partitions_rows(rows: Seq<(TeamView, MemberView)>)
    ensures
        is_grouping_of(group_rows(rows), rows),
    decreases rows.len(),
{
    if rows.len() > 0 {
        let r = rows.drop_last();
        let last = rows.last();
        let id = last.0.team_id;
        let g0 = group_rows(r);
        let g = group_rows(rows);
        lemma_grouping_partitions_rows(r);
        lemma_team_index(g0, id);
        let j = team_index(g0, id);
        assert forall|x: u64| #[trigger] has_team(rows, x) <==> (has_team(r, x) || x == id) by {
            lemma_has_team_step(rows, x);
        }
        if j >= 0 {
            let ng = TeamMembersView { team: g0[j].team, members: g0[j].members.push(last.1) };
            assert(g == g0.update(j, ng));
            assert(has_team(r, id)) by {
                assert(g0[j].team.team_id == id);
            }
            assert forall|k: int| 0 <= k < g.len() implies #[trigger] g[k].members == members_of_team(
                rows,
                g[k].team.team_id,
            ) by {
                if k != j {
                    assert(g0[k].team.team_id != id);
                }
            }
            assert forall|x: u64|
                (exists|k: int| 0 <= k < g.len() && #[trigger] g[k].team.team_id == x) <==> #[trigger] has_team(
                    rows,
                    x,
                ) by {
                if exists|k: int| 0 <= k < g.len() && #[trigger] g[k].team.team_id == x {
                    let k = choose|k: int| 0 <= k < g.len() && #[trigger] g[k].team.team_id == x;
                    assert(g0[k].team.team_id == x);
                }
                if has_team(r, x) {
                    let k = choose|k: int| 0 <= k < g0.len() && #[trigger] g0[k].team.team_id == x;
                    assert(g[k].team.team_id == x);
                }
                if x == id {
                    assert(g[j].team.team_id == x);
                }
            }
            assert forall|k: int| 0 <= k < g.len() implies #[trigger] g[k].team == first_team(
                rows,
                g[k].team.team_id,
            ) by {
                let x = g[k].team.team_id;
                assert(g0[k].team.team_id == x);
                assert(has_team(r, x));
            }
            lemma_total_update(g0, j, ng);
        } else {
            let ng = TeamMembersView { team: last.0, members: seq![last.1] };
            assert(g == g0.push(ng));
            assert(!has_team(r, id));
            lemma_no_members_without_team(r, id);
            assert(members_of_team(rows, id) =~= seq![last.1]);
            assert forall|k: int| 0 <= k < g.len() implies #[trigger] g[k].members == members_of_team(
                rows,
                g[k].team.team_id,
            ) by {
                if k < g0.len() {
                    assert(g[k] == g0[k]);
                    assert(g0[k].team.team_id != id);
                }
            }
            assert forall|x: u64|
                (exists|k: int| 0 <= k < g.len() && #[trigger] g[k].team.team_id == x) <==> #[trigger] has_team(
                    rows,
                    x,
                ) by {
                if exists|k: int| 0 <= k < g.len() && #[trigger] g[k].team.team_id == x {
                    let k = choose|k: int| 0 <= k < g.len() && #[trigger] g[k].team.team_id == x;
                    if k < g0.len() {
                        assert(g0[k].team.team_id == x);
                    }
                }
                if has_team(r, x) {
                    let k = choose|k: int| 0 <= k < g0.len() && #[trigger] g0[k].team.team_id == x;
                    assert(g[k].team.team_id == x);
                }
                if x == id {
                    assert(g[g0.len() as int].team.team_id == x);
                }
            }
            assert forall|k: int| 0 <= k < g.len() implies #[trigger] g[k].team == first_team(
                rows,
                g[k].team.team_id,
            ) by {
                if k < g0.len() {
                    assert(g[k] == g0[k]);
                    let x = g0[k].team.team_id;
                    assert(has_team(r, x));
                }
            }
            assert forall|i: int, k: int|
                0 <= i < k < g.len() implies #[trigger] g[i].team.team_id != #[trigger] g[k].team.team_id by {
                assert(g[i] == g0[i]);
                if k < g0.len() {
                    assert(g[k] == g0[k]);
                }
            }
            assert(g.drop_last() =~= g0);
        }
    }
}

/// The position of the group of the team with id `id`, searching from the last group.
fn find_team(groups: &Vec<TeamMembers>, id: u64) -> (found: Option<usize>)
    ensures
        match found {
            Some(j) => j as int == team_index(groups_view(groups@), id),
            None => team_index(groups_view(groups@), id) == -1,
        },
{
    let ghost gv = groups_view(groups@);
    let mut i: usize = groups.len();
    assert(gv.take(i as int) =~= gv);
    while i > 0
        invariant
            i <= groups@.len(),
            gv == groups_view(groups@),
            team_index(gv, id) == team_index(gv.take(i as int), id),
        decreases i,
    {
        assert(gv.take(i as int).last() == gv[i - 1]);
        if groups[i - 1].team.team_id == id {
            return Some(i - 1);
        }
        assert(gv.take(i as int).drop_last() =~= gv.take(i - 1));
        i = i - 1;
    }
    None
}

/// Groups (team, member) rows by team id: one entry per team id in the order in
/// which the team first occurs, holding the team of that first row and the
/// members of all rows with that team id, in row order.
pub fn group_by_team(rows: Vec<(Team, Member)>) -> (groups: Vec<TeamMembers>)
    ensures
        groups_view(groups@) == group_rows(rows_view(rows@)),
        is_grouping_of(groups_view(groups@), rows_view(rows@)),
{
    proof {
        lemma_grouping_partitions_rows(rows_view(rows@));
    }
    let ghost all = rows@;
    let total: usize = rows.len();
    let mut rows = rows;
    let mut groups: Vec<TeamMembers> = Vec::new();
    let mut done: usize = 0;
    while rows.len() > 0
        invariant
            done + rows@.len() == all.len(),
            all.len() == total,
            rows@ == all.subrange(done as int, all.len() as int),
            groups_view(groups@) == group_rows(rows_view(all.take(done as int))),
        decreases rows@.len(),
    {
        let ghost before = groups_view(groups@);
        let (team, member) = rows.remove(0);
        proof {
            assert(rows_view(all.take(done + 1)).drop_last() =~= rows_view(all.take(done as int)));
            assert(rows_view(all.take(done + 1)).last() == (team@, member@));
        }
        let ghost row = (team@, member@);
        proof {
            lemma_team_index(before, team.team_id);
        }
        match find_team(&groups, team.team_id) {
            Some(j) => {
                let mut g = groups.remove(j);
                let ghost old_members = g.members@;
                g.members.push(member);
                assert(members_view(g.members@) =~= members_view(old_members).push(row.1));
                groups.insert(j, g);
                assert(groups_view(groups@) =~= add_row(before, row));
            },
            None => {
                let mut ms: Vec<Member> = Vec::new();
                ms.push(member);
                assert(members_view(ms@) =~= seq![row.1]);
                groups.push(TeamMembers { team, members: ms });
                assert(groups_view(groups@) =~= add_row(before, row));
            },
        }
        done = done + 1;
        assert(rows@ =~= all.subrange(done as int, all.len() as int));
    }
    assert(all.take(done as int) =~= all);
    groups
}

/// Turns the rows of the team query into the list of teams with their members:
/// the rows that could not be read are dropped, the others grouped by team id.
pub fn collect_teams<E>(rows: Vec<Result<(Team, Member), E>>) -> (teams: Vec<TeamMembers>)
    ensures
        groups_view(teams@) == group_rows(rows_view(ok_values(rows@))),
        is_grouping_of(groups_view(teams@), rows_view(ok_values(rows@))),
{
    let kept = keep_ok_rows(rows);
    group_by_team(kept)
}

} // verus!
