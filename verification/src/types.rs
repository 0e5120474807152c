use vstd::prelude::*;

verus! {

/// The view of an optional piece of text.
pub open spec fn opt_text(s: Option<String>) -> Option<Seq<char>> {
    match s {
        Some(t) => Some(t@),
        None => None,
    }
}

/// A team as stored in the `teams` table.
#[derive(Debug, Clone)]
pub struct Team {
    pub team_id: u64,
    pub team_image_url: Option<String>,
    pub team_name: String,
}

pub struct TeamView {
    pub team_id: u64,
    pub team_image_url: Option<Seq<char>>,
    pub team_name: Seq<char>,
}

impl View for Team {
    type V = TeamView;

    open spec fn view(&self) -> TeamView {
        TeamView {
            team_id: self.team_id,
            team_image_url: opt_text(self.team_image_url),
            team_name: self.team_name@,
        }
    }
}

/// A member as stored in the `members` table.
#[derive(Debug, Clone)]
pub struct Member {
    pub member_id: u64,
    pub member_name: String,
}

pub struct MemberView {
    pub member_id: u64,
    pub member_name: Seq<char>,
}

impl View for Member {
    type V = MemberView;

    open spec fn view(&self) -> MemberView {
        MemberView { member_id: self.member_id, member_name: self.member_name@ }
    }
}

/// The view of a sequence of members.
pub open spec fn members_view(s: Seq<Member>) -> Seq<MemberView> {
    s.map_values(|m: Member| m@)
}

/// A team together with the members that belong to it.
#[derive(Debug, Clone)]
pub struct TeamMembers {
    pub team: Team,
    pub members: Vec<Member>,
}

pub struct TeamMembersView {
    pub team: TeamView,
    pub members: Seq<MemberView>,
}

impl View for TeamMembers {
    type V = TeamMembersView;

    open spec fn view(&self) -> TeamMembersView {
        TeamMembersView { team: self.team@, members: members_view(self.members@) }
    }
}

/// An anime submission, with the team that claimed it and when, if any.
#[derive(Debug, Clone)]
pub struct SubmittedAnime {
    pub anime_id: u64,
    pub anime_name: String,
    pub submitter_name: String,
    pub claimed_by_team: Option<String>,
    pub claimed_on: Option<String>,
}

pub struct SubmittedAnimeView {
    pub anime_id: u64,
    pub anime_name: Seq<char>,
    pub submitter_name: Seq<char>,
    pub claimed_by_team: Option<Seq<char>>,
    pub claimed_on: Option<Seq<char>>,
}

impl View for SubmittedAnime {
    type V = SubmittedAnimeView;

    open spec fn view(&self) -> SubmittedAnimeView {
        SubmittedAnimeView {
            anime_id: self.anime_id,
            anime_name: self.anime_name@,
            submitter_name: self.submitter_name@,
            claimed_by_team: opt_text(self.claimed_by_team),
            claimed_on: opt_text(self.claimed_on),
        }
    }
}

/// A user of the chat platform, as far as the records need one:
/// its numeric id and its name.
#[derive(Debug, Clone)]
pub struct User {
    pub id: u64,
    pub name: String,
}

pub struct UserView {
    pub id: u64,
    pub name: Seq<char>,
}

impl View for User {
    type V = UserView;

    open spec fn view(&self) -> UserView {
        UserView { id: self.id, name: self.name@ }
    }
}

} // verus!
