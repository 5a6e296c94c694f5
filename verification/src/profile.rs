//! The roster: one profile per display name, with the avatar that the name
//! alone decides.

use crate::text::{join, same_text};
use vstd::prelude::*;

verus! {

/// One entry of the roster.
#[derive(Clone, Debug, PartialEq, Eq)]
pub struct UserProfile {
    pub name: String,
    pub avatar: String,
}

/// The mathematical value of a [`UserProfile`].
pub struct ProfileModel {
    pub name: Seq<char>,
    pub avatar: Seq<char>,
}

impl View for UserProfile {
    type V = ProfileModel;

    open spec fn view(&self) -> ProfileModel {
        ProfileModel { name: self.name@, avatar: self.avatar@ }
    }
}

/// The address of the avatar image of a name: the name, as it stands, after
/// the address of the image service.
pub open spec fn avatar_url(name: Seq<char>) -> Seq<char> {
    "https://api.dicebear.com/9.x/big-smile/svg?seed="@ + name
}

/// The profile of a name.
pub open spec fn profile_of(name: Seq<char>) -> ProfileModel {
    ProfileModel { name, avatar: avatar_url(name) }
}

/// The roster of a list of names: the profile of each, in the order of the
/// list, a repeated name as often as it is repeated.
pub open spec fn roster_of(names: Seq<Seq<char>>) -> Seq<ProfileModel> {
    Seq::new(names.len(), |i: int| profile_of(names[i]))
}

/// The views of the profiles of a roster.
pub open spec fn roster_view(profiles: Seq<UserProfile>) -> Seq<ProfileModel> {
    Seq::new(profiles.len(), |i: int| profiles[i]@)
}

/// The address of the avatar image of a name.
pub fn avatar_for(name: &str) -> (url: String)
    ensures
        url@ == avatar_url(name@),
{
    join("https://api.dicebear.com/9.x/big-smile/svg?seed=", name)
}

impl UserProfile {
    /// The profile of a name.
    pub fn new(name: &str) -> (profile: UserProfile)
        ensures
            profile@ == profile_of(name@),
    {
        UserProfile { name: name.to_owned(), avatar: avatar_for(name) }
    }
}

/// The roster: the profiles of everyone online, in the order in which the
/// server named them.
#[derive(Debug)]
pub struct Roster {
    profiles: Vec<UserProfile>,
}

impl View for Roster {
    type V = Seq<ProfileModel>;

    closed spec fn view(&self) -> Seq<ProfileModel> {
        roster_view(self.profiles@)
    }
}

impl Roster {
    /// Every profile carries the avatar of its own name.
    #[verifier::type_invariant]
    spec fn avatars_follow_names(&self) -> bool {
        forall|i: int|
            0 <= i < self.profiles@.len() ==> (#[trigger] self.profiles@[i]).avatar@ == avatar_url(
                self.profiles@[i].name@,
            )
    }

    /// The roster of nobody.
    pub fn new() -> (roster: Roster)
        ensures
            roster@ == Seq::<ProfileModel>::empty(),
    {
        let roster = Roster { profiles: Vec::new() };
        assert(roster@ =~= Seq::<ProfileModel>::empty());
        roster
    }

    /// The roster of a list of names.
    pub fn of(names: &Vec<String>) -> (roster: Roster)
        ensures
            roster@ == roster_of(names.deep_view()),
    {
        let mut profiles: Vec<UserProfile> = Vec::new();
        let mut i: usize = 0;
        while i < names.len()
            invariant
                i <= names@.len(),
                profiles@.len() == i,
                forall|k: int| 0 <= k < i ==> (#[trigger] profiles@[k])@ == profile_of(names@[k]@),
            decreases names@.len() - i,
        {
            profiles.push(UserProfile::new(names[i].as_str()));
            i += 1;
        }
        assert(roster_view(profiles@) =~= roster_of(names.deep_view()));
        Roster { profiles }
    }

    /// The profiles, in order.
    pub fn profiles(&self) -> (profiles: &Vec<UserProfile>)
        ensures
            roster_view(profiles@) == self@,
    {
        &self.profiles
    }

    /// The avatar to show beside a name: that of the first profile of that
    /// name, or the one made from the name where the roster has none. Both
    /// are the avatar of the name.
    pub fn avatar_of(&self, name: &str) -> (url: String)
        ensures
            url@ == avatar_url(name@),
    {
        proof {
            use_type_invariant(self);
        }
        let mut i: usize = 0;
        while i < self.profiles.len()
            invariant
                i <= self.profiles@.len(),
                forall|k: int|
                    0 <= k < self.profiles@.len() ==> (#[trigger] self.profiles@[k]).avatar@
                        == avatar_url(self.profiles@[k].name@),
            decreases self.profiles@.len() - i,
        {
            if same_text(self.profiles[i].name.as_str(), name) {
                return self.profiles[i].avatar.clone();
            }
            i += 1;
        }
        avatar_for(name)
    }
}

/// A roster has one profile per name of the list, in the same order, each
/// with the avatar of its own name; no name is dropped, merged or moved.
pub proof fn lemma_roster_keeps_every_name(names: Seq<Seq<char>>)
    ensures
        roster_of(names).len() == names.len(),
        forall|i: int|
            0 <= i < names.len() ==> {
                &&& (#[trigger] roster_of(names)[i]).name == names[i]
                &&& roster_of(names)[i].avatar
                    == "https://api.dicebear.com/9.x/big-smile/svg?seed="@ + names[i]
            },
{
}

} // verus!
