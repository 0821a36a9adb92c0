//! Chat members as scripts see them.
use vstd::prelude::*;

use super::id_text;
use crate::text::decimal;

verus! {

/// What the chat client knows of a member.
pub struct AuthorInfo {
    pub id: i64,
    pub display: String,
    pub is_me: bool,
    pub profile_url: Option<String>,
    pub member_type: Option<i32>,
}

/// A chat member as scripts see it.
#[derive(Clone, Debug)]
pub struct ScriptAuthor {
    /// The member's id, as text.
    pub id: String,
    pub name: String,
    pub is_me: bool,
    /// The profile picture, or empty when there is none.
    pub profile_url: String,
    /// The member type, or 0 when it is unknown.
    pub member_type: i32,
}

impl ScriptAuthor {
    /// The member as scripts see it, made from what the client knows of it.
    pub open spec fn shows(self, author: AuthorInfo) -> bool {
        &&& self.id@ == decimal(author.id as int)
        &&& self.name@ == author.display@
        &&& self.is_me == author.is_me
        &&& self.profile_url@ == match author.profile_url {
            Some(url) => url@,
            None => Seq::<char>::empty(),
        }
        &&& self.member_type == match author.member_type {
            Some(t) => t,
            None => 0i32,
        }
    }

    pub fn new(author: &AuthorInfo) -> (made: Self)
        ensures
            made.shows(*author),
            made.id@ == decimal(author.id as int),
            made.name@ == author.display@,
            made.is_me == author.is_me,
            author.member_type matches Some(t) ==> made.member_type == t,
            author.member_type is None ==> made.member_type == 0,
            author.profile_url matches Some(u) ==> made.profile_url@ == u@,
            author.profile_url is None ==> made.profile_url@.len() == 0,
    {
        ScriptAuthor {
            id: id_text(author.id),
            name: author.display.clone(),
            is_me: author.is_me,
            profile_url: match &author.profile_url {
                Some(url) => url.clone(),
                None => String::new(),
            },
            member_type: match author.member_type {
                Some(t) => t,
                None => 0,
            },
        }
    }

    /// How a script prints the member: `name (id)`.
    pub fn to_string_js(&self) -> (shown: String)
        ensures
            shown@ == self.name@ + " ("@ + self.id@ + ")"@,
    {
        let mut shown = self.name.clone();
        shown.append(" (");
        shown.append(self.id.as_str());
        shown.append(")");
        shown
    }
}

/// The members of a list as scripts see them, in the same order.
pub fn authors(members: &Vec<AuthorInfo>) -> (made: Vec<ScriptAuthor>)
    ensures
        all_show(made@, members@),
        made@.len() == members@.len(),
        forall|i: int| 0 <= i < members@.len() ==> (#[trigger] made@[i]).shows(members@[i]),
{
    let mut made: Vec<ScriptAuthor> = Vec::new();
    let mut i: usize = 0;
    while i < members.len()
        invariant
            i <= members@.len(),
            made@.len() == i,
            forall|j: int| 0 <= j < i ==> (#[trigger] made@[j]).shows(members@[j]),
        decreases members@.len() - i,
    {
        made.push(ScriptAuthor::new(&members[i]));
        i = i + 1;
    }
    made
}

/// A member seen by scripts keeps what the client knows of it: its id as text, its name,
/// whether it is the account itself, its profile picture (empty when there is none)
/// and its member type (0 only when the type is unknown).
pub proof fn lemma_author_keeps_the_client_member(made: ScriptAuthor, author: AuthorInfo)
    requires
        made.shows(author),
    ensures
        made.id@ == decimal(author.id as int),
        made.name@ == author.display@,
        made.is_me == author.is_me,
        author.member_type matches Some(t) ==> made.member_type == t,
        author.member_type is None ==> made.member_type == 0,
        author.profile_url matches Some(u) ==> made.profile_url@ == u@,
        author.profile_url is None ==> made.profile_url@.len() == 0,
{
}

/// Every member of a list reaches scripts, one for one, in the list's order, each
/// keeping its id and name.
pub proof fn lemma_every_member_reaches_scripts(made: Seq<ScriptAuthor>, members: Seq<AuthorInfo>)
    requires
        all_show(made, members),
    ensures
        made.len() == members.len(),
        forall|i: int|
            0 <= i < members.len() ==> (#[trigger] made[i]).id@ == decimal(members[i].id as int)
                && made[i].name@ == members[i].display@,
{
    assert forall|i: int| 0 <= i < members.len() implies (#[trigger] made[i]).id@ == decimal(
        members[i].id as int,
    ) && made[i].name@ == members[i].display@ by {
        lemma_author_keeps_the_client_member(made[i], members[i]);
    }
}

/// Each member of `made` shows the member of `members` at the same place.
pub open spec fn all_show(made: Seq<ScriptAuthor>, members: Seq<AuthorInfo>) -> bool {
    made.len() == members.len() && forall|i: int|
        0 <= i < made.len() ==> (#[trigger] made[i]).shows(members[i])
}

} // verus!
