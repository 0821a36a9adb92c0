//! Open-chat links as scripts see them.
use vstd::prelude::*;

use crate::text::{decimal, integer_text};

verus! {

/// What the chat client knows of an open-chat link.
pub struct LinkInfo {
    pub link_id: i64,
    pub name: String,
    pub url: String,
    pub description: String,
    pub member_count: i32,
    pub member_limit: i32,
    pub needs_passcode: bool,
    pub active: bool,
}

/// An open-chat link as scripts see it.
#[derive(Clone, Debug)]
pub struct ScriptLink {
    pub link_id: i64,
    pub name: String,
    pub url: String,
    pub description: String,
    pub member_count: i32,
    pub member_limit: i32,
    pub needs_passcode: bool,
    pub active: bool,
}

impl ScriptLink {
    pub fn new(link: &LinkInfo) -> (made: Self)
        ensures
            made.link_id == link.link_id,
            made.name@ == link.name@,
            made.url@ == link.url@,
            made.description@ == link.description@,
            made.member_count == link.member_count,
            made.member_limit == link.member_limit,
            made.needs_passcode == link.needs_passcode,
            made.active == link.active,
    {
        ScriptLink {
            link_id: link.link_id,
            name: link.name.clone(),
            url: link.url.clone(),
            description: link.description.clone(),
            member_count: link.member_count,
            member_limit: link.member_limit,
            needs_passcode: link.needs_passcode,
            active: link.active,
        }
    }

    /// How a script prints the link: `Link(link id, name)`.
    pub fn to_string_js(&self) -> (shown: String)
        ensures
            shown@ == "Link("@ + decimal(self.link_id as int) + ", "@ + self.name@ + ")"@,
    {
        let mut shown = String::from_str("Link(");
        let id = integer_text(self.link_id);
        shown.append(id.as_str());
        shown.append(", ");
        shown.append(self.name.as_str());
        shown.append(")");
        shown
    }
}

} // verus!
