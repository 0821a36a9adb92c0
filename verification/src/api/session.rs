//! The logged-in account as scripts see it.
use vstd::prelude::*;

use super::id_text;
use crate::text::decimal;

verus! {

/// What the chat client knows of the session.
pub struct SessionInfo {
    pub user_id: i64,
}

/// The logged-in account as scripts see it.
#[derive(Clone, Debug)]
pub struct ScriptSession {
    /// The account's user id, as text.
    pub user_id: String,
}

impl ScriptSession {
    pub fn new(session: &SessionInfo) -> (made: Self)
        ensures
            made.user_id@ == decimal(session.user_id as int),
    {
        ScriptSession { user_id: id_text(session.user_id) }
    }

    /// How a script prints the session: `Session(user id)`.
    pub fn to_string_js(&self) -> (shown: String)
        ensures
            shown@ == "Session("@ + self.user_id@ + ")"@,
    {
        let mut shown = String::from_str("Session(");
        shown.append(self.user_id.as_str());
        shown.append(")");
        shown
    }
}

} // verus!
