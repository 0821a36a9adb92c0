//! Rooms of the chat list as scripts see them.
use vstd::prelude::*;

use crate::text::{decimal, integer_text};

verus! {

/// What the chat client lists of a room.
pub struct RoomInfo {
    pub chat_id: i64,
    pub kind: String,
    pub member_count: i32,
    pub unread: i32,
    pub last_log_id: Option<i64>,
    pub link_id: i64,
    pub is_full: bool,
}

/// A room of the chat list as scripts see it.
#[derive(Clone, Debug)]
pub struct ScriptRoom {
    pub chat_id: i64,
    pub kind: String,
    pub member_count: i32,
    pub unread: i32,
    /// The last log in the room, or 0 when the room has none.
    pub last_log_id: i64,
    pub link_id: i64,
    pub is_full: bool,
}

impl ScriptRoom {
    pub fn new(room: &RoomInfo) -> (made: Self)
        ensures
            made.chat_id == room.chat_id,
            made.kind@ == room.kind@,
            made.member_count == room.member_count,
            made.unread == room.unread,
            made.last_log_id == match room.last_log_id {
                Some(id) => id,
                None => 0i64,
            },
            made.link_id == room.link_id,
            made.is_full == room.is_full,
    {
        ScriptRoom {
            chat_id: room.chat_id,
            kind: room.kind.clone(),
            member_count: room.member_count,
            unread: room.unread,
            last_log_id: match room.last_log_id {
                Some(id) => id,
                None => 0,
            },
            link_id: room.link_id,
            is_full: room.is_full,
        }
    }

    /// How a script prints the room: `Room(chat id, kind)`.
    pub fn to_string_js(&self) -> (shown: String)
        ensures
            shown@ == "Room("@ + decimal(self.chat_id as int) + ", "@ + self.kind@ + ")"@,
    {
        let mut shown = String::from_str("Room(");
        let id = integer_text(self.chat_id);
        shown.append(id.as_str());
        shown.append(", ");
        shown.append(self.kind.as_str());
        shown.append(")");
        shown
    }
}

} // verus!
