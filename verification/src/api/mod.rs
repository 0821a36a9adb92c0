//! The values that scripts see: chats, authors, rooms, links, sessions, messages and
//! fetch responses, and the way ids cross into script land as text.
pub mod author;
pub mod chat;
pub mod http;
pub mod link;
pub mod message;
pub mod room;
pub mod session;

pub use author::ScriptAuthor;
pub use chat::ScriptChat;
pub use link::ScriptLink;
pub use message::ScriptMessage;
pub use room::ScriptRoom;
pub use session::ScriptSession;

use vstd::prelude::*;

use crate::text::{decimal, integer_text, parse_i64, parsed_i64};

verus! {

#[verifier::external_type_specification]
#[verifier::external_body]
pub struct ExJsError(rquickjs::Error);

/// The script-facing error that carries a message: what
/// `rquickjs::Error::new_from_js_message("rust", "error", message)` builds, a `FromJs`
/// conversion error from "rust" to "error" holding the message. It depends on the
/// message alone.
pub uninterp spec fn js_error(message: Seq<char>) -> rquickjs::Error;

/// Builds the script-facing error that carries `message`.
///
/// Calls `rquickjs::Error::new_from_js_message("rust", "error", message)`; the
/// contract claims only that the error is the one named by `js_error` for the
/// message's characters.
#[verifier::external_body]
pub(crate) fn failed(message: String) -> (error: rquickjs::Error)
    ensures
        error == js_error(message@),
{
    rquickjs::Error::new_from_js_message("rust", "error", message)
}

/// The error a script sees for a complaint: the message, as a script-facing error.
pub fn complaint(message: String) -> (error: rquickjs::Error)
    ensures
        error == js_error(message@),
{
    failed(message)
}

/// The complaint about a text that is not an id.
pub open spec fn not_an_id_text(text: Seq<char>) -> Seq<char> {
    text + " 은(는) id가 아니다"@
}

/// Ids outrun a js number (a log id past 2^53 comes back with its last digit
/// changed), so they cross as text: the decimal digits of the id.
pub fn id_text(id: i64) -> (text: String)
    ensures
        text@ == decimal(id as int),
{
    integer_text(id)
}

/// Reads an id back from its text, as `i64::from_str` reads it; anything else is
/// refused with a message that quotes the text.
pub fn id_of(text: &str) -> (id: Result<i64, rquickjs::Error>)
    ensures
        id is Ok <==> parsed_i64(text@) is Some,
        id matches Ok(v) ==> parsed_i64(text@) == Some(v),
        id matches Err(e) ==> e == js_error(not_an_id_text(text@)),
{
    match parse_i64(text) {
        Some(v) => Ok(v),
        None => Err(failed(not_an_id(text))),
    }
}

/// The complaint `id_of` gives for a text that is not an id.
pub fn not_an_id(text: &str) -> (message: String)
    ensures
        message@ == not_an_id_text(text@),
{
    let mut message = String::from_str(text);
    message.append(" 은(는) id가 아니다");
    message
}

/// Reads every id of a list; the first text that is not an id refuses the whole list.
pub fn ids_of(texts: &Vec<String>) -> (ids: Result<Vec<i64>, rquickjs::Error>)
    ensures
        ids is Ok <==> forall|i: int| 0 <= i < texts@.len() ==> (#[trigger] parsed_i64(texts@[i]@)) is Some,
        ids matches Ok(v) ==> v@.len() == texts@.len() && forall|i: int|
            0 <= i < texts@.len() ==> parsed_i64(texts@[i]@) == Some(#[trigger] v@[i]),
        ids matches Err(e) ==> exists|k: int|
            0 <= k < texts@.len() && parsed_i64(texts@[k]@) is None && (forall|j: int|
                0 <= j < k ==> (#[trigger] parsed_i64(texts@[j]@)) is Some) && e == js_error(
                not_an_id_text(#[trigger] texts@[k]@),
            ),
{
    let mut ids: Vec<i64> = Vec::new();
    let mut i: usize = 0;
    while i < texts.len()
        invariant
            i <= texts@.len(),
            ids@.len() == i,
            forall|j: int| 0 <= j < i ==> parsed_i64(texts@[j]@) == Some(#[trigger] ids@[j]),
        decreases texts@.len() - i,
    {
        match parse_i64(texts[i].as_str()) {
            Some(v) => {
                ids.push(v);
            },
            None => {
                let e = failed(not_an_id(texts[i].as_str()));
                assert forall|j: int| 0 <= j < i implies (#[trigger] parsed_i64(texts@[j]@)) is Some by {
                    assert(parsed_i64(texts@[j]@) == Some(ids@[j]));
                }
                assert(e == js_error(not_an_id_text(texts@[i as int]@)));
                return Err(e);
            },
        }
        i = i + 1;
    }
    assert forall|j: int| 0 <= j < texts@.len() implies (#[trigger] parsed_i64(texts@[j]@)) is Some by {
        assert(parsed_i64(texts@[j]@) == Some(ids@[j]));
    }
    Ok(ids)
}

/// An id survives the trip into script land and back: reading the text of an id
/// gives the same id.
pub proof fn lemma_id_round_trip(id: i64)
    ensures
        parsed_i64(decimal(id as int)) == Some(id),
{
    crate::text::lemma_decimal_reads_back(id);
}

} // verus!
