//! The replies the server sends, and how the client reads them back.
//!
//! A reply travels as JSON inside a frame (see `frame`). Replies of the form
//! `Result<(), String>` and `Result<String, String>` are written and read here
//! with serde_json; replies that carry records are written by the programs
//! around the library.

use vstd::prelude::*;
use vstd::utf8::*;
use vstd::bytes::*;
use crate::frame::{lossy_text, decode_message, encode_message, frame_bytes, frame_payload, message_round_trip};
use crate::model::Bill;

verus! {

/// Why the server turned a request down.
#[derive(Debug, PartialEq)]
pub enum Refusal {
    BadCredentials,
    UnknownDestination,
    MissingBill,
}

/// The text the client is shown for a refusal.
pub open spec fn refusal_text(refusal: Refusal) -> Seq<char> {
    match refusal {
        Refusal::BadCredentials => "CPF/Password is not valid"@,
        Refusal::UnknownDestination => "User not found!"@,
        Refusal::MissingBill => "The bill does not exist, or has already been paid!"@,
    }
}

/// Returns the text the client is shown for a refusal.
pub fn refusal_message(refusal: &Refusal) -> (text: String)
    ensures
        text@ == refusal_text(*refusal),
{
    match refusal {
        Refusal::BadCredentials => {
            let t = "CPF/Password is not valid";
            proof {
                reveal_strlit("CPF/Password is not valid");
            }
            t.to_string()
        },
        Refusal::UnknownDestination => {
            let t = "User not found!";
            proof {
                reveal_strlit("User not found!");
            }
            t.to_string()
        },
        Refusal::MissingBill => {
            let t = "The bill does not exist, or has already been paid!";
            proof {
                reveal_strlit("The bill does not exist, or has already been paid!");
            }
            t.to_string()
        },
    }
}

/// A reply of the server.
#[derive(Debug, PartialEq)]
pub enum Reply<M> {
    /// The outcome of a request that returns nothing: login, account creation, transfer.
    Done(Result<(), Refusal>),
    /// The bill that was asked for.
    Bill(Result<Bill<M>, Refusal>),
    /// The logged-in user's name and balance, if someone is logged in.
    BasicInfo(Option<(String, M)>),
}

/// A `Result<(), String>` with its text taken by view.
pub open spec fn unit_result_view(result: Result<(), String>) -> Result<(), Seq<char>> {
    match result {
        Ok(()) => Ok(()),
        Err(e) => Err(e@),
    }
}

/// A `Result<String, String>` with both texts taken by view.
pub open spec fn text_result_view(result: Result<String, String>) -> Result<Seq<char>, Seq<char>> {
    match result {
        Ok(t) => Ok(t@),
        Err(e) => Err(e@),
    }
}

/// A parsed `Result<(), String>`, if any, with its text taken by view.
pub open spec fn parsed_unit_view(parsed: Option<Result<(), String>>) -> Option<Result<(), Seq<char>>> {
    match parsed {
        Some(r) => Some(unit_result_view(r)),
        None => None,
    }
}

/// A parsed `Result<String, String>`, if any, with its texts taken by view.
pub open spec fn parsed_text_view(parsed: Option<Result<String, String>>) -> Option<Result<Seq<char>, Seq<char>>> {
    match parsed {
        Some(r) => Some(text_result_view(r)),
        None => None,
    }
}

/// A parsed `Result<u128, String>`, if any, with its error text taken by view.
pub open spec fn parsed_id_view(parsed: Option<Result<u128, String>>) -> Option<Result<u128, Seq<char>>> {
    match parsed {
        Some(Ok(id)) => Some(Ok(id)),
        Some(Err(e)) => Some(Err(e@)),
        None => None,
    }
}

/// The text of a refusal in place of the refusal.
pub open spec fn done_view(done: Result<(), Refusal>) -> Result<(), Seq<char>> {
    match done {
        Ok(()) => Ok(()),
        Err(r) => Err(refusal_text(r)),
    }
}

/// A lowercase hexadecimal digit.
pub open spec fn hex_digit(n: u32) -> char {
    "0123456789abcdef"@[n as int]
}

/// How serde_json writes one character inside a JSON string: quote, backslash
/// and the control characters below U+0020 are escaped, the short forms where
/// JSON has them and `\u00xx` otherwise; every other character stands for itself.
pub open spec fn json_escaped_char(c: char) -> Seq<char> {
    let n = c as u32;
    if c == '"' {
        seq!['\\', '"']
    } else if c == '\\' {
        seq!['\\', '\\']
    } else if n == 0x08 {
        seq!['\\', 'b']
    } else if n == 0x09 {
        seq!['\\', 't']
    } else if n == 0x0a {
        seq!['\\', 'n']
    } else if n == 0x0c {
        seq!['\\', 'f']
    } else if n == 0x0d {
        seq!['\\', 'r']
    } else if n < 0x20 {
        seq!['\\', 'u', '0', '0', hex_digit(n / 16), hex_digit(n % 16)]
    } else {
        seq![c]
    }
}

/// The characters of a JSON string literal's contents, as serde_json writes them.
pub open spec fn json_escaped(text: Seq<char>) -> Seq<char>
    decreases text.len(),
{
    if text.len() == 0 {
        Seq::empty()
    } else {
        json_escaped(text.drop_last()) + json_escaped_char(text.last())
    }
}

/// The JSON text that `serde_json::to_string` makes of a `Result<(), String>`:
/// the variant's name as the only key of an object, with `null` for `()` and the
/// escaped string for the error.
pub open spec fn unit_result_json(result: Result<(), Seq<char>>) -> Seq<char> {
    match result {
        Ok(()) => "{\"Ok\":null}"@,
        Err(e) => "{\"Err\":\""@ + json_escaped(e) + "\"}"@,
    }
}

/// What `serde_json::from_str::<Result<(), String>>` reads from a text; `None` where it fails.
pub uninterp spec fn unit_result_parse(text: Seq<char>) -> Option<Result<(), Seq<char>>>;

/// What `serde_json::from_str::<Result<uuid::Uuid, String>>` reads from a text, the
/// UUID as its 128-bit value; `None` where it fails.
pub uninterp spec fn id_result_parse(text: Seq<char>) -> Option<Result<u128, Seq<char>>>;

/// What `serde_json::from_str::<Result<String, String>>` reads from a text; `None` where it fails.
pub uninterp spec fn text_result_parse(text: Seq<char>) -> Option<Result<Seq<char>, Seq<char>>>;

/// Calls `serde_json::to_string` on a `Result<(), String>`: serde writes a `Result` as
/// its variant around its value, serde_json writes that as a one-key object, `()` as
/// `null`, and a string through the escape table of its `format_escaped_str`. Its
/// documentation says that serialization fails only where a `Serialize` impl decides
/// to or a map has non-string keys, neither of which can happen for this type.
#[verifier::external_body]
fn unit_result_to_json(result: &Result<(), String>) -> (json: String)
    ensures
        json@ == unit_result_json(unit_result_view(*result)),
{
    serde_json::to_string(result).unwrap()
}

/// Calls `serde_json::from_str::<Result<(), String>>`; its error becomes `None`.
/// Also claimed: it reads back what `serde_json::to_string` wrote for a
/// `Result<(), String>` (serde writes and reads `Result` as the variant `Ok` or
/// `Err` around its value, and serde_json reads back the strings it escapes).
#[verifier::external_body]
fn unit_result_from_json(text: &str) -> (result: Option<Result<(), String>>)
    ensures
        parsed_unit_view(result) == unit_result_parse(text@),
        forall|r: Result<(), Seq<char>>|
            text@ == #[trigger] unit_result_json(r) ==> parsed_unit_view(result) == Some(r),
{
    serde_json::from_str::<Result<(), String>>(text).ok()
}

/// Calls `serde_json::from_str::<Result<String, String>>`; its error becomes `None`.
#[verifier::external_body]
fn text_result_from_json(text: &str) -> (result: Option<Result<String, String>>)
    ensures
        parsed_text_view(result) == text_result_parse(text@),
{
    serde_json::from_str::<Result<String, String>>(text).ok()
}

/// Calls `serde_json::from_str::<Result<uuid::Uuid, String>>`; the UUID becomes its
/// 128-bit value and the parse error becomes `None`.
#[verifier::external_body]
fn id_result_from_json(text: &str) -> (result: Option<Result<u128, String>>)
    ensures
        parsed_id_view(result) == id_result_parse(text@),
{
    match serde_json::from_str::<Result<uuid::Uuid, String>>(text) {
        Ok(Ok(u)) => Some(Ok(u.as_u128())),
        Ok(Err(e)) => Some(Err(e)),
        Err(_) => None,
    }
}

/// The frame that carries the outcome of a request that returns nothing.
pub fn encode_done_reply(done: &Result<(), Refusal>) -> (frame: Vec<u8>)
    ensures
        frame@ == frame_bytes(encode_utf8(unit_result_json(done_view(*done)))),
{
    let result: Result<(), String> = match done {
        Ok(()) => Ok(()),
        Err(r) => Err(refusal_message(r)),
    };
    let json = unit_result_to_json(&result);
    encode_message(json.as_str())
}

/// The reply of a request that returns nothing, read from a frame. `None` where
/// the frame is malformed or its JSON does not parse.
pub fn decode_done_reply(frame: &[u8]) -> (reply: Option<Result<(), String>>)
    ensures
        frame_payload(frame@) is None ==> reply is None,
        frame_payload(frame@) matches Some(p) ==> parsed_unit_view(reply) == unit_result_parse(
            lossy_text(p),
        ),
        forall|r: Result<(), Seq<char>>|
            frame@ == frame_bytes(encode_utf8(#[trigger] unit_result_json(r)))
                ==> parsed_unit_view(reply) == Some(r),
{
    let frame_len = frame.len();
    match decode_message(frame) {
        Some(text) => {
            let reply = unit_result_from_json(text.as_str());
            assert forall|r: Result<(), Seq<char>>|
                frame@ == frame_bytes(encode_utf8(#[trigger] unit_result_json(r))) implies
                parsed_unit_view(reply) == Some(r) by {
                let json = unit_result_json(r);
                lemma_auto_spec_u64_to_from_le_bytes();
                assert(frame@.len() == 8 + encode_utf8(json).len());
                message_round_trip(json);
                assert(text@ == json);
            }
            reply
        },
        None => {
            assert forall|r: Result<(), Seq<char>>|
                frame@ == frame_bytes(encode_utf8(#[trigger] unit_result_json(r))) implies
                false by {
                let json = unit_result_json(r);
                lemma_auto_spec_u64_to_from_le_bytes();
                assert(frame@.len() == frame_len);
                assert(frame@.len() == 8 + encode_utf8(json).len());
                message_round_trip(json);
            }
            None
        },
    }
}

/// A reply that carries a text (the statement), read from a frame. `None` where
/// the frame is malformed or its JSON does not parse.
pub fn decode_text_reply(frame: &[u8]) -> (reply: Option<Result<String, String>>)
    ensures
        frame_payload(frame@) is None ==> reply is None,
        frame_payload(frame@) matches Some(p) ==> parsed_text_view(reply) == text_result_parse(
            lossy_text(p),
        ),
{
    match decode_message(frame) {
        Some(text) => text_result_from_json(text.as_str()),
        None => None,
    }
}

/// A reply that carries an identifier (a new bill's), read from a frame. `None`
/// where the frame is malformed or its JSON does not parse.
pub fn decode_id_reply(frame: &[u8]) -> (reply: Option<Result<u128, String>>)
    ensures
        frame_payload(frame@) is None ==> reply is None,
        frame_payload(frame@) matches Some(p) ==> parsed_id_view(reply) == id_result_parse(
            lossy_text(p),
        ),
{
    match decode_message(frame) {
        Some(text) => id_result_from_json(text.as_str()),
        None => None,
    }
}

} // verus!
