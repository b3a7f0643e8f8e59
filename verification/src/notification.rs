//! The notification that the remote engine emits when a script has ended.

use crate::envelope::{envelope_view, Envelope, EnvelopeView, UNKNOWN_ERROR_MESSAGE};
use crate::json::{
    as_flag, as_text, copy_of, describe, flag_of, member, parse_object, parsed_object, text_of,
};
use serde_json::Value;
use vstd::prelude::*;
use vstd::string::*;

verus! {

/// What a notification's payload says, as far as the library reads it.
///
/// A member that is absent, or is not of the expected kind, reads as `None`:
/// `exec_id` and `error` are expected to be strings, `success` a boolean.
/// `data` may be any value.
#[derive(Debug, PartialEq)]
pub struct Notification {
    /// The token of the execution that the notification reports on.
    pub exec_id: Option<String>,
    /// Whether the script ran to its end.
    pub success: Option<bool>,
    /// The value that the script returned.
    pub data: Option<Value>,
    /// The message of what the script threw.
    pub error: Option<String>,
}

/// Why a payload was not read as a notification.
#[derive(Debug, PartialEq)]
pub struct Malformed {
    /// What the parser found wrong with the payload, in its own words.
    pub reason: String,
}

/// A [`Notification`] with its texts as sequences of characters.
pub struct NotificationView {
    pub exec_id: Option<Seq<char>>,
    pub success: Option<bool>,
    pub data: Option<Value>,
    pub error: Option<Seq<char>>,
}

/// The view of a text that may be absent.
pub open spec fn text_view(text: Option<String>) -> Option<Seq<char>> {
    match text {
        Some(s) => Some(s@),
        None => None,
    }
}

impl View for Notification {
    type V = NotificationView;

    open spec fn view(&self) -> NotificationView {
        NotificationView {
            exec_id: text_view(self.exec_id),
            success: self.success,
            data: self.data,
            error: text_view(self.error),
        }
    }
}

/// The text of the member under `key`, where it is there and is a string.
pub open spec fn text_member(fields: Map<Seq<char>, Value>, key: Seq<char>) -> Option<Seq<char>> {
    if fields.contains_key(key) {
        as_text(fields[key])
    } else {
        None
    }
}

/// The truth value of the member under `key`, where it is there and is a
/// boolean.
pub open spec fn flag_member(fields: Map<Seq<char>, Value>, key: Seq<char>) -> Option<bool> {
    if fields.contains_key(key) {
        as_flag(fields[key])
    } else {
        None
    }
}

/// The member under `key`, where it is there.
pub open spec fn any_member(fields: Map<Seq<char>, Value>, key: Seq<char>) -> Option<Value> {
    if fields.contains_key(key) {
        Some(fields[key])
    } else {
        None
    }
}

/// The notification that the members of a payload make up.
pub open spec fn notification_of(fields: Map<Seq<char>, Value>) -> NotificationView {
    NotificationView {
        exec_id: text_member(fields, "exec_id"@),
        success: flag_member(fields, "success"@),
        data: any_member(fields, "data"@),
        error: text_member(fields, "error"@),
    }
}

/// The notification that a raw payload denotes, or `None` where the payload
/// is not a JSON object.
pub open spec fn decoded(raw: Seq<char>) -> Option<NotificationView> {
    match parsed_object(raw) {
        Some(fields) => Some(notification_of(fields)),
        None => None,
    }
}

/// The envelope that a notification carries: success with the reported
/// value only where `success` is `true`, else failure with the reported
/// message or, for want of one, [`UNKNOWN_ERROR_MESSAGE`].
pub open spec fn envelope_of(n: NotificationView) -> EnvelopeView {
    if n.success == Some(true) {
        EnvelopeView::Success { data: n.data }
    } else {
        EnvelopeView::Failure {
            error: match n.error {
                Some(message) => message,
                None => UNKNOWN_ERROR_MESSAGE@,
            },
        }
    }
}

/// What a notification means to the subscription of the execution that bears
/// `token`: its envelope where it names that token, and nothing otherwise.
pub open spec fn resolution(token: Seq<char>, n: NotificationView) -> Option<EnvelopeView> {
    if n.exec_id == Some(token) {
        Some(envelope_of(n))
    } else {
        None
    }
}

/// The member of `object` under `key` as a text.
fn read_text(object: &serde_json::Map<String, Value>, key: &str) -> (r: Option<String>)
    ensures
        text_view(r) == text_member(crate::json::members(*object), key@),
{
    match member(object, key) {
        Some(value) => match text_of(value) {
            Some(text) => Some(String::from_str(text)),
            None => None,
        },
        None => None,
    }
}

/// The member of `object` under `key` as a truth value.
fn read_flag(object: &serde_json::Map<String, Value>, key: &str) -> (r: Option<bool>)
    ensures
        r == flag_member(crate::json::members(*object), key@),
{
    match member(object, key) {
        Some(value) => flag_of(value),
        None => None,
    }
}

/// The member of `object` under `key`.
fn read_any(object: &serde_json::Map<String, Value>, key: &str) -> (r: Option<Value>)
    ensures
        r == any_member(crate::json::members(*object), key@),
{
    match member(object, key) {
        Some(value) => Some(copy_of(value)),
        None => None,
    }
}

/// Reads a raw payload. Fails where it is not a JSON object, with the
/// parser's account of why; a payload that lacks members still reads as a
/// notification, with `None` in their place.
pub fn decode_notification(raw: &str) -> (r: Result<Notification, Malformed>)
    ensures
        match r {
            Ok(n) => decoded(raw@) == Some(n@),
            Err(_) => decoded(raw@) is None,
        },
{
    match parse_object(raw) {
        Ok(object) => Ok(
            Notification {
                exec_id: read_text(&object, "exec_id"),
                success: read_flag(&object, "success"),
                data: read_any(&object, "data"),
                error: read_text(&object, "error"),
            },
        ),
        Err(error) => Err(Malformed { reason: describe(&error) }),
    }
}

impl Notification {
    /// The envelope that the notification carries, whomever it is for.
    pub fn into_envelope(self) -> (e: Envelope)
        ensures
            e@ == envelope_of(self@),
    {
        match self.success {
            Some(true) => Envelope::Success { data: self.data },
            _ => Envelope::Failure {
                error: match self.error {
                    Some(message) => message,
                    None => String::from_str(UNKNOWN_ERROR_MESSAGE),
                },
            },
        }
    }

    /// Tells whether the notification names `token`.
    pub fn is_for(&self, token: &str) -> (b: bool)
        ensures
            b == (self@.exec_id == Some(token@)),
    {
        match &self.exec_id {
            Some(id) => *id == String::from_str(token),
            None => false,
        }
    }

    /// The envelope that the notification delivers to the execution that
    /// bears `token`: `None` where it names another token or none.
    pub fn resolve(self, token: &str) -> (e: Option<Envelope>)
        ensures
            envelope_view(e) == resolution(token@, self@),
    {
        if self.is_for(token) {
            Some(self.into_envelope())
        } else {
            None
        }
    }
}

} // verus!
