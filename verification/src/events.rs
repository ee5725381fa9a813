//! Analytics events: duplicate and burst flags, the webhook event name, and the answer given.
use vstd::prelude::*;
use crate::enums::{EventKind, event_kind_name};
use crate::text::{chars_of, string_of, extend_chars, concat};

verus! {

/// More events than this from one session within ten seconds is a suspicious burst.
pub const BURST_LIMIT: i64 = 20;

/// How a tracked event is flagged.
#[derive(Clone, Copy, Debug)]
pub struct EventFlags {
    pub is_duplicate: bool,
    pub is_suspicious: bool,
}

/// Flags an event from two counts: the same event (kind, target, session) within the last
/// three seconds makes it a duplicate; more than twenty events from the session within the
/// last ten seconds make it suspicious.
pub fn classify_event(recent_same: i64, recent_in_session: i64) -> (r: EventFlags)
    ensures
        r.is_duplicate == (recent_same > 0),
        r.is_suspicious == (recent_in_session > BURST_LIMIT),
{
    EventFlags { is_duplicate: recent_same > 0, is_suspicious: recent_in_session > BURST_LIMIT }
}

/// The webhook event an analytics event fires: `event.` followed by its kind.
pub fn event_webhook_name(kind: EventKind) -> (r: String)
    ensures
        r@ == "event."@ + event_kind_name(kind),
{
    concat("event.", kind.as_str())
}

/// The answer to a tracked event.
pub fn track_message(is_duplicate: bool) -> (r: &'static str)
    ensures
        r@ == (if is_duplicate { "Event recorded (duplicate)"@ } else { "Event recorded"@ }),
{
    if is_duplicate { "Event recorded (duplicate)" } else { "Event recorded" }
}

/// Who a suspicious burst is logged against: the signed-in user, or `anonymous`.
pub fn burst_actor(user_id: Option<&str>) -> (r: &str)
    ensures
        r@ == (match user_id { Some(u) => u@, None => "anonymous"@ }),
{
    match user_id {
        Some(u) => u,
        None => "anonymous",
    }
}

/// The operations-log text of a suspicious burst.
pub fn burst_log_detail(session_id: &str) -> (r: String)
    ensures
        r@ == "Suspicious event burst from session "@ + session_id@,
{
    concat("Suspicious event burst from session ", session_id)
}

} // verus!
