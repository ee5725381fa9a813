//! Fulfillment verification: one-time checkpoint codes, the timing rules between arrival,
//! start and end, and the tamper-evident record hash of a completed service.
use vstd::prelude::*;
use vstd::utf8::encode_utf8;
use rand::Rng;
use crate::enums::{CheckpointKind, checkpoint_kind_from_name};
use crate::types::{FulfillmentRecord, ServiceProof};
use crate::access::{Refusal, refusal, refused_with};
use crate::codec::{digit_char, hex_lower, is_lower_hex_char, sha256, sha256_hex, utf8_bytes};
use crate::notify::digit_exec;
use crate::auth::opt_chars;
use crate::text::{chars_of, string_of, extend_chars};

verus! {

// ── Checkpoint codes ──

/// A number below one million written with exactly six digits, zero-padded (`{:06}`).
pub open spec fn six_digits(n: int) -> Seq<char> {
    seq![
        digit_char(n / 100000 % 10),
        digit_char(n / 10000 % 10),
        digit_char(n / 1000 % 10),
        digit_char(n / 100 % 10),
        digit_char(n / 10 % 10),
        digit_char(n % 10),
    ]
}

/// The six-digit text of a checkpoint code number.
pub fn checkpoint_code_text(n: u32) -> (r: String)
    requires
        n < 1_000_000,
    ensures
        r@ == six_digits(n as int),
{
    let mut v: Vec<char> = Vec::new();
    v.push(digit_exec(n / 100000 % 10));
    v.push(digit_exec(n / 10000 % 10));
    v.push(digit_exec(n / 1000 % 10));
    v.push(digit_exec(n / 100 % 10));
    v.push(digit_exec(n / 10 % 10));
    v.push(digit_exec(n % 10));
    string_of(v.as_slice())
}

/// A uniformly drawn number in `0..1_000_000` (`rand::thread_rng().gen_range`).
/// Claims only the range; the value is random.
#[verifier::external_body]
fn random_code_number() -> (res: u32)
    ensures
        res < 1_000_000,
{
    rand::thread_rng().gen_range(0..1_000_000u32)
}

/// What the `qrcode` crate renders as SVG for a text (minimum 200×200), if it can encode it.
pub uninterp spec fn qr_svg_of(text: Seq<char>) -> Option<Seq<char>>;

/// Renders `text` as a QR code in SVG (`QrCode::new`, then `render::<svg::Color>()` with
/// `min_dimensions(200, 200)`); `None` where the crate cannot encode the text.
#[verifier::external_body]
fn qr_svg(text: &str) -> (res: Option<String>)
    ensures
        opt_chars(res) == qr_svg_of(text@),
{
    qrcode::QrCode::new(text.as_bytes())
        .ok()
        .map(|qr| qr.render::<qrcode::render::svg::Color>().min_dimensions(200, 200).build())
}

/// A fresh one-time checkpoint code and its QR rendering.
pub fn new_checkpoint_code() -> (r: (String, Option<String>))
    ensures
        exists|n: int| 0 <= n < 1_000_000 && r.0@ == six_digits(n),
        opt_chars(r.1) == qr_svg_of(r.0@),
{
    let n = random_code_number();
    let code = checkpoint_code_text(n);
    let svg = qr_svg(code.as_str());
    (code, svg)
}

/// The fulfillment column that holds the timestamp of a checkpoint.
pub open spec fn checkpoint_column_name(kind: CheckpointKind) -> Seq<char> {
    match kind {
        CheckpointKind::Arrival => "arrival_at"@,
        CheckpointKind::Start => "start_at"@,
        CheckpointKind::End => "end_at"@,
    }
}

/// The fulfillment column a checkpoint (by wire name) is stored in; `None` for an unknown one.
pub fn checkpoint_column(checkpoint: &str) -> (r: Option<&'static str>)
    ensures
        match checkpoint_kind_from_name(checkpoint@) {
            Some(k) => r matches Some(c) && c@ == checkpoint_column_name(k),
            None => r is None,
        },
{
    match CheckpointKind::from_str(checkpoint) {
        Some(CheckpointKind::Arrival) => Some("arrival_at"),
        Some(CheckpointKind::Start) => Some("start_at"),
        Some(CheckpointKind::End) => Some("end_at"),
        None => None,
    }
}

// ── Timing rules ──

/// Whole hours from `earlier` to `later` (`chrono::NaiveDateTime::signed_duration_since`, then
/// `num_hours`, which truncates toward zero), when both texts parse as `%Y-%m-%d %H:%M:%S`.
pub uninterp spec fn hours_between(later: Seq<char>, earlier: Seq<char>) -> Option<i64>;

/// Whether `later` is at or before `earlier` (`<=` on `chrono::NaiveDateTime`), when both
/// texts parse as `%Y-%m-%d %H:%M:%S`.
pub uninterp spec fn not_after(later: Seq<char>, earlier: Seq<char>) -> Option<bool>;

/// Parses two timestamps (`NaiveDateTime::parse_from_str` with `%Y-%m-%d %H:%M:%S`) and
/// gives the whole hours between them (`signed_duration_since(..).num_hours()`); `None` when
/// either does not parse.
#[verifier::external_body]
fn whole_hours_between(later: &str, earlier: &str) -> (res: Option<i64>)
    ensures
        res == hours_between(later@, earlier@),
{
    let a = chrono::NaiveDateTime::parse_from_str(later, "%Y-%m-%d %H:%M:%S").ok()?;
    let b = chrono::NaiveDateTime::parse_from_str(earlier, "%Y-%m-%d %H:%M:%S").ok()?;
    Some(a.signed_duration_since(b).num_hours())
}

/// Parses two timestamps (`NaiveDateTime::parse_from_str` with `%Y-%m-%d %H:%M:%S`) and
/// tells whether the first is at or before the second (`<=`); `None` when either does not parse.
#[verifier::external_body]
fn at_or_before(later: &str, earlier: &str) -> (res: Option<bool>)
    ensures
        res == not_after(later@, earlier@),
{
    let a = chrono::NaiveDateTime::parse_from_str(later, "%Y-%m-%d %H:%M:%S").ok()?;
    let b = chrono::NaiveDateTime::parse_from_str(earlier, "%Y-%m-%d %H:%M:%S").ok()?;
    Some(a <= b)
}

/// The timing rule of each checkpoint, given what is already recorded and how the clock
/// compares: arrival is always accepted; start needs a recorded arrival and may come at most
/// two whole hours after it; end needs a recorded start and must come strictly after it.
/// A timestamp that does not parse does not block the checkpoint.
pub open spec fn timing_outcome(
    kind: CheckpointKind,
    arrival_recorded: bool,
    start_recorded: bool,
    hours_since_arrival: Option<i64>,
    end_not_after_start: Option<bool>,
) -> Result<(), (u16, Seq<char>)> {
    match kind {
        CheckpointKind::Arrival => Ok(()),
        CheckpointKind::Start => if !arrival_recorded {
            Err((400u16, "Arrival must be recorded before start"@))
        } else if hours_since_arrival matches Some(h) && h > 2 {
            Err((400u16, "Start must be within 2 hours of arrival"@))
        } else {
            Ok(())
        },
        CheckpointKind::End => if !start_recorded {
            Err((400u16, "Start must be recorded before end"@))
        } else if end_not_after_start == Some(true) {
            Err((400u16, "End timestamp must be strictly after start timestamp"@))
        } else {
            Ok(())
        },
    }
}

/// Whether a unit result answers as `outcome` says.
pub open spec fn unit_answers(r: Result<(), Refusal>, outcome: Result<(), (u16, Seq<char>)>) -> bool {
    match outcome {
        Ok(()) => r is Ok,
        Err((status, msg)) => refused_with(r, status, msg),
    }
}

/// Applies the timing rule to clock comparisons already made.
pub fn checkpoint_timing_rule(
    kind: CheckpointKind,
    arrival_recorded: bool,
    start_recorded: bool,
    hours_since_arrival: Option<i64>,
    end_not_after_start: Option<bool>,
) -> (r: Result<(), Refusal>)
    ensures
        unit_answers(r, timing_outcome(kind, arrival_recorded, start_recorded, hours_since_arrival, end_not_after_start)),
{
    match kind {
        CheckpointKind::Arrival => Ok(()),
        CheckpointKind::Start => {
            if !arrival_recorded {
                Err(refusal(400, "Arrival must be recorded before start"))
            } else {
                match hours_since_arrival {
                    Some(h) => {
                        if h > 2 {
                            Err(refusal(400, "Start must be within 2 hours of arrival"))
                        } else {
                            Ok(())
                        }
                    },
                    None => Ok(()),
                }
            }
        },
        CheckpointKind::End => {
            if !start_recorded {
                Err(refusal(400, "Start must be recorded before end"))
            } else {
                match end_not_after_start {
                    Some(true) => Err(refusal(400, "End timestamp must be strictly after start timestamp")),
                    _ => Ok(()),
                }
            }
        },
    }
}

/// The clock comparisons the rule of `kind` needs, from the recorded timestamps and `now`.
pub open spec fn hours_since(now: Seq<char>, recorded: Option<Seq<char>>) -> Option<i64> {
    match recorded {
        Some(a) => hours_between(now, a),
        None => None,
    }
}

/// Whether `now` is at or before a recorded timestamp, when both parse.
pub open spec fn now_not_after(now: Seq<char>, recorded: Option<Seq<char>>) -> Option<bool> {
    match recorded {
        Some(s) => not_after(now, s),
        None => None,
    }
}

/// The text of an optional string.
pub open spec fn opt_view(o: Option<&str>) -> Option<Seq<char>> {
    match o {
        Some(s) => Some(s@),
        None => None,
    }
}

/// Checks a checkpoint recorded at `now` against the fulfillment's recorded timestamps.
pub fn check_checkpoint_timing(kind: CheckpointKind, arrival: Option<&str>, start: Option<&str>, now: &str) -> (r: Result<(), Refusal>)
    ensures
        unit_answers(r, timing_outcome(kind, arrival is Some, start is Some,
            hours_since(now@, opt_view(arrival)), now_not_after(now@, opt_view(start)))),
{
    let hours: Option<i64> = match (kind, arrival) {
        (CheckpointKind::Start, Some(a)) => whole_hours_between(now, a),
        _ => None,
    };
    let before: Option<bool> = match (kind, start) {
        (CheckpointKind::End, Some(s)) => at_or_before(now, s),
        _ => None,
    };
    checkpoint_timing_rule(kind, arrival.is_some(), start.is_some(), hours, before)
}

// ── Recording a checkpoint ──

/// The order a fulfillment's timestamps are recorded in: no start without an arrival, no end
/// without a start.
pub open spec fn checkpoints_ordered(f: FulfillmentRecord) -> bool {
    &&& f.start_at is Some ==> f.arrival_at is Some
    &&& f.end_at is Some ==> f.start_at is Some
}

/// The timing outcome of recording `kind` at `now` on fulfillment `f`.
pub open spec fn checkpoint_outcome(f: FulfillmentRecord, kind: CheckpointKind, now: Seq<char>) -> Result<(), (u16, Seq<char>)> {
    timing_outcome(kind, f.arrival_at is Some, f.start_at is Some,
        hours_since(now, opt_chars(f.arrival_at)), now_not_after(now, opt_chars(f.start_at)))
}

/// The fulfillment after recording `kind` at `now`, as `g` holds it: the checkpoint's own
/// timestamp becomes `now`, the other fields stay; recording the end of a fulfillment whose
/// three timestamps are then all set completes it with its record hash.
pub open spec fn checkpoint_recorded(f: FulfillmentRecord, kind: CheckpointKind, now: Seq<char>, g: FulfillmentRecord) -> bool {
    &&& g.id == f.id
    &&& g.project_id == f.project_id
    &&& g.arrival_code == f.arrival_code
    &&& g.start_code == f.start_code
    &&& g.end_code == f.end_code
    &&& g.created_at == f.created_at
    &&& if kind is Arrival { opt_chars(g.arrival_at) == Some(now) } else { g.arrival_at == f.arrival_at }
    &&& if kind is Start { opt_chars(g.start_at) == Some(now) } else { g.start_at == f.start_at }
    &&& if kind is End { opt_chars(g.end_at) == Some(now) } else { g.end_at == f.end_at }
    &&& if kind is End && g.arrival_at is Some && g.start_at is Some {
        &&& g.is_complete
        &&& opt_chars(g.service_record_hash) == Some(service_record_hash_spec(g.id@, g.project_id@,
            g.arrival_at->0@, g.start_at->0@, now))
    } else {
        &&& g.is_complete == f.is_complete
        &&& g.service_record_hash == f.service_record_hash
    }
}

/// The text of an optional `String`, borrowed.
fn opt_as_str(o: &Option<String>) -> (r: Option<&str>)
    ensures
        opt_view(r) == opt_chars(*o),
{
    match o {
        Some(s) => Some(s.as_str()),
        None => None,
    }
}

/// Records checkpoint `kind` at `now` on fulfillment `f`: refused by the timing rules, or the
/// fulfillment as it stands afterwards. A recorded checkpoint keeps the timestamps in order:
/// start only after an arrival, end only after a start and strictly later than it (when both
/// times parse), start at most two whole hours after arrival (when both parse).
pub fn record_checkpoint_at(f: FulfillmentRecord, kind: CheckpointKind, now: &str) -> (r: Result<FulfillmentRecord, Refusal>)
    ensures
        r is Ok <==> checkpoint_outcome(f, kind, now@) is Ok,
        r matches Err(e) ==> unit_answers(Err(e), checkpoint_outcome(f, kind, now@)),
        r matches Ok(g) ==> checkpoint_recorded(f, kind, now@, g),
        r matches Ok(g) ==> (checkpoints_ordered(f) ==> checkpoints_ordered(g)),
        r matches Ok(g) && kind is Start ==> f.arrival_at is Some
            && (hours_since(now@, opt_chars(f.arrival_at)) matches Some(h) ==> h <= 2),
        r matches Ok(g) && kind is End ==> f.start_at is Some
            && now_not_after(now@, opt_chars(f.start_at)) != Some(true),
{
    let arrival = opt_as_str(&f.arrival_at);
    let start = opt_as_str(&f.start_at);
    match check_checkpoint_timing(kind, arrival, start, now) {
        Err(e) => return Err(e),
        Ok(()) => {},
    }
    let mut g = f;
    let stamp = String::from_str(now);
    match kind {
        CheckpointKind::Arrival => { g.arrival_at = Some(stamp); },
        CheckpointKind::Start => { g.start_at = Some(stamp); },
        CheckpointKind::End => {
            g.end_at = Some(stamp);
            match service_record_hash(&g) {
                Some(h) => {
                    g.is_complete = true;
                    g.service_record_hash = Some(h);
                },
                None => {},
            }
        },
    }
    Ok(g)
}


// ── Completion ──

/// The text a completed service record is hashed from: id, project, arrival, start and end,
/// separated by `|`.
pub open spec fn service_record_text(id: Seq<char>, project_id: Seq<char>, arrival: Seq<char>, start: Seq<char>, end: Seq<char>) -> Seq<char> {
    id + seq!['|'] + project_id + seq!['|'] + arrival + seq!['|'] + start + seq!['|'] + end
}

/// The tamper-evident hash of a service record: SHA-256 of its text, in lowercase hex.
pub open spec fn service_record_hash_spec(id: Seq<char>, project_id: Seq<char>, arrival: Seq<char>, start: Seq<char>, end: Seq<char>) -> Seq<char> {
    hex_lower(sha256(encode_utf8(service_record_text(id, project_id, arrival, start, end))))
}

/// The record hash of a fulfillment, once arrival, start and end are all recorded.
pub fn service_record_hash(f: &FulfillmentRecord) -> (r: Option<String>)
    ensures
        (f.arrival_at is Some && f.start_at is Some && f.end_at is Some) <==> r is Some,
        r matches Some(h) ==> h@ == service_record_hash_spec(f.id@, f.project_id@,
            f.arrival_at->0@, f.start_at->0@, f.end_at->0@),
        r matches Some(h) ==> h@.len() == 64
            && forall|i: int| 0 <= i < h@.len() ==> is_lower_hex_char(#[trigger] h@[i]),
{
    match (&f.arrival_at, &f.start_at, &f.end_at) {
        (Some(a), Some(s), Some(e)) => {
            let mut text = chars_of(f.id.as_str());
            text.push('|');
            let p = chars_of(f.project_id.as_str());
            extend_chars(&mut text, &p);
            text.push('|');
            let av = chars_of(a.as_str());
            extend_chars(&mut text, &av);
            text.push('|');
            let sv = chars_of(s.as_str());
            extend_chars(&mut text, &sv);
            text.push('|');
            let ev = chars_of(e.as_str());
            extend_chars(&mut text, &ev);
            assert(text@ =~= service_record_text(f.id@, f.project_id@, a@, s@, e@));
            let t = string_of(text.as_slice());
            let bytes = utf8_bytes(t.as_str());
            Some(sha256_hex(bytes.as_slice()))
        },
        _ => None,
    }
}

/// The service proof of a fulfillment: refused until the fulfillment is complete; missing
/// timestamps and hash read as empty text.
pub fn service_proof(f: &FulfillmentRecord, project_title: &str, generated_at: &str) -> (r: Result<ServiceProof, Refusal>)
    ensures
        !f.is_complete ==> refused_with(r, 400, "Fulfillment not yet complete"@),
        f.is_complete ==> (r matches Ok(p) && {
            &&& p.fulfillment_id@ == f.id@
            &&& p.project_id@ == f.project_id@
            &&& p.project_title@ == project_title@
            &&& p.arrival_at@ == text_or_empty(f.arrival_at)
            &&& p.start_at@ == text_or_empty(f.start_at)
            &&& p.end_at@ == text_or_empty(f.end_at)
            &&& p.service_record_hash@ == text_or_empty(f.service_record_hash)
            &&& p.generated_at@ == generated_at@
        }),
{
    if !f.is_complete {
        return Err(refusal(400, "Fulfillment not yet complete"));
    }
    Ok(ServiceProof {
        fulfillment_id: f.id.clone(),
        project_id: f.project_id.clone(),
        project_title: String::from_str(project_title),
        arrival_at: or_empty(&f.arrival_at),
        start_at: or_empty(&f.start_at),
        end_at: or_empty(&f.end_at),
        service_record_hash: or_empty(&f.service_record_hash),
        generated_at: String::from_str(generated_at),
    })
}

/// The text of an optional string, empty when absent (`unwrap_or_default`).
pub open spec fn text_or_empty(o: Option<String>) -> Seq<char> {
    match o {
        Some(s) => s@,
        None => Seq::empty(),
    }
}

fn or_empty(o: &Option<String>) -> (r: String)
    ensures
        r@ == text_or_empty(*o),
{
    match o {
        Some(s) => s.clone(),
        None => String::new(),
    }
}

} // verus!
