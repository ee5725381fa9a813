//! What the portal's pages show and send: labels, pagination, two-click confirmations and the
//! query strings of list requests. The pages themselves are browser UI; these are the
//! decisions they make.
use vstd::prelude::*;
use vstd::utf8::{encode_utf8, decode_utf8, encode_utf8_decode_utf8, is_char_boundary};
use crate::codec::{signed_decimal, i64_to_decimal, decimal, u64_to_decimal};
use crate::text::{chars_of, string_of, extend_chars, concat, str_eq, join_with, join_strings, split_on, split_chars};
use crate::enums::{EventKind, Role};
use crate::types::{Notification, TrackEventRequest};
use crate::receipts::{allowed_receipt_type, MAX_RECEIPT_BYTES};

verus! {

// ── Form fields ──

/// An optional form value: `None` for an empty field.
pub fn nonempty(s: &str) -> (r: Option<String>)
    ensures
        s@.len() == 0 ==> r is None,
        s@.len() > 0 ==> (r matches Some(t) && t@ == s@),
{
    if s.is_empty() {
        None
    } else {
        Some(String::from_str(s))
    }
}

// ── Pagination ──

/// Integer division rounding toward zero, as Rust's `/` on signed integers does.
pub open spec fn div_toward_zero(a: int, b: int) -> int {
    let q = (if a >= 0 { a } else { -a }) / (if b >= 0 { b } else { -b });
    if (a >= 0) == (b > 0) || q == 0 { q } else { -q }
}

/// How many pages `total` items fill at `per_page` a page: `(total + per_page - 1) / per_page`
/// in `i64` arithmetic (rounded up for a positive page size).
pub open spec fn total_pages_spec(total: int, per_page: int) -> int {
    div_toward_zero(total + per_page - 1, per_page)
}

/// The number of pages of a list response. As in the `i64` expression it stands for, the page
/// size must not be zero and the sums and the quotient must stay within `i64`.
pub fn total_pages(total: i64, per_page: i64) -> (r: i64)
    requires
        per_page != 0,
        i64::MIN <= total + per_page <= i64::MAX,
        i64::MIN <= total + per_page - 1 <= i64::MAX,
        !(total + per_page - 1 == i64::MIN && per_page == -1),
    ensures
        r as int == total_pages_spec(total as int, per_page as int),
{
    let n: i64 = total + per_page - 1;
    let a: i128 = if n >= 0 { n as i128 } else { -(n as i128) };
    let b: i128 = if per_page >= 0 { per_page as i128 } else { -(per_page as i128) };
    let q: i128 = a / b;
    proof {
        vstd::arithmetic::div_mod::lemma_div_is_ordered_by_denominator(a as int, 1, b as int);
        assert(a as int / 1 == a);
        if a == 9223372036854775808i128 {
            assert(n == i64::MIN);
            if b == 1 {
                assert(q == a);
            } else {
                assert(b >= 2);
                vstd::arithmetic::div_mod::lemma_div_is_ordered_by_denominator(a as int, 2, b as int);
                assert(a as int / 2 == 4611686018427387904);
            }
        }
    }
    let r: i128 = if (n >= 0) == (per_page > 0) || q == 0 { q } else { -q };
    r as i64
}

/// The pager under a list: shown only when there is more than one page; "Previous" is off on
/// the first page and "Next" on the last.
#[derive(Clone, Debug)]
pub struct Pager {
    pub shown: bool,
    pub previous_disabled: bool,
    pub next_disabled: bool,
    pub label: String,
}

/// The pager for page `page` of `pages`.
pub fn pager(page: i64, pages: i64) -> (r: Pager)
    ensures
        r.shown == (pages > 1),
        r.previous_disabled == (page <= 1),
        r.next_disabled == (page >= pages),
        r.label@ == "Page "@ + signed_decimal(page as int) + " of "@ + signed_decimal(pages as int),
{
    let mut label = chars_of("Page ");
    let p = i64_to_decimal(page);
    extend_chars(&mut label, &p);
    let of = chars_of(" of ");
    extend_chars(&mut label, &of);
    let n = i64_to_decimal(pages);
    extend_chars(&mut label, &n);
    Pager {
        shown: pages > 1,
        previous_disabled: page <= 1,
        next_disabled: page >= pages,
        label: string_of(label.as_slice()),
    }
}

// ── Labels ──

/// How a donation row is labelled: a plain donation, or a refund with its review state.
pub open spec fn donation_label_spec(is_reversal: bool, reversal_approved: Option<bool>) -> Seq<char> {
    if !is_reversal {
        "Donation"@
    } else {
        match reversal_approved {
            Some(true) => "Refund (Approved)"@,
            Some(false) => "Refund (Rejected)"@,
            None => "Refund (Pending)"@,
        }
    }
}

/// The label of a donation row.
pub fn donation_label(is_reversal: bool, reversal_approved: Option<bool>) -> (r: &'static str)
    ensures
        r@ == donation_label_spec(is_reversal, reversal_approved),
{
    if !is_reversal {
        "Donation"
    } else {
        match reversal_approved {
            Some(true) => "Refund (Approved)",
            Some(false) => "Refund (Rejected)",
            None => "Refund (Pending)",
        }
    }
}

/// The status column of a fulfillment row.
pub fn fulfillment_status_label(is_complete: bool) -> (r: &'static str)
    ensures
        r@ == (if is_complete { "Complete"@ } else { "In Progress"@ }),
{
    if is_complete { "Complete" } else { "In Progress" }
}

/// A timestamp column: the time, or `-` when it is not recorded yet.
pub fn or_dash(o: &Option<String>) -> (r: String)
    ensures
        r@ == (match *o { Some(s) => s@, None => "-"@ }),
{
    match o {
        Some(s) => s.clone(),
        None => String::from_str("-"),
    }
}

/// The link to the printable proof of a fulfillment.
pub fn proof_link(fulfillment_id: &str) -> (r: String)
    ensures
        r@ == "/fulfillment/"@ + fulfillment_id@ + "/proof"@,
{
    let a = concat("/fulfillment/", fulfillment_id);
    concat(a.as_str(), "/proof")
}

/// The flags column of a suspicious event: `DUP ` for a duplicate, then `SUS` when suspicious.
pub fn event_flags_label(is_duplicate: bool, is_suspicious: bool) -> (r: String)
    ensures
        r@ == (if is_duplicate { "DUP "@ } else { Seq::<char>::empty() })
            + (if is_suspicious { "SUS"@ } else { Seq::<char>::empty() }),
{
    let a: &str = if is_duplicate { "DUP " } else { "" };
    let b: &str = if is_suspicious { "SUS" } else { "" };
    proof {
        if !is_duplicate { assert(a@ =~= Seq::<char>::empty()) by { reveal_strlit(""); } }
        if !is_suspicious { assert(b@ =~= Seq::<char>::empty()) by { reveal_strlit(""); } }
    }
    concat(a, b)
}

/// The first `n` bytes of a text, which must end on a character boundary.
pub open spec fn byte_prefix(s: Seq<char>, n: int) -> Seq<char> {
    decode_utf8(encode_utf8(s).take(n))
}

/// A shortened identifier: its first eight bytes. As with the slicing it stands for, the id
/// must be at least eight bytes long and the cut must fall on a character boundary.
pub fn short_id(id: &str) -> (r: String)
    requires
        encode_utf8(id@).len() >= 8,
        is_char_boundary(encode_utf8(id@), 8),
    ensures
        r@ == byte_prefix(id@, 8),
{
    let (head, _tail) = id.split_at(8);
    proof {
        encode_utf8_decode_utf8(head@);
        assert(encode_utf8(head@) =~= encode_utf8(id@).subrange(0, 8));
        assert(encode_utf8(id@).take(8) =~= encode_utf8(id@).subrange(0, 8));
    }
    String::from_str(head)
}

// ── Two-click confirmations ──

/// What a click on a guarded button does: the first click arms the confirmation, a second
/// click on the same item submits, provided a password was entered.
#[derive(Clone, Copy, Debug, PartialEq, Eq, Structural)]
pub enum ClickOutcome {
    Arm,
    NeedPassword,
    Submit,
}

/// The outcome of a click, given whether the same item is already armed.
pub open spec fn click_spec(already_armed: bool, password: Seq<char>) -> ClickOutcome {
    if !already_armed {
        ClickOutcome::Arm
    } else if password.len() == 0 {
        ClickOutcome::NeedPassword
    } else {
        ClickOutcome::Submit
    }
}

/// A click on "approve" or "reject" of a pending refund; `armed` is the decision waiting
/// for its confirming click, if any.
pub fn refund_click(armed: &Option<(String, bool)>, donation_id: &str, approved: bool, password: &str) -> (r: ClickOutcome)
    ensures
        r == click_spec(armed matches Some((d, a)) && d@ == donation_id@ && a == approved, password@),
{
    let same = match armed {
        Some((d, a)) => str_eq(d.as_str(), donation_id) && *a == approved,
        None => false,
    };
    if !same {
        ClickOutcome::Arm
    } else if password.is_empty() {
        ClickOutcome::NeedPassword
    } else {
        ClickOutcome::Submit
    }
}

/// A click on "remove" of a comment; `armed` is the comment waiting for its confirming click.
pub fn delete_click(armed: Option<&str>, comment_id: &str, password: &str) -> (r: ClickOutcome)
    ensures
        r == click_spec(armed matches Some(c) && c@ == comment_id@, password@),
{
    let same = match armed {
        Some(c) => str_eq(c, comment_id),
        None => false,
    };
    if !same {
        ClickOutcome::Arm
    } else if password.is_empty() {
        ClickOutcome::NeedPassword
    } else {
        ClickOutcome::Submit
    }
}

/// The warning shown while a refund decision waits for its confirming click.
pub fn refund_warning(donation_id: &str, approved: bool) -> (r: String)
    ensures
        r@ == "You are about to "@ + (if approved { "approve"@ } else { "reject"@ }) + " refund "@
            + donation_id@ + ". Enter your password and click the button again to confirm."@,
{
    let verb: &str = if approved { "approve" } else { "reject" };
    let a = concat("You are about to ", verb);
    let b = concat(a.as_str(), " refund ");
    let c = concat(b.as_str(), donation_id);
    concat(c.as_str(), ". Enter your password and click the button again to confirm.")
}

// ── Query strings ──

/// `name=value` for an optional value.
pub open spec fn query_part(name: Seq<char>, value: Option<Seq<char>>) -> Seq<Seq<char>> {
    match value {
        Some(v) => seq![name + seq!['='] + v],
        None => Seq::empty(),
    }
}

/// The optional text of an optional string slice.
pub open spec fn opt_text(o: Option<&str>) -> Option<Seq<char>> {
    match o {
        Some(s) => Some(s@),
        None => None,
    }
}

fn push_part(parts: &mut Vec<String>, name: &str, value: Option<&str>)
    ensures
        final(parts)@.map_values(|s: String| s@) == old(parts)@.map_values(|s: String| s@) + query_part(name@, opt_text(value)),
{
    match value {
        Some(v) => {
            let mut c = chars_of(name);
            c.push('=');
            let vv = chars_of(v);
            extend_chars(&mut c, &vv);
            assert(c@ =~= name@ + seq!['='] + v@);
            parts.push(string_of(c.as_slice()));
            assert(parts@.map_values(|s: String| s@) =~= old(parts)@.map_values(|s: String| s@) + query_part(name@, opt_text(value)));
        },
        None => {
            assert(parts@.map_values(|s: String| s@) =~= old(parts)@.map_values(|s: String| s@) + query_part(name@, opt_text(value)));
        },
    }
}

/// The request path of a project list page: `page` always, then the filters that are set.
pub open spec fn projects_path_spec(page: i64, cause: Option<Seq<char>>, status: Option<Seq<char>>, zip: Option<Seq<char>>, search: Option<Seq<char>>) -> Seq<char> {
    "/projects?"@ + join_with(
        seq!["page="@ + signed_decimal(page as int)] + query_part("cause"@, cause) + query_part("status"@, status)
            + query_part("zip_code"@, zip) + query_part("search"@, search),
        "&"@,
    )
}

/// Builds the request path of a project list page.
pub fn projects_path(cause: Option<&str>, status: Option<&str>, zip: Option<&str>, search: Option<&str>, page: i64) -> (r: String)
    ensures
        r@ == projects_path_spec(page, opt_text(cause), opt_text(status), opt_text(zip), opt_text(search)),
{
    let mut parts: Vec<String> = Vec::new();
    let mut first = chars_of("page=");
    let d = i64_to_decimal(page);
    extend_chars(&mut first, &d);
    parts.push(string_of(first.as_slice()));
    assert(parts@.map_values(|s: String| s@) =~= seq!["page="@ + signed_decimal(page as int)]);
    push_part(&mut parts, "cause", cause);
    push_part(&mut parts, "status", status);
    push_part(&mut parts, "zip_code", zip);
    push_part(&mut parts, "search", search);
    let q = join_strings(parts.as_slice(), "&");
    concat("/projects?", q.as_str())
}

/// The query string of a report request: empty when no filter is set, otherwise `?` and the
/// filters that are set, in the order from, to, cause, status.
pub open spec fn report_query_spec(from: Option<Seq<char>>, to: Option<Seq<char>>, cause: Option<Seq<char>>, status: Option<Seq<char>>) -> Seq<char> {
    let parts = query_part("from"@, from) + query_part("to"@, to) + query_part("cause"@, cause) + query_part("status"@, status);
    if parts.len() == 0 {
        Seq::empty()
    } else {
        seq!['?'] + join_with(parts, "&"@)
    }
}

/// Builds the query string of a dashboard or export request.
pub fn report_query(from: Option<&str>, to: Option<&str>, cause: Option<&str>, status: Option<&str>) -> (r: String)
    ensures
        r@ == report_query_spec(opt_text(from), opt_text(to), opt_text(cause), opt_text(status)),
{
    let mut parts: Vec<String> = Vec::new();
    assert(parts@.map_values(|s: String| s@) =~= Seq::<Seq<char>>::empty());
    push_part(&mut parts, "from", from);
    push_part(&mut parts, "to", to);
    push_part(&mut parts, "cause", cause);
    push_part(&mut parts, "status", status);
    assert(parts@.map_values(|s: String| s@) =~= query_part("from"@, opt_text(from)) + query_part("to"@, opt_text(to))
        + query_part("cause"@, opt_text(cause)) + query_part("status"@, opt_text(status)));
    if parts.len() == 0 {
        String::new()
    } else {
        let q = join_strings(parts.as_slice(), "&");
        proof { reveal_strlit("?"); }
        concat("?", q.as_str())
    }
}

// ── Messages of the pages ──

/// The message shown after a checkpoint code was issued.
pub fn code_message(code: &str, expires_at: &str) -> (r: String)
    ensures
        r@ == "Code: "@ + code@ + " (expires: "@ + expires_at@ + ")"@,
{
    let a = concat("Code: ", code);
    let b = concat(a.as_str(), " (expires: ");
    let c = concat(b.as_str(), expires_at);
    concat(c.as_str(), ")")
}

/// What the refund list says after a click: a prompt when it armed the decision or lacks the
/// password, nothing when it submits.
pub fn refund_click_message(outcome: ClickOutcome) -> (r: Option<&'static str>)
    ensures
        outcome == ClickOutcome::Arm ==> (r matches Some(m) && m@ == "Please re-enter your password and click again to confirm."@),
        outcome == ClickOutcome::NeedPassword ==> (r matches Some(m) && m@ == "Password is required to confirm this action"@),
        outcome == ClickOutcome::Submit ==> r is None,
{
    match outcome {
        ClickOutcome::Arm => Some("Please re-enter your password and click again to confirm."),
        ClickOutcome::NeedPassword => Some("Password is required to confirm this action"),
        ClickOutcome::Submit => None,
    }
}

/// What the comment list says after a click on "remove": only a missing password is reported.
pub fn delete_click_message(outcome: ClickOutcome) -> (r: Option<&'static str>)
    ensures
        outcome == ClickOutcome::NeedPassword ==> (r matches Some(m) && m@ == "Enter your password to confirm deletion"@),
        outcome != ClickOutcome::NeedPassword ==> r is None,
{
    match outcome {
        ClickOutcome::NeedPassword => Some("Enter your password to confirm deletion"),
        _ => None,
    }
}

/// The number of notifications not read yet.
pub open spec fn unread_count(ns: Seq<Notification>) -> nat
    decreases ns.len(),
{
    if ns.len() == 0 {
        0
    } else {
        unread_count(ns.drop_last()) + if ns.last().is_read { 0nat } else { 1nat }
    }
}

proof fn lemma_unread_count_bound(ns: Seq<Notification>)
    ensures
        unread_count(ns) <= ns.len(),
    decreases ns.len(),
{
    if ns.len() > 0 {
        lemma_unread_count_bound(ns.drop_last());
    }
}

/// The heading of the notification center: `N unread of M total`.
pub fn unread_summary(ns: &[Notification]) -> (r: String)
    ensures
        r@ == decimal(unread_count(ns@)) + " unread of "@ + decimal(ns@.len()) + " total"@,
{
    let mut unread: u64 = 0;
    let mut i: usize = 0;
    while i < ns.len()
        invariant
            i <= ns@.len(),
            unread == unread_count(ns@.take(i as int)),
            unread <= i,
        decreases ns@.len() - i,
    {
        assert(ns@.take(i + 1).drop_last() =~= ns@.take(i as int));
        if !ns[i].is_read {
            unread = unread + 1;
        }
        i += 1;
    }
    assert(ns@.take(ns@.len() as int) =~= ns@);
    let mut out = u64_to_decimal(unread);
    let mid = chars_of(" unread of ");
    extend_chars(&mut out, &mid);
    let total = u64_to_decimal(ns.len() as u64);
    extend_chars(&mut out, &total);
    let tail = chars_of(" total");
    extend_chars(&mut out, &tail);
    string_of(out.as_slice())
}

/// The check a page makes on a chosen receipt file before reading it: an accepted type, then
/// at most 10 MB; the message to show otherwise.
pub fn receipt_file_check(mime: &str, size: i64) -> (r: Option<String>)
    ensures
        !allowed_receipt_type(mime@) ==> (r matches Some(m) && m@ == "Invalid file type: "@ + mime@ + ". Use PDF, JPG, or PNG."@),
        allowed_receipt_type(mime@) && size > MAX_RECEIPT_BYTES ==> (r matches Some(m) && m@ == "File too large. Maximum 10 MB."@),
        allowed_receipt_type(mime@) && size <= MAX_RECEIPT_BYTES ==> r is None,
        r is None ==> (mime@ == "application/pdf"@ || mime@ == "image/jpeg"@ || mime@ == "image/png"@)
            && size <= 10485760,
{
    if !(str_eq(mime, "application/pdf") || str_eq(mime, "image/jpeg") || str_eq(mime, "image/png")) {
        let a = concat("Invalid file type: ", mime);
        return Some(concat(a.as_str(), ". Use PDF, JPG, or PNG."));
    }
    if size > MAX_RECEIPT_BYTES {
        return Some(String::from_str("File too large. Maximum 10 MB."));
    }
    None
}

/// The base64 part of a `data:` URL: what follows its first comma, up to a second comma;
/// empty when there is no comma.
pub open spec fn data_url_payload_spec(url: Seq<char>) -> Seq<char> {
    let pieces = split_on(url, ',');
    if pieces.len() > 1 { pieces[1] } else { Seq::empty() }
}

/// Takes the base64 data out of a `data:` URL.
pub fn data_url_payload(url: &str) -> (r: String)
    ensures
        r@ == data_url_payload_spec(url@),
{
    let v = chars_of(url);
    let pieces = split_chars(&v, ',');
    assert(pieces@.map_values(|p: Vec<char>| p@).len() == pieces@.len());
    if pieces.len() > 1 {
        assert(pieces@.map_values(|p: Vec<char>| p@)[1] == pieces@[1]@);
        string_of(pieces[1].as_slice())
    } else {
        String::new()
    }
}

/// The reason sent with a receipt decision: none when the receipt is verified.
pub fn reason_to_send(verified: bool, reason: &str) -> (r: Option<String>)
    ensures
        verified ==> r is None,
        !verified ==> (r matches Some(t) && t@ == reason@),
{
    if verified { None } else { Some(String::from_str(reason)) }
}

// ── Page analytics ──

/// The impression event of a project page; none while the page has no project id yet.
pub fn impression_event(project_id: &str, session_id: &str) -> (r: Option<TrackEventRequest>)
    ensures
        project_id@.len() == 0 ==> r is None,
        project_id@.len() > 0 ==> (r matches Some(e) && e.event_kind == EventKind::Impression
            && e.target_type@ == "project"@ && e.target_id@ == project_id@ && e.session_id@ == session_id@
            && e.dwell_ms is None && e.metadata is None),
{
    if project_id.is_empty() {
        return None;
    }
    Some(TrackEventRequest {
        event_kind: EventKind::Impression,
        target_type: String::from_str("project"),
        target_id: String::from_str(project_id),
        session_id: String::from_str(session_id),
        dwell_ms: None,
        metadata: None,
    })
}

/// The dwell-time event sent when a project page is left: the milliseconds between entering
/// and leaving; none while the page has no project id.
pub fn dwell_event(project_id: &str, session_id: &str, entered_ms: i64, left_ms: i64) -> (r: Option<TrackEventRequest>)
    requires
        i64::MIN <= left_ms - entered_ms <= i64::MAX,
    ensures
        project_id@.len() == 0 ==> r is None,
        project_id@.len() > 0 ==> (r matches Some(e) && e.event_kind == EventKind::DwellTime
            && e.target_type@ == "project"@ && e.target_id@ == project_id@ && e.session_id@ == session_id@
            && e.dwell_ms == Some((left_ms - entered_ms) as i64) && e.metadata is None),
{
    if project_id.is_empty() {
        return None;
    }
    Some(TrackEventRequest {
        event_kind: EventKind::DwellTime,
        target_type: String::from_str("project"),
        target_id: String::from_str(project_id),
        session_id: String::from_str(session_id),
        dwell_ms: Some(left_ms - entered_ms),
        metadata: None,
    })
}

/// The confirmation line of an uploaded receipt: its name and the first 16 characters of its
/// fingerprint.
pub fn upload_message(file_name: &str, fingerprint: &str) -> (r: String)
    requires
        fingerprint@.len() >= 16,
        forall|i: int| 0 <= i < 16 ==> (fingerprint@[i] as u32) < 128,
    ensures
        r@ == "Receipt uploaded: "@ + file_name@ + " (SHA256: "@ + fingerprint@.take(16) + ")"@,
{
    let v = chars_of(fingerprint);
    let head = crate::text::sub_chars(&v, 0, 16);
    let h = string_of(head.as_slice());
    let a = concat("Receipt uploaded: ", file_name);
    let b = concat(a.as_str(), " (SHA256: ");
    let c = concat(b.as_str(), h.as_str());
    concat(c.as_str(), ")")
}

// ── Navigation ──

/// What a guarded page shows: the login page for a visitor who is not signed in, a
/// permission notice for a role that is not allowed, the page itself otherwise.
#[derive(Clone, Copy, Debug, PartialEq, Eq, Structural)]
pub enum GuardOutcome {
    Login,
    Denied,
    Show,
}

/// A page open to every signed-in user.
pub fn auth_guard(logged_in: bool) -> (r: GuardOutcome)
    ensures
        r == (if logged_in { GuardOutcome::Show } else { GuardOutcome::Login }),
{
    if logged_in { GuardOutcome::Show } else { GuardOutcome::Login }
}

/// A page open to some roles; `role` is the signed-in user's, when known.
pub fn role_guard(logged_in: bool, role: Option<Role>, allowed: &[Role]) -> (r: GuardOutcome)
    ensures
        !logged_in ==> r == GuardOutcome::Login,
        logged_in && (role matches Some(x) && allowed@.contains(x)) ==> r == GuardOutcome::Show,
        logged_in && !(role matches Some(x) && allowed@.contains(x)) ==> r == GuardOutcome::Denied,
{
    if !logged_in {
        return GuardOutcome::Login;
    }
    match role {
        Some(x) => {
            if crate::access::role_allowed(x, allowed) {
                GuardOutcome::Show
            } else {
                GuardOutcome::Denied
            }
        },
        None => GuardOutcome::Denied,
    }
}

/// The sections of the navigation bar a signed-in user sees beyond the public ones.
#[derive(Clone, Copy, Debug)]
pub struct NavSections {
    /// Staff operations and the dashboard: managers, the finance role and administrators.
    pub staff: bool,
    /// The finance desk: the finance role and administrators.
    pub finance: bool,
    /// Administration: administrators.
    pub admin: bool,
}

/// The navigation sections of a role.
pub fn nav_sections(role: Option<Role>) -> (r: NavSections)
    ensures
        r.staff == (role == Some(Role::ProjectManager) || role == Some(Role::FinanceReviewer) || role == Some(Role::Administrator)),
        r.finance == (role == Some(Role::FinanceReviewer) || role == Some(Role::Administrator)),
        r.admin == (role == Some(Role::Administrator)),
{
    match role {
        Some(Role::Administrator) => NavSections { staff: true, finance: true, admin: true },
        Some(Role::FinanceReviewer) => NavSections { staff: true, finance: true, admin: false },
        Some(Role::ProjectManager) => NavSections { staff: true, finance: false, admin: false },
        _ => NavSections { staff: false, finance: false, admin: false },
    }
}

/// Whether the staff operations page opens for a role: managers and administrators.
pub fn staff_page_open(role: Option<Role>) -> (r: bool)
    ensures
        r == (role == Some(Role::ProjectManager) || role == Some(Role::Administrator)),
{
    match role {
        Some(Role::ProjectManager) | Some(Role::Administrator) => true,
        _ => false,
    }
}

} // verus!
