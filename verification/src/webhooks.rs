//! Outgoing webhooks: which URLs may receive them, which hooks an event goes to, how a
//! delivery is signed and summarised, and the retry schedule.
use vstd::prelude::*;
use vstd::utf8::{encode_utf8, decode_utf8, encode_utf8_decode_utf8, is_char_boundary};
use vstd::arithmetic::power2::{pow2, lemma2_to64};
use rand::Rng;
use crate::types::WebhookConfig;
use crate::access::{Refusal, refusal, refused_with};
use crate::auth::{hmac_sha256, hmac_sha256_bytes};
use crate::codec::{hex_lower, hex_encode, is_lower_hex_char, lemma_hex_lower_shape, utf8_bytes};
use crate::text::{chars_of, string_of, str_eq, concat, lowercase, to_lowercase};

verus! {

// ── Local-network URLs ──

/// The host of a parsed URL as the `url` crate classifies it.
#[derive(Clone, Debug)]
pub enum UrlHost {
    /// A domain name.
    Domain(String),
    /// An IPv4 address, by its four octets.
    Ipv4(u8, u8, u8, u8),
    /// An IPv6 address, by its eight 16-bit groups.
    Ipv6(u16, u16, u16, u16, u16, u16, u16, u16),
}

/// `UrlHost` with the domain name as characters.
pub enum HostView {
    Domain(Seq<char>),
    Ipv4(u8, u8, u8, u8),
    Ipv6(u16, u16, u16, u16, u16, u16, u16, u16),
}

impl View for UrlHost {
    type V = HostView;

    open spec fn view(&self) -> HostView {
        match *self {
            UrlHost::Domain(d) => HostView::Domain(d@),
            UrlHost::Ipv4(a, b, c, d) => HostView::Ipv4(a, b, c, d),
            UrlHost::Ipv6(a, b, c, d, e, f, g, h) => HostView::Ipv6(a, b, c, d, e, f, g, h),
        }
    }
}

/// The view of an optional host.
pub open spec fn host_view(h: Option<UrlHost>) -> Option<HostView> {
    match h {
        Some(x) => Some(x@),
        None => None,
    }
}

/// What `url::Url::parse` makes of a text: its scheme and host, `None` where it does not parse.
pub uninterp spec fn url_scheme_host(url: Seq<char>) -> Option<(Seq<char>, Option<HostView>)>;

/// Parses a URL (`url::Url::parse`) and gives its scheme and host (`Url::host`), the host
/// converted variant by variant (`octets`, `segments`).
#[verifier::external_body]
fn parse_url_host(url: &str) -> (res: Option<(String, Option<UrlHost>)>)
    ensures
        match res {
            None => url_scheme_host(url@) is None,
            Some((scheme, host)) => url_scheme_host(url@) == Some((scheme@, host_view(host))),
        },
{
    let u = url::Url::parse(url).ok()?;
    let host = match u.host() {
        None => None,
        Some(url::Host::Domain(d)) => Some(UrlHost::Domain(d.to_string())),
        Some(url::Host::Ipv4(a)) => {
            let o = a.octets();
            Some(UrlHost::Ipv4(o[0], o[1], o[2], o[3]))
        },
        Some(url::Host::Ipv6(a)) => {
            let g = a.segments();
            Some(UrlHost::Ipv6(g[0], g[1], g[2], g[3], g[4], g[5], g[6], g[7]))
        },
    };
    Some((u.scheme().to_string(), host))
}

/// Whether `s` ends with `suffix` (`str::ends_with`).
pub open spec fn ends_with(s: Seq<char>, suffix: Seq<char>) -> bool {
    s.len() >= suffix.len() && s.subrange(s.len() - suffix.len(), s.len() as int) == suffix
}

fn ends_with_exec(s: &Vec<char>, suffix: &Vec<char>) -> (r: bool)
    ensures
        r == ends_with(s@, suffix@),
{
    if s.len() < suffix.len() {
        return false;
    }
    let n = s.len();
    let off = n - suffix.len();
    let mut i: usize = 0;
    while i < suffix.len()
        invariant
            n == s@.len(),
            off + suffix@.len() == s@.len(),
            i <= suffix@.len(),
            forall|j: int| 0 <= j < i ==> s@[off + j] == suffix@[j],
        decreases suffix@.len() - i,
    {
        if s[off + i] != suffix[i] {
            assert(s@.subrange(off as int, s@.len() as int)[i as int] != suffix@[i as int]);
            return false;
        }
        i += 1;
    }
    assert(s@.subrange(off as int, s@.len() as int) =~= suffix@);
    true
}

/// A host on the local network: `localhost`, a `.local` name (compared in lower case), an
/// IPv4 loopback (127/8), private (10/8, 172.16/12, 192.168/16) or link-local (169.254/16)
/// address, or the IPv6 loopback `::1`.
pub open spec fn is_local_host(h: HostView) -> bool {
    match h {
        HostView::Domain(d) => {
            let l = lowercase(d);
            l == "localhost"@ || ends_with(l, ".local"@) || l == "[::1]"@
        },
        HostView::Ipv4(a, b, _c, _d) => {
            ||| a == 127
            ||| a == 10
            ||| (a == 172 && 16 <= b && b <= 31)
            ||| (a == 192 && b == 168)
            ||| (a == 169 && b == 254)
        },
        HostView::Ipv6(a, b, c, d, e, f, g, h) => a == 0 && b == 0 && c == 0 && d == 0 && e == 0 && f == 0 && g == 0 && h == 1,
    }
}

/// A webhook URL is accepted when it parses, uses plain `http`, and names a local host.
pub open spec fn local_url_spec(parsed: Option<(Seq<char>, Option<HostView>)>) -> bool {
    match parsed {
        None => false,
        Some((scheme, host)) => scheme == "http"@ && match host {
            None => false,
            Some(h) => is_local_host(h),
        },
    }
}

/// Decides, from a parsed URL, whether it targets the local network.
pub fn parsed_url_is_local(parsed: Option<(String, Option<UrlHost>)>) -> (r: bool)
    ensures
        r == local_url_spec(match parsed {
            None => None,
            Some((s, h)) => Some((s@, host_view(h))),
        }),
{
    match parsed {
        None => false,
        Some((scheme, host)) => {
            if !str_eq(scheme.as_str(), "http") {
                return false;
            }
            match host {
                None => false,
                Some(UrlHost::Domain(d)) => {
                    let lower = to_lowercase(d.as_str());
                    let l = chars_of(lower.as_str());
                    let suffix = chars_of(".local");
                    str_eq(lower.as_str(), "localhost") || ends_with_exec(&l, &suffix) || str_eq(lower.as_str(), "[::1]")
                },
                Some(UrlHost::Ipv4(a, b, _c, _d)) => {
                    a == 127 || a == 10 || (a == 172 && 16 <= b && b <= 31) || (a == 192 && b == 168) || (a == 169 && b == 254)
                },
                Some(UrlHost::Ipv6(a, b, c, d, e, f, g, h)) => {
                    a == 0 && b == 0 && c == 0 && d == 0 && e == 0 && f == 0 && g == 0 && h == 1
                },
            }
        },
    }
}

/// Whether a webhook URL targets an on-premises device on the local network. The `url` crate
/// writes an IP host in canonical form (four decimals; RFC 5952 for IPv6), so testing the
/// parsed address is the same as testing the host text.
pub fn is_local_url(url: &str) -> (r: bool)
    ensures
        r == local_url_spec(url_scheme_host(url@)),
{
    let parsed = parse_url_host(url);
    parsed_url_is_local(parsed)
}

// ── Laws of the local-network rule ──

/// The 32-bit value of an IPv4 address written `a.b.c.d`.
pub open spec fn ipv4_value(a: u8, b: u8, c: u8, d: u8) -> int {
    a as int * 16777216 + b as int * 65536 + c as int * 256 + d as int
}

/// Whether an address value lies in the CIDR block `base/prefix`, given as its first address
/// and its size.
pub open spec fn in_block(v: int, base: int, size: int) -> bool {
    base <= v && v < base + size
}

/// An `http` URL with an IPv4 host is accepted exactly when the address lies in one of the
/// reserved local blocks: loopback 127.0.0.0/8, the private blocks 10.0.0.0/8, 172.16.0.0/12
/// and 192.168.0.0/16, or link-local 169.254.0.0/16. Every other IPv4 address is refused.
pub proof fn law_ipv4_local_blocks(a: u8, b: u8, c: u8, d: u8)
    ensures
        local_url_spec(Some(("http"@, Some(HostView::Ipv4(a, b, c, d))))) <==> {
            let v = ipv4_value(a, b, c, d);
            ||| in_block(v, 0x7F00_0000, 0x100_0000)
            ||| in_block(v, 0x0A00_0000, 0x100_0000)
            ||| in_block(v, 0xAC10_0000, 0x10_0000)
            ||| in_block(v, 0xC0A8_0000, 0x1_0000)
            ||| in_block(v, 0xA9FE_0000, 0x1_0000)
        },
{
    reveal_strlit("http");
}

/// Every address of the private block 10.0.0.0/8 is local, whatever its last three octets.
pub proof fn law_ten_block_is_local(b: u8, c: u8, d: u8)
    ensures
        local_url_spec(Some(("http"@, Some(HostView::Ipv4(10, b, c, d))))),
{
    law_ipv4_local_blocks(10, b, c, d);
}

/// Only plain `http` URLs are accepted, whatever their host.
pub proof fn law_only_plain_http(scheme: Seq<char>, host: Option<HostView>)
    requires
        scheme != "http"@,
    ensures
        !local_url_spec(Some((scheme, host))),
{
}

/// A URL that does not parse, or that has no host, is refused.
pub proof fn law_unparsed_or_hostless_refused(scheme: Seq<char>)
    ensures
        !local_url_spec(None),
        !local_url_spec(Some((scheme, None))),
{
}

// ── Which hooks an event goes to ──

/// Whether a listed event type covers an event: the same name, or `*` for every event.
pub open spec fn covers(listed: Seq<char>, event: Seq<char>) -> bool {
    listed == event || listed == "*"@
}

/// Whether a hook takes an event: it is enabled and lists a type that covers the event.
pub open spec fn hook_wants(h: WebhookConfig, event: Seq<char>) -> bool {
    h.enabled && exists|i: int| 0 <= i < h.event_types@.len() && #[trigger] covers(h.event_types@[i]@, event)
}

/// The hooks, in order, that take an event.
pub open spec fn hooks_wanting(hooks: Seq<WebhookConfig>, event: Seq<char>) -> Seq<WebhookConfig>
    decreases hooks.len(),
{
    if hooks.len() == 0 {
        Seq::empty()
    } else if hook_wants(hooks[0], event) {
        seq![hooks[0]] + hooks_wanting(hooks.drop_first(), event)
    } else {
        hooks_wanting(hooks.drop_first(), event)
    }
}

/// Whether one hook takes an event.
pub fn webhook_wants(h: &WebhookConfig, event: &str) -> (r: bool)
    ensures
        r == hook_wants(*h, event@),
{
    if !h.enabled {
        return false;
    }
    let mut i: usize = 0;
    while i < h.event_types.len()
        invariant
            h.enabled,
            i <= h.event_types@.len(),
            forall|j: int| 0 <= j < i ==> !#[trigger] covers(h.event_types@[j]@, event@),
        decreases h.event_types@.len() - i,
    {
        let t = h.event_types[i].as_str();
        if str_eq(t, event) || str_eq(t, "*") {
            assert(h.event_types@[i as int]@ == t@);
            assert(covers(h.event_types@[i as int]@, event@));
            return true;
        }
        i += 1;
    }
    false
}

/// The hooks that take an event, in their listed order.
pub fn webhooks_for_event(hooks: Vec<WebhookConfig>, event: &str) -> (r: Vec<WebhookConfig>)
    ensures
        r@ == hooks_wanting(hooks@, event@),
{
    let ghost all = hooks@;
    let mut rest = hooks;
    let mut out: Vec<WebhookConfig> = Vec::new();
    while rest.len() > 0
        invariant
            out@ + hooks_wanting(rest@, event@) == hooks_wanting(all, event@),
        decreases rest@.len(),
    {
        let ghost before = rest@;
        let h = rest.remove(0);
        assert(rest@ =~= before.drop_first());
        if webhook_wants(&h, event) {
            out.push(h);
            assert(out@ + hooks_wanting(rest@, event@) =~= hooks_wanting(all, event@));
        }
    }
    assert(out@ =~= hooks_wanting(all, event@));
    out
}

// ── Signing and summarising a delivery ──

/// The signature a delivery carries: HMAC-SHA256 of the payload under the hook's secret, in
/// lowercase hex.
pub open spec fn signature_spec(secret: Seq<char>, payload: Seq<char>) -> Seq<char> {
    hex_lower(hmac_sha256(encode_utf8(secret), encode_utf8(payload)))
}

/// Signs a delivery payload with the hook's secret.
pub fn webhook_signature(secret: &str, payload: &str) -> (r: String)
    ensures
        r@ == signature_spec(secret@, payload@),
        r@.len() == 64,
{
    let k = utf8_bytes(secret);
    let m = utf8_bytes(payload);
    let tag = hmac_sha256_bytes(k.as_slice(), m.as_slice());
    proof { lemma_hex_lower_shape(tag@); }
    hex_encode(tag.as_slice())
}

/// Thirty-two bytes from the thread-local random generator (`rand::thread_rng().gen()`).
#[verifier::external_body]
fn random_32_bytes() -> (res: Vec<u8>)
    ensures
        res@.len() == 32,
{
    let bytes: [u8; 32] = rand::thread_rng().gen();
    bytes.to_vec()
}

/// A fresh signing secret for a hook: 32 random bytes in lowercase hex.
pub fn new_webhook_secret() -> (r: String)
    ensures
        r@.len() == 64,
        forall|i: int| 0 <= i < 64 ==> is_lower_hex_char(#[trigger] r@[i]),
{
    let b = random_32_bytes();
    proof { lemma_hex_lower_shape(b@); }
    hex_encode(b.as_slice())
}

/// The longest payload, in bytes, that a delivery log keeps whole.
pub const SUMMARY_BYTES: usize = 200;

/// The payload as a delivery log shows it: whole up to 200 bytes, otherwise its first 200
/// bytes followed by `...`.
pub open spec fn summary_spec(payload: Seq<char>) -> Seq<char> {
    if encode_utf8(payload).len() > 200 {
        decode_utf8(encode_utf8(payload).take(200)) + "..."@
    } else {
        payload
    }
}

/// Summarises a payload for the delivery log: its first 200 bytes and `...` when it is longer.
/// A byte slice may not cut inside a character, so a long payload must have a character
/// boundary at byte 200.
pub fn delivery_summary(payload: &str) -> (r: String)
    requires
        encode_utf8(payload@).len() > 200 ==> is_char_boundary(encode_utf8(payload@), 200),
    ensures
        r@ == summary_spec(payload@),
{
    let n = payload.as_bytes().len();
    if n > SUMMARY_BYTES {
        let (head, _tail) = payload.split_at(SUMMARY_BYTES);
        proof {
            encode_utf8_decode_utf8(head@);
            assert(encode_utf8(head@) =~= encode_utf8(payload@).subrange(0, 200));
            assert(encode_utf8(payload@).take(200) =~= encode_utf8(payload@).subrange(0, 200));
        }
        concat(head, "...")
    } else {
        String::from_str(payload)
    }
}

// ── Event type lists ──

/// What `serde_json::to_string` writes for a list of strings (a JSON array of strings).
pub uninterp spec fn json_string_list(items: Seq<Seq<char>>) -> Seq<char>;

/// What `serde_json::from_str::<Vec<String>>` reads from a text, `None` where it fails.
pub uninterp spec fn json_string_list_decode(text: Seq<char>) -> Option<Seq<Seq<char>>>;

/// The strings of a list, as character sequences.
pub open spec fn string_views(v: Seq<String>) -> Seq<Seq<char>> {
    v.map_values(|s: String| s@)
}

/// Writes a hook's event types as JSON (`serde_json::to_string`, which cannot fail on a list
/// of strings). Claims: the text is the named function of the list, and reading it back
/// gives the same list (serde_json escapes every string it writes).
#[verifier::external_body]
fn event_types_json(types: &[String]) -> (res: String)
    ensures
        res@ == json_string_list(string_views(types@)),
        json_string_list_decode(res@) == Some(string_views(types@)),
{
    serde_json::to_string(types).unwrap_or_else(|_| "[]".to_string())
}

/// Reads a hook's stored event types (`serde_json::from_str`); an unreadable text gives no
/// event types at all.
#[verifier::external_body]
fn parse_event_types(text: &str) -> (res: Vec<String>)
    ensures
        match json_string_list_decode(text@) {
            Some(items) => string_views(res@) == items,
            None => res@.len() == 0,
        },
{
    serde_json::from_str::<Vec<String>>(text).unwrap_or_default()
}

// ── Registration and storage ──

/// A webhook ready to be stored: its signing secret and its event types as stored text.
#[derive(Clone, Debug)]
pub struct NewWebhook {
    pub secret: String,
    pub event_types_json: String,
}

/// Registers a webhook: its URL must target the local network; it receives a fresh signing
/// secret, and its event types are stored as JSON that reads back as the same list.
pub fn prepare_webhook(url: &str, event_types: &[String]) -> (r: Result<NewWebhook, Refusal>)
    ensures
        !local_url_spec(url_scheme_host(url@)) ==> refused_with(r, 400,
            "Webhooks are only supported for on-prem devices on the local network"@),
        local_url_spec(url_scheme_host(url@)) ==> (r matches Ok(w) && {
            &&& w.secret@.len() == 64
            &&& forall|i: int| 0 <= i < 64 ==> is_lower_hex_char(#[trigger] w.secret@[i])
            &&& w.event_types_json@ == json_string_list(string_views(event_types@))
            &&& json_string_list_decode(w.event_types_json@) == Some(string_views(event_types@))
        }),
{
    if !is_local_url(url) {
        return Err(refusal(400, "Webhooks are only supported for on-prem devices on the local network"));
    }
    let secret = new_webhook_secret();
    let json = event_types_json(event_types);
    Ok(NewWebhook { secret, event_types_json: json })
}

/// The webhook a stored row describes: its event types read back from their JSON text (none
/// when the text cannot be read), enabled when the stored flag is not 0.
pub fn webhook_from_row(
    id: String,
    name: String,
    url: String,
    secret: String,
    event_types_json: &str,
    enabled: i64,
    created_at: String,
) -> (r: WebhookConfig)
    ensures
        r.id == id,
        r.name == name,
        r.url == url,
        r.secret == secret,
        r.created_at == created_at,
        r.enabled == (enabled != 0),
        match json_string_list_decode(event_types_json@) {
            Some(items) => string_views(r.event_types@) == items,
            None => r.event_types@.len() == 0,
        },
{
    let event_types = parse_event_types(event_types_json);
    WebhookConfig { id, name, url, secret, event_types, enabled: enabled != 0, created_at }
}

// ── Delivery schedule ──

/// How many times a delivery is attempted at most: the first try and up to three retries.
pub const MAX_DELIVERY_ATTEMPTS: u32 = 4;

/// What one delivery attempt leads to: whether it succeeded, what the log records, and how
/// long to wait before the next attempt (`None`: no further attempt).
#[derive(Clone, Debug)]
pub struct DeliveryStep {
    pub success: bool,
    pub status_code: Option<i32>,
    pub error: Option<String>,
    pub retry_after_secs: Option<u64>,
}

/// Whether an HTTP status counts as a successful delivery (2xx).
pub open spec fn delivered(status: u16) -> bool {
    200 <= status && status < 300
}

/// The wait before attempt `attempt + 1`: `2^(attempt - 1)` seconds.
pub open spec fn backoff_secs(attempt: u32) -> int {
    pow2((attempt - 1) as nat) as int
}

/// The wait after attempt `attempt` ended with or without success: the backoff while the
/// delivery failed and attempts remain, none otherwise.
pub open spec fn retry_wait(attempt: u32, success: bool) -> Option<u64> {
    if !success && attempt < MAX_DELIVERY_ATTEMPTS {
        Some(backoff_secs(attempt) as u64)
    } else {
        None
    }
}

/// How many attempts a delivery makes from attempt `attempt` on, when attempt `k` succeeds
/// exactly when `succeeds[k - 1]`.
pub open spec fn attempts_from(attempt: u32, succeeds: Seq<bool>) -> nat
    recommends
        1 <= attempt <= MAX_DELIVERY_ATTEMPTS,
        succeeds.len() >= MAX_DELIVERY_ATTEMPTS,
    decreases MAX_DELIVERY_ATTEMPTS - attempt,
{
    if attempt >= 1 && attempt < MAX_DELIVERY_ATTEMPTS && retry_wait(attempt, succeeds[attempt - 1]) is Some {
        attempts_from((attempt + 1) as u32, succeeds)
    } else {
        attempt as nat
    }
}

/// A delivery stops at its first successful attempt and is retried at most three times, so it
/// makes at most four attempts; the waits after the first, second and third failures are one,
/// two and four seconds.
pub proof fn lemma_delivery_schedule(succeeds: Seq<bool>)
    requires
        succeeds.len() >= MAX_DELIVERY_ATTEMPTS,
    ensures
        attempts_from(1, succeeds) == (if succeeds[0] {
            1nat
        } else if succeeds[1] {
            2nat
        } else if succeeds[2] {
            3nat
        } else {
            4nat
        }),
        attempts_from(1, succeeds) <= MAX_DELIVERY_ATTEMPTS,
        retry_wait(1, false) == Some(1u64),
        retry_wait(2, false) == Some(2u64),
        retry_wait(3, false) == Some(4u64),
        retry_wait(4, false) is None,
        forall|k: u32| 1 <= k <= MAX_DELIVERY_ATTEMPTS ==> retry_wait(k, true) is None,
{
    lemma2_to64();
    assert(attempts_from(4, succeeds) == 4);
    assert(attempts_from(3, succeeds) == (if succeeds[2] { 3nat } else { 4nat }));
    assert(attempts_from(2, succeeds) == (if succeeds[1] { 2nat } else if succeeds[2] { 3nat } else { 4nat }));
}

/// Decides what follows delivery attempt `attempt` (counted from 1): a 2xx answer ends the
/// delivery; otherwise another attempt follows after the backoff, up to four attempts.
pub fn delivery_step(attempt: u32, outcome: Result<u16, String>) -> (r: DeliveryStep)
    requires
        1 <= attempt <= MAX_DELIVERY_ATTEMPTS,
    ensures
        r.success == (outcome matches Ok(s) && delivered(s)),
        r.status_code == (match outcome { Ok(s) => Some(s as i32), Err(_) => None::<i32> }),
        match outcome {
            Ok(_) => r.error is None,
            Err(e) => r.error matches Some(m) && m@ == e@,
        },
        r.retry_after_secs == retry_wait(attempt, r.success),
        r.success <==> (outcome matches Ok(s) && 200 <= s && s < 300),
        outcome matches Ok(s) && 200 <= s && s < 300 ==> r.retry_after_secs is None,
{
    let (success, status_code, error) = match outcome {
        Ok(s) => (200 <= s && s < 300, Some(s as i32), None),
        Err(e) => (false, None, Some(e)),
    };
    let retry_after_secs = if !success && attempt < MAX_DELIVERY_ATTEMPTS {
        let k: u32 = attempt - 1;
        let wait: u64 = 1u64 << k;
        proof {
            lemma2_to64();
            if k == 0 {
                assert(1u64 << 0u32 == 1u64) by (bit_vector);
            } else if k == 1 {
                assert(1u64 << 1u32 == 2u64) by (bit_vector);
            } else {
                assert(k == 2);
                assert(1u64 << 2u32 == 4u64) by (bit_vector);
            }
        }
        Some(wait)
    } else {
        None
    };
    DeliveryStep { success, status_code, error, retry_after_secs }
}

/// Every 2xx answer ends a delivery, at whichever attempt it comes; any other answer, or no
/// answer, is retried while attempts remain, after `2^(attempt - 1)` seconds.
pub proof fn law_any_2xx_ends_delivery(attempt: u32, status: u16)
    requires
        1 <= attempt <= MAX_DELIVERY_ATTEMPTS,
    ensures
        delivered(status) <==> (200 <= status && status < 300),
        200 <= status && status < 300 ==> retry_wait(attempt, delivered(status)) is None,
        !(200 <= status && status < 300) && attempt < MAX_DELIVERY_ATTEMPTS
            ==> retry_wait(attempt, delivered(status)) == Some(pow2((attempt - 1) as nat) as u64),
        attempt == MAX_DELIVERY_ATTEMPTS ==> retry_wait(attempt, false) is None,
{
}

} // verus!
