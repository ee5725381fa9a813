//! Do-not-disturb windows: user time zones, local clock time and whether to defer a notification.
use vstd::prelude::*;
use crate::text::{chars_of, string_of, trim, trim_chars, split_on, split_chars};

verus! {

// ── Ordering of `HH:MM` texts ──

/// Lexicographic `<` on texts (how `str` orders: by code point, shorter prefix first).
pub open spec fn text_lt(a: Seq<char>, b: Seq<char>) -> bool
    decreases a.len(),
{
    if a.len() == 0 {
        b.len() > 0
    } else if b.len() == 0 {
        false
    } else if a[0] != b[0] {
        (a[0] as u32) < (b[0] as u32)
    } else {
        text_lt(a.drop_first(), b.drop_first())
    }
}

/// Lexicographic `<=` on texts.
pub open spec fn text_le(a: Seq<char>, b: Seq<char>) -> bool {
    a == b || text_lt(a, b)
}

/// Whether `a < b` lexicographically.
pub fn chars_lt(a: &Vec<char>, b: &Vec<char>) -> (r: bool)
    ensures
        r == text_lt(a@, b@),
{
    let mut i: usize = 0;
    assert(a@.skip(0) =~= a@);
    assert(b@.skip(0) =~= b@);
    while i < a.len() && i < b.len()
        invariant
            i <= a@.len(),
            i <= b@.len(),
            a@.take(i as int) == b@.take(i as int),
            text_lt(a@, b@) == text_lt(a@.skip(i as int), b@.skip(i as int)),
        decreases a@.len() - i,
    {
        let ghost sa = a@.skip(i as int);
        let ghost sb = b@.skip(i as int);
        assert(sa[0] == a@[i as int]);
        assert(sb[0] == b@[i as int]);
        if a[i] != b[i] {
            return (a[i] as u32) < (b[i] as u32);
        }
        assert(sa.drop_first() =~= a@.skip(i + 1));
        assert(sb.drop_first() =~= b@.skip(i + 1));
        assert(a@.take(i + 1) =~= a@.take(i as int).push(a@[i as int]));
        assert(b@.take(i + 1) =~= b@.take(i as int).push(b@[i as int]));
        i += 1;
    }
    assert(a@.skip(i as int).len() == 0 || b@.skip(i as int).len() == 0);
    i < b.len()
}

/// Whether two character vectors are equal.
fn same_chars(a: &Vec<char>, b: &Vec<char>) -> (r: bool)
    ensures
        r == (a@ == b@),
{
    crate::text::chars_eq(a, b)
}

/// Whether clock time `now` falls in the window from `start` (inclusive) to `end` (exclusive);
/// a window whose start sorts after its end runs overnight.
pub open spec fn within_dnd(now: Seq<char>, start: Seq<char>, end: Seq<char>) -> bool {
    if text_le(start, end) {
        text_le(start, now) && text_lt(now, end)
    } else {
        text_le(start, now) || text_lt(now, end)
    }
}

proof fn lemma_text_lt_asym(a: Seq<char>, b: Seq<char>)
    ensures
        !(text_lt(a, b) && text_lt(b, a)),
    decreases a.len(),
{
    if a.len() > 0 && b.len() > 0 && a[0] == b[0] {
        lemma_text_lt_asym(a.drop_first(), b.drop_first());
    }
}

proof fn lemma_text_lt_irreflexive(a: Seq<char>)
    ensures
        !text_lt(a, a),
{
    lemma_text_lt_asym(a, a);
}

proof fn lemma_text_total(a: Seq<char>, b: Seq<char>)
    ensures
        a == b || text_lt(a, b) || text_lt(b, a),
    decreases a.len(),
{
    if a.len() > 0 && b.len() > 0 && a[0] == b[0] {
        lemma_text_total(a.drop_first(), b.drop_first());
        if a.drop_first() == b.drop_first() {
            assert(a =~= seq![a[0]] + a.drop_first());
            assert(b =~= seq![b[0]] + b.drop_first());
        }
    } else if a.len() == 0 && b.len() == 0 {
        assert(a =~= b);
    } else if a.len() > 0 && b.len() > 0 {
        let ua = a[0] as u32;
        let ub = b[0] as u32;
        vstd::utf8::char_u32_cast(a[0], ua);
        vstd::utf8::char_u32_cast(b[0], ub);
        assert(ua != ub);
    }
}

proof fn lemma_text_lt_trans(a: Seq<char>, b: Seq<char>, c: Seq<char>)
    requires
        text_lt(a, b),
        text_lt(b, c),
    ensures
        text_lt(a, c),
    decreases a.len(),
{
    if a.len() > 0 && b.len() > 0 && c.len() > 0 && a[0] == b[0] && b[0] == c[0] {
        lemma_text_lt_trans(a.drop_first(), b.drop_first(), c.drop_first());
    }
}

/// A quiet window and the window that runs from its end back to its start share no time of
/// day and together cover all of it: every clock time falls in exactly one of them (for a
/// window whose start and end differ).
pub proof fn lemma_dnd_windows_split_the_day(now: Seq<char>, start: Seq<char>, end: Seq<char>)
    requires
        start != end,
    ensures
        within_dnd(now, start, end) != within_dnd(now, end, start),
{
    lemma_text_total(start, end);
    lemma_text_total(start, now);
    lemma_text_total(end, now);
    lemma_text_lt_asym(start, end);
    lemma_text_lt_asym(start, now);
    lemma_text_lt_asym(end, now);
    lemma_text_lt_irreflexive(now);
    if text_lt(start, end) {
        if text_lt(start, now) && text_lt(now, end) {
            lemma_text_lt_trans(start, now, end);
        }
        if text_lt(end, now) {
            lemma_text_lt_trans(start, end, now);
        }
        if text_lt(now, start) {
            lemma_text_lt_trans(now, start, end);
        }
    } else {
        if text_lt(end, now) && text_lt(now, start) {
            lemma_text_lt_trans(end, now, start);
        }
        if text_lt(start, now) {
            lemma_text_lt_trans(end, start, now);
        }
        if text_lt(now, end) {
            lemma_text_lt_trans(now, end, start);
        }
    }
}

/// Checks whether `now` (HH:MM) falls within a DND window; handles overnight windows like 21:00-07:00.
pub fn is_within_dnd(now: &str, start: &str, end: &str) -> (r: bool)
    ensures
        r == within_dnd(now@, start@, end@),
{
    let n = chars_of(now);
    let s = chars_of(start);
    let e = chars_of(end);
    let start_le_end = same_chars(&s, &e) || chars_lt(&s, &e);
    let start_le_now = same_chars(&s, &n) || chars_lt(&s, &n);
    let now_lt_end = chars_lt(&n, &e);
    if start_le_end {
        start_le_now && now_lt_end
    } else {
        start_le_now || now_lt_end
    }
}

// ── Time zones ──

/// ASCII lowercase of one character.
pub open spec fn ascii_lower(c: char) -> char {
    if 'A' <= c && c <= 'Z' {
        ((c as u32) + 32) as char
    } else {
        c
    }
}

/// `str::eq_ignore_ascii_case`.
pub open spec fn eq_ignore_ascii_case(a: Seq<char>, b: Seq<char>) -> bool {
    a.len() == b.len() && forall|i: int| 0 <= i < a.len() ==> ascii_lower(#[trigger] a[i]) == ascii_lower(b[i])
}

fn ascii_lower_exec(c: char) -> (r: char)
    ensures
        r == ascii_lower(c),
{
    if 'A' <= c && c <= 'Z' {
        let u = c as u32 + 32;
        assert(0x61 <= u <= 0x7a);
        char_from_ascii_u32(u)
    } else {
        c
    }
}

/// The character with code `u`, an ASCII letter.
fn char_from_ascii_u32(u: u32) -> (c: char)
    requires
        0x41 <= u <= 0x7a,
    ensures
        c as u32 == u,
        c == u as char,
{
    let b = u as u8;
    let c = b as char;
    c
}

fn eq_ignore_ascii_case_exec(a: &Vec<char>, b: &Vec<char>) -> (r: bool)
    ensures
        r == eq_ignore_ascii_case(a@, b@),
{
    if a.len() != b.len() {
        return false;
    }
    let mut i: usize = 0;
    while i < a.len()
        invariant
            i <= a@.len() == b@.len(),
            forall|j: int| 0 <= j < i ==> ascii_lower(#[trigger] a@[j]) == ascii_lower(b@[j]),
        decreases a@.len() - i,
    {
        if ascii_lower_exec(a[i]) != ascii_lower_exec(b[i]) {
            return false;
        }
        i += 1;
    }
    true
}

/// What `str::parse::<i32>` accepts and returns: an optional sign, then one or more decimal
/// digits, with the value in `i32` range.
pub open spec fn parse_i32_spec(s: Seq<char>) -> Option<i32> {
    let neg = s.len() > 0 && s[0] == '-';
    let body = if s.len() > 0 && (s[0] == '+' || s[0] == '-') { s.drop_first() } else { s };
    if body.len() > 0 && crate::codec::all_digits(body) {
        let v = if neg { -crate::codec::digits_value(body) } else { crate::codec::digits_value(body) };
        if i32::MIN <= v && v <= i32::MAX {
            Some(v as i32)
        } else {
            None
        }
    } else {
        None
    }
}

/// `str::parse::<i32>`.
pub fn parse_i32(s: &Vec<char>) -> (r: Option<i32>)
    ensures
        r == parse_i32_spec(s@),
{
    let neg = s.len() > 0 && s[0] == '-';
    let start: usize = if s.len() > 0 && (s[0] == '+' || s[0] == '-') { 1 } else { 0 };
    let body = crate::text::sub_chars(s, start, s.len());
    let ghost gbody = if s@.len() > 0 && (s@[0] == '+' || s@[0] == '-') { s@.drop_first() } else { s@ };
    assert(body@ =~= gbody);
    if body.len() == 0 {
        return None;
    }
    // Digits only: the magnitude must then fit in a u64 to fit in an i32 at all.
    match crate::codec::parse_u64(body.as_slice()) {
        None => {
            proof {
                if body@.len() > 0 && crate::codec::all_digits(body@) {
                    assert(body@[0] != '+');
                    assert(crate::codec::digits_value(body@) > u64::MAX);
                }
            }
            None
        },
        Some(mag) => {
            proof {
                assert(body@[0] != '+' || !crate::codec::all_digits(body@)) by {
                    if crate::codec::all_digits(body@) {
                        assert(crate::codec::is_digit(body@[0]));
                    }
                };
            }
            if body[0] == '+' {
                proof { assert(!crate::codec::is_digit(body@[0])); }
                return None;
            }
            proof {
                if crate::codec::all_digits(body@) {
                    crate::codec::lemma_digits_value_nonneg(body@);
                }
            }
            assert(crate::codec::all_digits(body@) && crate::codec::digits_value(body@) == mag);
            assert(neg == (s@.len() > 0 && s@[0] == '-'));
            if neg {
                if mag <= 2147483648 {
                    Some((0 - (mag as i64)) as i32)
                } else {
                    None
                }
            } else {
                if mag <= 2147483647 {
                    Some(mag as i32)
                } else {
                    None
                }
            }
        },
    }
}

/// The `+HH:MM` / `-HH:MM` form of a trimmed time zone: sign, hours and minutes as parsed.
pub open spec fn offset_parts(t: Seq<char>) -> Option<(int, i32, i32)> {
    if t.len() > 0 && (t[0] == '+' || t[0] == '-') {
        let sign: int = if t[0] == '-' { -1 } else { 1 };
        let parts = split_on(t.drop_first(), ':');
        if parts.len() == 2 {
            match (parse_i32_spec(parts[0]), parse_i32_spec(parts[1])) {
                (Some(h), Some(m)) => Some((sign, h, m)),
                _ => None,
            }
        } else {
            None
        }
    } else {
        None
    }
}

/// Whether the time zone text names UTC outright: `UTC` or `GMT` in any ASCII case, or nothing.
pub open spec fn names_utc(t: Seq<char>) -> bool {
    eq_ignore_ascii_case(t, "UTC"@) || eq_ignore_ascii_case(t, "GMT"@) || t.len() == 0
}

/// Where the `i32` arithmetic `sign * (h * 3600 + m * 60)` would overflow (a panic in
/// checked builds); such zones are outside what `utc_offset_secs` accepts.
pub open spec fn offset_overflows(tz: Seq<char>) -> bool {
    let t = trim(tz);
    !names_utc(t) && match offset_parts(t) {
        None => false,
        Some((sign, h, m)) => {
            let a = h * 3600;
            let b = m * 60;
            let c = a + b;
            !(i32::MIN <= a <= i32::MAX && i32::MIN <= b <= i32::MAX && i32::MIN <= c <= i32::MAX
                && i32::MIN <= sign * c <= i32::MAX)
        },
    }
}

/// The offset from UTC, in seconds, that a time zone text stands for: `UTC`, `GMT` or empty
/// give 0; `+HH:MM` / `-HH:MM` give the signed total when strictly within a day; anything
/// else falls back to UTC.
pub open spec fn utc_offset_spec(tz: Seq<char>) -> int {
    let t = trim(tz);
    if names_utc(t) {
        0
    } else {
        match offset_parts(t) {
            None => 0,
            Some((sign, h, m)) => {
                let total = sign * (h * 3600 + m * 60);
                if -86400 < total && total < 86400 { total } else { 0 }
            },
        }
    }
}

/// A time zone text that starts with a sign is not one of the names of UTC.
proof fn lemma_signed_not_utc(t: Seq<char>)
    requires
        t.len() > 0,
        t[0] == '+' || t[0] == '-',
    ensures
        !names_utc(t),
{
    reveal_strlit("UTC");
    reveal_strlit("GMT");
    if eq_ignore_ascii_case(t, "UTC"@) {
        assert(ascii_lower(t[0]) == ascii_lower("UTC"@[0]));
    }
    if eq_ignore_ascii_case(t, "GMT"@) {
        assert(ascii_lower(t[0]) == ascii_lower("GMT"@[0]));
    }
}

/// The sign of `+HH:MM` / `-HH:MM` applies to the whole offset, hours and minutes alike:
/// the same text after `-` gives exactly the negation of what it gives after `+` (both 0 where
/// the text is not a valid offset).
pub proof fn law_offset_sign_symmetric(x: Seq<char>)
    requires
        x.len() > 0 ==> !crate::text::is_ws(x.last()),
    ensures
        utc_offset_spec(seq!['-'] + x) == -utc_offset_spec(seq!['+'] + x),
{
    let p = seq!['+'] + x;
    let n = seq!['-'] + x;
    assert(p.last() == (if x.len() > 0 { x.last() } else { '+' }));
    assert(n.last() == (if x.len() > 0 { x.last() } else { '-' }));
    crate::text::lemma_trim_noop(p);
    crate::text::lemma_trim_noop(n);
    lemma_signed_not_utc(p);
    lemma_signed_not_utc(n);
    assert(p.drop_first() =~= x);
    assert(n.drop_first() =~= x);
    assert(trim(p) == p);
    assert(trim(n) == n);
    assert(p[0] == '+');
    assert(n[0] == '-');
    let parts = split_on(x, ':');
    match (offset_parts(p), offset_parts(n)) {
        (Some((sp, hp, mp)), Some((sn, hn, mn))) => {
            assert(sp == 1 && sn == -1);
            assert(hp == hn && mp == mn);
        },
        (None, None) => {},
        _ => { assert(false); },
    }
}

/// `+HH:MM` with two-digit hours and minutes is `HH` hours and `MM` minutes east of UTC, and
/// `-HH:MM` as many west, whenever that is less than a day; a day or more falls back to UTC.
pub proof fn law_offset_hours_minutes(d1: char, d2: char, d3: char, d4: char)
    requires
        crate::codec::is_digit(d1),
        crate::codec::is_digit(d2),
        crate::codec::is_digit(d3),
        crate::codec::is_digit(d4),
    ensures
        ({
            let h = 10 * crate::codec::digit_value(d1) + crate::codec::digit_value(d2);
            let m = 10 * crate::codec::digit_value(d3) + crate::codec::digit_value(d4);
            let total = h * 3600 + m * 60;
            &&& utc_offset_spec(seq!['+', d1, d2, ':', d3, d4]) == (if total < 86400 { total } else { 0 })
            &&& utc_offset_spec(seq!['-', d1, d2, ':', d3, d4]) == (if total < 86400 { -total } else { 0 })
        }),
{
    let body = seq![d1, d2, ':', d3, d4];
    let p = seq!['+'] + body;
    assert(p =~= seq!['+', d1, d2, ':', d3, d4]);
    assert(seq!['-'] + body =~= seq!['-', d1, d2, ':', d3, d4]);
    law_offset_sign_symmetric(body);
    crate::text::lemma_trim_noop(p);
    lemma_signed_not_utc(p);
    assert(p.drop_first() =~= body);
    reveal_with_fuel(crate::text::split_scan, 6);
    assert(body.drop_last() =~= seq![d1, d2, ':', d3]);
    assert(body.drop_last().drop_last() =~= seq![d1, d2, ':']);
    assert(body.drop_last().drop_last().drop_last() =~= seq![d1, d2]);
    assert(seq![d1, d2].drop_last() =~= seq![d1]);
    assert(seq![d1].drop_last() =~= Seq::<char>::empty());
    let hh = seq![d1, d2];
    let mm = seq![d3, d4];
    assert(d1 != ':' && d2 != ':' && d3 != ':' && d4 != ':');
    let e = Seq::<char>::empty();
    assert(crate::text::split_scan(seq![d1], ':') == (Seq::<Seq<char>>::empty(), e.push(d1)));
    assert(e.push(d1) =~= seq![d1]);
    assert(crate::text::split_scan(seq![d1, d2], ':') == (Seq::<Seq<char>>::empty(), seq![d1].push(d2)));
    assert(seq![d1].push(d2) =~= hh);
    assert(crate::text::split_scan(seq![d1, d2, ':'], ':') == (Seq::<Seq<char>>::empty().push(hh), e));
    assert(crate::text::split_scan(seq![d1, d2, ':', d3], ':') == (Seq::<Seq<char>>::empty().push(hh), e.push(d3)));
    assert(e.push(d3) =~= seq![d3]);
    assert(crate::text::split_scan(body, ':') == (Seq::<Seq<char>>::empty().push(hh), seq![d3].push(d4)));
    assert(seq![d3].push(d4) =~= mm);
    assert(split_on(body, ':') =~= seq![hh, mm]);
    reveal_with_fuel(crate::codec::digits_value, 3);
    assert(hh.drop_last() =~= seq![d1]);
    assert(mm.drop_last() =~= seq![d3]);
    assert(seq![d1].drop_last() =~= Seq::<char>::empty());
    assert(seq![d3].drop_last() =~= Seq::<char>::empty());
    assert(crate::codec::all_digits(hh));
    assert(crate::codec::all_digits(mm));
    assert(crate::codec::digits_value(hh) == 10 * crate::codec::digit_value(d1) + crate::codec::digit_value(d2));
    assert(crate::codec::digits_value(mm) == 10 * crate::codec::digit_value(d3) + crate::codec::digit_value(d4));
    let h = 10 * crate::codec::digit_value(d1) + crate::codec::digit_value(d2);
    let m = 10 * crate::codec::digit_value(d3) + crate::codec::digit_value(d4);
    assert(0 <= h <= 99 && 0 <= m <= 99);
    assert(hh[0] != '+' && hh[0] != '-' && mm[0] != '+' && mm[0] != '-');
    assert(parse_i32_spec(hh) == Some(h as i32));
    assert(parse_i32_spec(mm) == Some(m as i32));
    assert(offset_parts(p) == Some((1int, h as i32, m as i32)));
    assert(trim(p) == p);
    assert(!names_utc(p));
}

/// Whether `chrono::FixedOffset::east_opt` accepts an offset: exactly those strictly between
/// minus and plus one day.
fn fixed_offset_accepts(secs: i32) -> (res: bool)
    ensures
        res == (-86400 < secs && secs < 86400),
{
    -86400 < secs && secs < 86400
}

/// Whether `utc_offset_secs` accepts a time zone text: its `+HH:MM` arithmetic stays within
/// `i32`.
pub fn offset_in_range(tz: &str) -> (r: bool)
    ensures
        r == !offset_overflows(tz@),
{
    let all = chars_of(tz);
    let t = trim_chars(&all);
    let utc = chars_of("UTC");
    let gmt = chars_of("GMT");
    if eq_ignore_ascii_case_exec(&t, &utc) || eq_ignore_ascii_case_exec(&t, &gmt) || t.len() == 0 {
        return true;
    }
    if !(t[0] == '+' || t[0] == '-') {
        return true;
    }
    let sign: i64 = if t[0] == '-' { -1 } else { 1 };
    let rest = crate::text::sub_chars(&t, 1, t.len());
    assert(rest@ =~= t@.drop_first());
    let parts = split_chars(&rest, ':');
    if parts.len() != 2 {
        return true;
    }
    assert(parts@[0]@ == split_on(t@.drop_first(), ':')[0]);
    assert(parts@[1]@ == split_on(t@.drop_first(), ':')[1]);
    let h = match parse_i32(&parts[0]) {
        None => return true,
        Some(h) => h,
    };
    let m = match parse_i32(&parts[1]) {
        None => return true,
        Some(m) => m,
    };
    let a: i64 = (h as i64) * 3600;
    let b: i64 = (m as i64) * 60;
    let c: i64 = a + b;
    let lo: i64 = -2147483648;
    let hi: i64 = 2147483647;
    lo <= a && a <= hi && lo <= b && b <= hi && lo <= c && c <= hi && lo <= sign * c && sign * c <= hi
}

/// Parses a time zone string into seconds east of UTC. Supports "UTC", "GMT", "+HH:MM" and
/// "-HH:MM"; unknown strings fall back to UTC (0).
pub fn utc_offset_secs(tz: &str) -> (r: i32)
    requires
        !offset_overflows(tz@),
    ensures
        r == utc_offset_spec(tz@),
        -86400 < r < 86400,
{
    let all = chars_of(tz);
    let t = trim_chars(&all);
    let utc = chars_of("UTC");
    let gmt = chars_of("GMT");
    if eq_ignore_ascii_case_exec(&t, &utc) || eq_ignore_ascii_case_exec(&t, &gmt) || t.len() == 0 {
        return 0;
    }
    if !(t[0] == '+' || t[0] == '-') {
        return 0;
    }
    let sign: i32 = if t[0] == '-' { -1 } else { 1 };
    let rest = crate::text::sub_chars(&t, 1, t.len());
    assert(rest@ =~= t@.drop_first());
    let parts = split_chars(&rest, ':');
    if parts.len() != 2 {
        return 0;
    }
    assert(parts@[0]@ == split_on(t@.drop_first(), ':')[0]);
    assert(parts@[1]@ == split_on(t@.drop_first(), ':')[1]);
    let h = match parse_i32(&parts[0]) {
        None => return 0,
        Some(h) => h,
    };
    let m = match parse_i32(&parts[1]) {
        None => return 0,
        Some(m) => m,
    };
    let total = sign * (h * 3600 + m * 60);
    if fixed_offset_accepts(total) {
        total
    } else {
        0
    }
}

// ── Local clock time ──

/// Two-digit zero-padded decimal of `n` in `0..100`.
pub open spec fn two_digits(n: int) -> Seq<char> {
    seq![crate::codec::digit_char(n / 10), crate::codec::digit_char(n % 10)]
}

/// `HH:MM` of the instant `utc_ts` (Unix seconds) seen at `offset` seconds east of UTC.
pub open spec fn local_hhmm_spec(utc_ts: int, offset: int) -> Seq<char> {
    let secs = (utc_ts + offset) % 86400;
    two_digits(secs / 3600) + seq![':'] + two_digits((secs % 3600) / 60)
}

pub(crate) fn digit_exec(d: u32) -> (c: char)
    requires
        d < 10,
    ensures
        c == crate::codec::digit_char(d as int),
{
    if d == 0 { '0' } else if d == 1 { '1' } else if d == 2 { '2' } else if d == 3 { '3' }
    else if d == 4 { '4' } else if d == 5 { '5' } else if d == 6 { '6' } else if d == 7 { '7' }
    else if d == 8 { '8' } else { '9' }
}

/// The local wall-clock `HH:MM` of Unix second `utc_ts` at a fixed offset of less than a day.
pub fn local_hhmm(utc_ts: i64, offset: i32) -> (r: String)
    requires
        -86400 < offset < 86400,
    ensures
        r@ == local_hhmm_spec(utc_ts as int, offset as int),
{
    let day: i64 = match utc_ts.checked_rem_euclid(86400) {
        Some(d) => d,
        None => 0,
    };
    assert(day == (utc_ts as int) % 86400);
    let shifted = day + offset as i64 + 86400;
    let secs = (shifted % 86400) as u32;
    proof {
        lemma_shift_mod(utc_ts as int, offset as int, day as int);
    }
    let h = secs / 3600;
    let m = (secs % 3600) / 60;
    let mut v: Vec<char> = Vec::new();
    v.push(digit_exec(h / 10));
    v.push(digit_exec(h % 10));
    v.push(':');
    v.push(digit_exec(m / 10));
    v.push(digit_exec(m % 10));
    string_of(v.as_slice())
}

proof fn lemma_shift_mod(ts: int, off: int, day: int)
    requires
        day == ts % 86400,
    ensures
        (day + off + 86400) % 86400 == (ts + off) % 86400,
{
    let q = ts / 86400;
    assert(ts == 86400 * q + day) by (nonlinear_arith) requires day == ts % 86400, q == ts / 86400;
    assert(ts + off == (day + off + 86400) + 86400 * (q - 1)) by (nonlinear_arith)
        requires ts == 86400 * q + day;
    vstd::arithmetic::div_mod::lemma_mod_multiples_vanish(q - 1, day + off + 86400, 86400);
    assert((86400 * (q - 1) + (day + off + 86400)) % 86400 == (day + off + 86400) % 86400);
}

/// Whether a notification for a user with DND window `start`..`end` in time zone `tz`
/// is deferred at Unix second `utc_ts`.
pub open spec fn deferred_at_spec(start: Seq<char>, end: Seq<char>, tz: Seq<char>, utc_ts: int) -> bool {
    within_dnd(local_hhmm_spec(utc_ts, utc_offset_spec(tz)), start, end)
}

/// Decides deferral of a notification at a given instant.
pub fn notification_deferred_at(start: &str, end: &str, tz: &str, utc_ts: i64) -> (r: bool)
    requires
        !offset_overflows(tz@),
    ensures
        r == deferred_at_spec(start@, end@, tz@, utc_ts as int),
{
    let off = utc_offset_secs(tz);
    let now = local_hhmm(utc_ts, off);
    is_within_dnd(now.as_str(), start, end)
}

/// Decides deferral of a notification now: a user with no DND settings is never deferred.
/// "Now" is the system clock's Unix second, read without panicking (a clock set before the
/// epoch reads as second 0), so the decision is the one made at some instant from 1970 on.
pub fn notification_deferred(dnd: Option<(String, String, String)>) -> (r: bool)
    requires
        dnd matches Some(d) ==> !offset_overflows(d.2@),
    ensures
        dnd is None ==> !r,
        dnd matches Some(d) ==> exists|ts: i64| 0 <= ts && r == deferred_at_spec(d.0@, d.1@, d.2@, ts as int),
{
    match dnd {
        None => false,
        Some((start, end, tz)) => {
            let secs = crate::auth::now_unix_secs();
            let ts = secs as i64;
            notification_deferred_at(start.as_str(), end.as_str(), tz.as_str(), ts)
        },
    }
}


/// The notification that tells a subscriber about a new spending update: its title names the
/// update, its body the author.
pub fn update_notice(update_title: &str, author_name: &str) -> (r: (String, String))
    ensures
        r.0@ == "New update: "@ + update_title@,
        r.1@ == author_name@ + " posted an update on a project you follow"@,
{
    let title = crate::text::concat("New update: ", update_title);
    let body = crate::text::concat(author_name, " posted an update on a project you follow");
    (title, body)
}

} // verus!
