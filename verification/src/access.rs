//! Request gatekeeping: bearer tokens, rate-limit keys, nonces, roles and project ownership.
use vstd::prelude::*;
use crate::enums::Role;
use crate::types::UserProfile;
use crate::text::{chars_of, string_of, trim, trim_chars, split_on, split_chars, extend_chars, chars_eq, sub_chars};

verus! {

/// HTTP status codes the gatekeeping decisions produce.
pub const STATUS_BAD_REQUEST: u16 = 400;
pub const STATUS_UNAUTHORIZED: u16 = 401;
pub const STATUS_FORBIDDEN: u16 = 403;
pub const STATUS_NOT_FOUND: u16 = 404;
pub const STATUS_CONFLICT: u16 = 409;
pub const STATUS_PRECONDITION_REQUIRED: u16 = 428;
pub const STATUS_TOO_MANY_REQUESTS: u16 = 429;
pub const STATUS_INTERNAL_ERROR: u16 = 500;

/// A refused request: the HTTP status and the error text sent back to the client.
#[derive(Clone, Debug)]
pub struct Refusal {
    pub status: u16,
    pub error: String,
}

/// Whether `r` refuses with `status` and error text `msg`.
pub open spec fn refuses(r: Refusal, status: u16, msg: Seq<char>) -> bool {
    r.status == status && r.error@ == msg
}

/// Whether a result is a refusal with `status` and error text `msg`.
pub open spec fn refused_with<T>(r: Result<T, Refusal>, status: u16, msg: Seq<char>) -> bool {
    r matches Err(e) && refuses(e, status, msg)
}

/// A refusal with a fixed message.
pub fn refusal(status: u16, msg: &str) -> (r: Refusal)
    ensures
        refuses(r, status, msg@),
{
    Refusal { status, error: String::from_str(msg) }
}

/// A refusal with a composed message.
pub fn refusal_of(status: u16, msg: Vec<char>) -> (r: Refusal)
    ensures
        refuses(r, status, msg@),
{
    Refusal { status, error: string_of(msg.as_slice()) }
}

/// An update that must change a record: refused with 404 and `msg` when it changed none.
pub fn require_found(rows: usize, msg: &str) -> (r: Result<(), Refusal>)
    ensures
        r is Ok <==> rows > 0,
        rows == 0 ==> refused_with(r, 404, msg@),
{
    if rows == 0 {
        Err(refusal(404, msg))
    } else {
        Ok(())
    }
}

/// Authenticated user info carried with a request.
#[derive(Clone, Debug)]
pub struct AuthUser {
    pub user_id: String,
}

// ── Authorization header ──

/// `str::trim_start_matches(p)`: `s` with every leading copy of a non-empty `p` removed.
pub open spec fn strip_leading(s: Seq<char>, p: Seq<char>) -> Seq<char>
    decreases s.len(),
{
    if p.len() > 0 && p.len() <= s.len() && s.take(p.len() as int) == p {
        strip_leading(s.skip(p.len() as int), p)
    } else {
        s
    }
}

/// The token part of an `Authorization` header value: every leading `"Bearer "` is removed.
pub fn bearer_token(header: &str) -> (r: String)
    ensures
        r@ == strip_leading(header@, "Bearer "@),
{
    let v = chars_of(header);
    let p = chars_of("Bearer ");
    proof { reveal_strlit("Bearer "); }
    let mut start: usize = 0;
    let n = v.len();
    assert(v@.skip(0) =~= v@);
    while n >= 7 && start <= n - 7 && chars_eq(&sub_chars(&v, start, start + 7), &p)
        invariant
            start <= n == v@.len(),
            p@ == "Bearer "@,
            p@.len() == 7,
            strip_leading(v@, p@) == strip_leading(v@.skip(start as int), p@),
        decreases n - start,
    {
        let ghost rest = v@.skip(start as int);
        assert(rest.take(7) =~= v@.subrange(start as int, start + 7));
        assert(rest.skip(7) =~= v@.skip(start + 7));
        start += 7;
    }
    proof {
        let rest = v@.skip(start as int);
        if n >= 7 && start <= n - 7 {
            assert(rest.take(7) =~= v@.subrange(start as int, start + 7));
        }
    }
    let out = sub_chars(&v, start, n);
    assert(out@ =~= v@.skip(start as int));
    string_of(out.as_slice())
}

// ── Rate-limit keys ──

/// The rate-limit bucket key for a request: the `Authorization` value when present; otherwise
/// `anon:` and the client address, the first entry of `X-Forwarded-For` (trimmed), else
/// `X-Real-IP`, else `unknown`.
pub open spec fn rate_limit_key_spec(authorization: Option<Seq<char>>, forwarded_for: Option<Seq<char>>, real_ip: Option<Seq<char>>) -> Seq<char> {
    match authorization {
        Some(a) => a,
        None => {
            let ip = match forwarded_for {
                Some(f) => trim(split_on(f, ',')[0]),
                None => match real_ip {
                    Some(r) => r,
                    None => "unknown"@,
                },
            };
            "anon:"@ + ip
        },
    }
}

pub open spec fn opt_str(o: Option<&str>) -> Option<Seq<char>> {
    match o {
        Some(s) => Some(s@),
        None => None,
    }
}

/// Builds the rate-limit key from the relevant request headers (each given when present and
/// valid text).
pub fn rate_limit_key(authorization: Option<&str>, forwarded_for: Option<&str>, real_ip: Option<&str>) -> (r: String)
    ensures
        r@ == rate_limit_key_spec(opt_str(authorization), opt_str(forwarded_for), opt_str(real_ip)),
{
    match authorization {
        Some(a) => string_of(chars_of(a).as_slice()),
        None => {
            let ip: Vec<char> = match forwarded_for {
                Some(f) => {
                    let fv = chars_of(f);
                    let pieces = split_chars(&fv, ',');
                    assert(split_on(fv@, ',').len() >= 1);
                    assert(pieces@.map_values(|p: Vec<char>| p@).len() == pieces@.len());
                    assert(pieces@.len() >= 1);
                    assert(pieces@.map_values(|p: Vec<char>| p@)[0] == pieces@[0]@);
                    trim_chars(&pieces[0])
                },
                None => match real_ip {
                    Some(r) => chars_of(r),
                    None => chars_of("unknown"),
                },
            };
            let mut out = chars_of("anon:");
            extend_chars(&mut out, &ip);
            string_of(out.as_slice())
        },
    }
}

// ── Nonces ──

/// What the nonce gate does with a request before any handler runs.
#[derive(Debug, Clone, Copy, PartialEq, Eq, Structural)]
pub enum NonceCheck {
    /// Safe methods (GET, OPTIONS) pass without a nonce.
    Pass,
    /// A mutating request without a nonce is refused with 400.
    Missing,
    /// A mutating request's nonce must be consumed; it passes only if that succeeds.
    Consume,
}

/// Decides how a request is treated by the replay protection.
pub fn nonce_check(method_is_safe: bool, has_nonce: bool) -> (r: NonceCheck)
    ensures
        method_is_safe ==> r == NonceCheck::Pass,
        !method_is_safe && !has_nonce ==> r == NonceCheck::Missing,
        !method_is_safe && has_nonce ==> r == NonceCheck::Consume,
{
    if method_is_safe {
        NonceCheck::Pass
    } else if has_nonce {
        NonceCheck::Consume
    } else {
        NonceCheck::Missing
    }
}

/// The status a mutating request ends with after its nonce was looked up: none when the
/// nonce was fresh (the request proceeds), 409 when it was unknown, used or expired.
pub fn nonce_outcome(consumed: bool) -> (r: Option<u16>)
    ensures
        consumed ==> r is None,
        !consumed ==> r == Some(STATUS_CONFLICT),
{
    if consumed { None } else { Some(STATUS_CONFLICT) }
}

// ── Roles and ownership ──

/// Whether `role` is among `allowed`.
pub fn role_allowed(role: Role, allowed: &[Role]) -> (r: bool)
    ensures
        r == allowed@.contains(role),
{
    let mut i: usize = 0;
    while i < allowed.len()
        invariant
            i <= allowed@.len(),
            forall|j: int| 0 <= j < i ==> allowed@[j] != role,
        decreases allowed@.len() - i,
    {
        if allowed[i] == role {
            assert(allowed@[i as int] == role);
            return true;
        }
        i += 1;
    }
    false
}

/// Role gate: an unknown user is 401, a user whose role is not allowed is 403.
pub fn role_check(user: Option<UserProfile>, allowed: &[Role]) -> (r: Result<UserProfile, u16>)
    ensures
        match user {
            None => r == Err::<UserProfile, u16>(STATUS_UNAUTHORIZED),
            Some(u) => if allowed@.contains(u.role) {
                r matches Ok(v) && v == u
            } else {
                r == Err::<UserProfile, u16>(STATUS_FORBIDDEN)
            },
        },
{
    match user {
        None => Err(STATUS_UNAUTHORIZED),
        Some(u) => {
            if role_allowed(u.role, allowed) {
                Ok(u)
            } else {
                Err(STATUS_FORBIDDEN)
            }
        },
    }
}

/// Ownership gate for a project: an unknown user is 401; administrators always pass; otherwise
/// a missing project is 404 and only its manager passes (403 for anyone else).
pub open spec fn owner_check_spec(user_role: Option<Role>, user_id: Seq<char>, manager_id: Option<Seq<char>>) -> Result<(), u16> {
    match user_role {
        None => Err(STATUS_UNAUTHORIZED),
        Some(Role::Administrator) => Ok(()),
        Some(_) => match manager_id {
            None => Err(STATUS_NOT_FOUND),
            Some(m) => if m == user_id { Ok(()) } else { Err(STATUS_FORBIDDEN) },
        },
    }
}

/// Decides whether the user may act on a project as its owner.
pub fn project_owner_check(user_role: Option<Role>, user_id: &str, manager_id: Option<&str>) -> (r: Result<(), u16>)
    ensures
        r == owner_check_spec(user_role, user_id@, opt_str(manager_id)),
{
    match user_role {
        None => Err(STATUS_UNAUTHORIZED),
        Some(Role::Administrator) => Ok(()),
        Some(_) => match manager_id {
            None => Err(STATUS_NOT_FOUND),
            Some(m) => {
                if crate::text::str_eq(m, user_id) { Ok(()) } else { Err(STATUS_FORBIDDEN) }
            },
        },
    }
}

/// Whether a role sees every project's staff data (tickets, expenses, receipts) without
/// owning the project: administrators and the finance role.
pub fn sees_all_projects(role: Role) -> (r: bool)
    ensures
        r == (role == Role::Administrator || role == Role::FinanceReviewer),
{
    role == Role::Administrator || role == Role::FinanceReviewer
}

/// Access to a project's staff data: administrators and the finance role always, anyone
/// else only as the project's owner.
pub fn staff_data_check(user_role: Option<Role>, user_id: &str, manager_id: Option<&str>) -> (r: Result<(), u16>)
    ensures
        match user_role {
            None => r == Err::<(), u16>(STATUS_UNAUTHORIZED),
            Some(role) => if role == Role::Administrator || role == Role::FinanceReviewer {
                r is Ok
            } else {
                r == owner_check_spec(user_role, user_id@, opt_str(manager_id))
            },
        },
{
    match user_role {
        None => Err(STATUS_UNAUTHORIZED),
        Some(role) => {
            if sees_all_projects(role) {
                Ok(())
            } else {
                project_owner_check(user_role, user_id, manager_id)
            }
        },
    }
}

/// Only the owner of a project and administrators pass the ownership gate.
pub proof fn lemma_owner_check_grants(user_role: Option<Role>, user_id: Seq<char>, manager_id: Option<Seq<char>>)
    ensures
        owner_check_spec(user_role, user_id, manager_id) is Ok <==>
            (user_role == Some(Role::Administrator) || (user_role is Some && manager_id == Some(user_id))),
{
}

} // verus!
