//! Accounts: registration rules, login, password re-entry and the two-step confirmation that
//! guards sensitive actions.
use vstd::prelude::*;
use vstd::utf8::encode_utf8;
use crate::enums::{Role, role_from_name};
use crate::access::{Refusal, refusal, refusal_of, refuses, refused_with};
use crate::auth::{argon2_verifies, verify_password};
use crate::text::{chars_of, string_of, first_index, lemma_first_index, find_char, sub_chars, extend_chars};

verus! {

// ── Registration and login ──

/// The error text of a refused registration.
pub open spec fn registration_message() -> Seq<char> {
    "Email required and password must be at least 8 characters"@
}

/// Registration needs a non-empty email and a password of at least 8 bytes (UTF-8).
pub fn check_registration(email: &str, password: &str) -> (r: Result<(), Refusal>)
    ensures
        r is Ok <==> (email@.len() > 0 && encode_utf8(password@).len() >= 8),
        r is Err ==> refused_with(r, 400, registration_message()),
{
    let n = password.as_bytes().len();
    if email.is_empty() || n < 8 {
        return Err(refusal(400, "Email required and password must be at least 8 characters"));
    }
    Ok(())
}

/// A registration is refused when the email already has an account.
pub fn check_email_free(already_registered: bool) -> (r: Result<(), Refusal>)
    ensures
        r is Ok <==> !already_registered,
        already_registered ==> refused_with(r, 409, "Email already registered"@),
{
    if already_registered {
        Err(refusal(409, "Email already registered"))
    } else {
        Ok(())
    }
}

/// The role a self-registration receives: anything but `Administrator` is kept; an
/// administrator must be appointed by another administrator.
pub open spec fn assigned_role_spec(requested: Role) -> Role {
    match requested {
        Role::Administrator => Role::Supporter,
        other => other,
    }
}

/// The role given to a newly registered account.
pub fn assigned_role(requested: Role) -> (r: Role)
    ensures
        r == assigned_role_spec(requested),
        r != Role::Administrator,
{
    match requested {
        Role::Administrator => Role::Supporter,
        other => other,
    }
}

/// The error text of a failed login.
pub open spec fn invalid_credentials() -> Seq<char> {
    "Invalid credentials"@
}

/// Login: the account's stored hash (`None` when no account has the email) must accept the
/// password. Both failures give the same answer, so a client cannot tell them apart.
pub fn authenticate(password: &str, stored_hash: Option<&str>) -> (r: Result<(), Refusal>)
    ensures
        r is Ok <==> (stored_hash matches Some(h) && argon2_verifies(password@, h@)),
        r is Err ==> refused_with(r, 401, invalid_credentials()),
{
    match stored_hash {
        None => Err(refusal(401, "Invalid credentials")),
        Some(h) => {
            if verify_password(password, h) {
                Ok(())
            } else {
                Err(refusal(401, "Invalid credentials"))
            }
        },
    }
}

/// Password re-entry for a sensitive action: the caller's stored hash (`None` when the account
/// is gone) must accept the password given again.
pub fn confirm_password(password: &str, stored_hash: Option<&str>) -> (r: Result<(), Refusal>)
    ensures
        stored_hash is None ==> refused_with(r, 401, "User not found"@),
        stored_hash matches Some(h) && !argon2_verifies(password@, h@) ==> refused_with(r, 401, "Invalid password"@),
        r is Ok <==> (stored_hash matches Some(h) && argon2_verifies(password@, h@)),
{
    match stored_hash {
        None => Err(refusal(401, "User not found")),
        Some(h) => {
            if verify_password(password, h) {
                Ok(())
            } else {
                Err(refusal(401, "Invalid password"))
            }
        },
    }
}

// ── Two-step confirmation ──

/// The next step of a sensitive action whose password was accepted.
#[derive(Clone, Debug)]
pub enum ConfirmationStep {
    /// No token came with the request: issue one and answer 428.
    Issue,
    /// A token came with the request: it must be redeemed before the action runs.
    Redeem(String),
}

/// Guards every sensitive action: the caller's password must match its stored hash, and a
/// one-time token must confirm the request. The action itself may run only after `Redeem`
/// and a successful redemption.
pub fn sensitive_gate(password: &str, stored_hash: Option<&str>, token: Option<String>) -> (r: Result<ConfirmationStep, Refusal>)
    ensures
        stored_hash is None ==> refused_with(r, 401, "User not found"@),
        stored_hash matches Some(h) && !argon2_verifies(password@, h@) ==> refused_with(r, 401, "Invalid password"@),
        (stored_hash matches Some(h) && argon2_verifies(password@, h@)) ==> match token {
            None => r matches Ok(ConfirmationStep::Issue),
            Some(t) => r matches Ok(ConfirmationStep::Redeem(u)) && u@ == t@,
        },
{
    match confirm_password(password, stored_hash) {
        Err(e) => Err(e),
        Ok(()) => match token {
            None => Ok(ConfirmationStep::Issue),
            Some(t) => Ok(ConfirmationStep::Redeem(t)),
        },
    }
}

/// The body of the 428 answer that hands a fresh confirmation token to the client.
pub open spec fn confirmation_body(token: Seq<char>) -> Seq<char> {
    "{\"confirmation_token\":\""@ + token
        + "\",\"message\":\"Confirmation required. Resubmit with this token to execute.\"}"@
}

/// The 428 answer carrying a freshly issued confirmation token.
pub fn confirmation_required(token: &str) -> (r: Refusal)
    ensures
        refuses(r, 428, confirmation_body(token@)),
{
    let mut out = chars_of("{\"confirmation_token\":\"");
    let t = chars_of(token);
    extend_chars(&mut out, &t);
    let tail = chars_of("\",\"message\":\"Confirmation required. Resubmit with this token to execute.\"}");
    extend_chars(&mut out, &tail);
    refusal_of(428, out)
}

/// The error text of a confirmation token that could not be redeemed.
pub open spec fn stale_token_message() -> Seq<char> {
    "Invalid, expired, or already-used confirmation token"@
}

/// The outcome of redeeming a confirmation token: the action runs only if the token was
/// consumed (it matched the caller, the action and the target, and was fresh and unused).
pub fn redemption_outcome(consumed: bool) -> (r: Result<(), Refusal>)
    ensures
        r is Ok <==> consumed,
        !consumed ==> refused_with(r, 409, stale_token_message()),
{
    if consumed {
        Ok(())
    } else {
        Err(refusal(409, "Invalid, expired, or already-used confirmation token"))
    }
}

/// The word a review decision is reported with.
pub fn decision_word(approved: bool) -> (r: &'static str)
    ensures
        r@ == (if approved { "approved"@ } else { "rejected"@ }),
{
    if approved { "approved" } else { "rejected" }
}

/// The action a confirmation token for a refund decision is bound to.
pub fn refund_action_name(approved: bool) -> (r: &'static str)
    ensures
        r@ == (if approved { "approve_refund"@ } else { "reject_refund"@ }),
{
    if approved { "approve_refund" } else { "reject_refund" }
}

/// The role named in a role assignment; an unknown name is refused.
pub fn parse_role_assignment(role: &str) -> (r: Result<Role, Refusal>)
    ensures
        match role_from_name(role@) {
            Some(x) => r == Ok::<Role, Refusal>(x),
            None => refused_with(r, 400, "Invalid role"@),
        },
{
    match Role::from_str(role) {
        Some(x) => Ok(x),
        None => Err(refusal(400, "Invalid role")),
    }
}

/// Bootstrapping the first administrator is allowed only while no administrator exists.
pub fn bootstrap_allowed(administrators: i64) -> (r: Result<(), Refusal>)
    ensures
        r is Ok <==> administrators <= 0,
        administrators > 0 ==> refused_with(r, 409,
            "An administrator already exists. Use the role assignment endpoint instead."@),
{
    if administrators > 0 {
        Err(refusal(409, "An administrator already exists. Use the role assignment endpoint instead."))
    } else {
        Ok(())
    }
}

// ── Email masking ──

/// An email as the operations log shows it: the first character of the local part (`*` when
/// the local part is empty), `***@`, then the domain. Without an `@`, just `***`.
pub open spec fn masked_email(e: Seq<char>) -> Seq<char> {
    match first_index(e, '@') {
        Some(i) => seq![if i > 0 { e[0] } else { '*' }, '*', '*', '*', '@'] + e.subrange(i + 1, e.len() as int),
        None => seq!['*', '*', '*'],
    }
}

/// Masks an email address for logging.
pub fn mask_email(email: &str) -> (r: String)
    ensures
        r@ == masked_email(email@),
{
    let v = chars_of(email);
    proof { lemma_first_index(v@, '@'); }
    match find_char(&v, '@') {
        Some(i) => {
            let mut out: Vec<char> = Vec::new();
            if i > 0 {
                out.push(v[0]);
            } else {
                out.push('*');
            }
            out.push('*');
            out.push('*');
            out.push('*');
            out.push('@');
            let rest = sub_chars(&v, i + 1, v.len());
            extend_chars(&mut out, &rest);
            string_of(out.as_slice())
        },
        None => {
            let out: Vec<char> = vec!['*', '*', '*'];
            string_of(out.as_slice())
        },
    }
}

} // verus!
