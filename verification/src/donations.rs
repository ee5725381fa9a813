//! Donations and refunds: what a pledge must satisfy, pledge numbers, and the reversal records
//! that refunds create.
use vstd::prelude::*;
use crate::enums::{ProjectStatus, PaymentMethod, payment_method_from_name};
use crate::access::{Refusal, refusal, refuses, refused_with};
use crate::codec::{is_hyphenated_uuid, is_lower_hex_char, new_uuid_v4};
use crate::text::{chars_of, string_of, str_eq};

verus! {

// ── Pledges ──

/// The payment method a pledge names; `cash` when it names none.
pub open spec fn method_or_cash(payment_method: Option<&str>) -> Seq<char> {
    match payment_method {
        Some(m) => m@,
        None => "cash"@,
    }
}

/// What a donation request is answered, in the order the checks run:
/// the amount must be positive, the project must exist and be active, the payment method must
/// be one of the known ones, and a named budget line must exist and belong to the project.
/// `budget_line_project` is `None` when the request names no budget line, `Some(None)` when
/// the named line does not exist, and `Some(Some(p))` when it belongs to project `p`.
pub open spec fn donation_outcome(
    amount_cents: i64,
    project_status: Option<ProjectStatus>,
    payment_method: Option<&str>,
    budget_line_project: Option<Option<&str>>,
    project_id: Seq<char>,
) -> Result<PaymentMethod, (u16, Seq<char>)> {
    if amount_cents <= 0 {
        Err((400u16, "Donation amount must be positive"@))
    } else if project_status is None {
        Err((404u16, "Project not found"@))
    } else if project_status != Some(ProjectStatus::Active) {
        Err((400u16, "Project is not accepting donations"@))
    } else {
        match payment_method_from_name(method_or_cash(payment_method)) {
            None => Err((400u16, "Invalid payment method. Use: cash, check, card_terminal"@)),
            Some(m) => budget_line_outcome(m, budget_line_project, project_id),
        }
    }
}

/// The budget-line part of `donation_outcome`, once everything before it passed.
pub open spec fn budget_line_outcome(
    m: PaymentMethod,
    budget_line_project: Option<Option<&str>>,
    project_id: Seq<char>,
) -> Result<PaymentMethod, (u16, Seq<char>)> {
    if budget_line_project == Some(None::<&str>) {
        Err((404u16, "Budget line not found"@))
    } else if budget_line_project matches Some(Some(p)) && p@ != project_id {
        Err((400u16, "Budget line does not belong to this project"@))
    } else {
        Ok(m)
    }
}

/// Whether a result answers as `outcome` says: the same value, or a refusal with the same
/// status and text.
pub open spec fn answers<T>(r: Result<T, Refusal>, outcome: Result<T, (u16, Seq<char>)>) -> bool {
    match outcome {
        Ok(v) => r matches Ok(w) && w == v,
        Err((status, msg)) => refused_with(r, status, msg),
    }
}

/// A donation is accepted only with a positive amount, for an existing project that is
/// active, and with a budget line (when one is named) that belongs to that project; the
/// payment method recorded is the one named, `cash` when none is.
pub proof fn law_donation_acceptance(
    amount_cents: i64,
    project_status: Option<ProjectStatus>,
    payment_method: Option<&str>,
    budget_line_project: Option<Option<&str>>,
    project_id: Seq<char>,
)
    ensures
        donation_outcome(amount_cents, project_status, payment_method, budget_line_project, project_id) matches Ok(m)
            ==> amount_cents > 0
            && project_status == Some(ProjectStatus::Active)
            && (budget_line_project matches Some(bl) ==> (bl matches Some(p) && p@ == project_id))
            && payment_method_from_name(method_or_cash(payment_method)) == Some(m),
{
}

/// A positive donation to a project that exists but is not active (draft, funded, closed or
/// unpublished) is refused with 400, whatever else the request says.
pub proof fn law_inactive_project_refuses(
    amount_cents: i64,
    status: ProjectStatus,
    payment_method: Option<&str>,
    budget_line_project: Option<Option<&str>>,
    project_id: Seq<char>,
)
    requires
        amount_cents > 0,
        status != ProjectStatus::Active,
    ensures
        donation_outcome(amount_cents, Some(status), payment_method, budget_line_project, project_id)
            == Err::<PaymentMethod, (u16, Seq<char>)>((400u16, "Project is not accepting donations"@)),
{
}

/// Checks a donation request; on success gives the payment method to record.
pub fn check_donation(
    amount_cents: i64,
    project_status: Option<ProjectStatus>,
    payment_method: Option<&str>,
    budget_line_project: Option<Option<&str>>,
    project_id: &str,
) -> (r: Result<PaymentMethod, Refusal>)
    ensures
        answers(r, donation_outcome(amount_cents, project_status, payment_method, budget_line_project, project_id@)),
        r is Ok ==> amount_cents > 0 && project_status == Some(ProjectStatus::Active),
        r is Ok ==> (budget_line_project matches Some(bl) ==> (bl matches Some(p) && p@ == project_id@)),
        amount_cents > 0 && project_status is Some && project_status != Some(ProjectStatus::Active)
            ==> refused_with(r, 400, "Project is not accepting donations"@),
{
    if amount_cents <= 0 {
        return Err(refusal(400, "Donation amount must be positive"));
    }
    match project_status {
        None => {
            return Err(refusal(404, "Project not found"));
        },
        Some(ProjectStatus::Active) => {},
        Some(_) => {
            return Err(refusal(400, "Project is not accepting donations"));
        },
    }
    let method_text: &str = match payment_method {
        Some(m) => m,
        None => "cash",
    };
    let method = match PaymentMethod::from_str(method_text) {
        Some(m) => m,
        None => {
            return Err(refusal(400, "Invalid payment method. Use: cash, check, card_terminal"));
        },
    };
    match budget_line_project {
        None => {},
        Some(None) => {
            return Err(refusal(404, "Budget line not found"));
        },
        Some(Some(p)) => {
            if !str_eq(p, project_id) {
                return Err(refusal(400, "Budget line does not belong to this project"));
            }
        },
    }
    Ok(method)
}

/// ASCII uppercase of one character; any other character is left as it is.
pub open spec fn ascii_upper(c: char) -> char {
    if 'a' <= c && c <= 'z' {
        ((c as u32) - 32) as char
    } else {
        c
    }
}

fn ascii_upper_exec(c: char) -> (r: char)
    ensures
        r == ascii_upper(c),
{
    if 'a' <= c && c <= 'z' {
        let u: u32 = (c as u32) - 32;
        let b: u8 = u as u8;
        b as char
    } else {
        c
    }
}

/// A pledge number: `prefix` followed by the first eight characters of `id` in upper case.
pub open spec fn pledge_number_spec(prefix: Seq<char>, id: Seq<char>) -> Seq<char> {
    prefix + id.take(8).map_values(|c: char| ascii_upper(c))
}

/// Builds a pledge number from a record id (`PLG-` for donations, `REF-` for reversals). The
/// first eight characters of the id are ASCII, as in every UUID, so taking them by byte or by
/// character is the same.
pub fn pledge_number(prefix: &str, id: &str) -> (r: String)
    requires
        id@.len() >= 8,
        forall|i: int| 0 <= i < 8 ==> (id@[i] as u32) < 128,
    ensures
        r@ == pledge_number_spec(prefix@, id@),
{
    let mut out = chars_of(prefix);
    let v = chars_of(id);
    let mut i: usize = 0;
    while i < 8
        invariant
            i <= 8 <= v@.len(),
            out@ == prefix@ + v@.take(i as int).map_values(|c: char| ascii_upper(c)),
        decreases 8 - i,
    {
        let u = ascii_upper_exec(v[i]);
        out.push(u);
        assert(v@.take(i + 1).map_values(|c: char| ascii_upper(c))
            == v@.take(i as int).map_values(|c: char| ascii_upper(c)).push(ascii_upper(v@[i as int])));
        i += 1;
    }
    string_of(out.as_slice())
}

/// An uppercase hexadecimal digit.
pub open spec fn is_upper_hex_char(c: char) -> bool {
    ('0' <= c && c <= '9') || ('A' <= c && c <= 'F')
}

/// The pledge number of a record whose id is a UUID is the prefix followed by exactly eight
/// uppercase hexadecimal digits, the first eight digits of the id.
pub proof fn lemma_pledge_number_shape(prefix: Seq<char>, id: Seq<char>)
    requires
        is_hyphenated_uuid(id),
    ensures
        pledge_number_spec(prefix, id).len() == prefix.len() + 8,
        pledge_number_spec(prefix, id).take(prefix.len() as int) == prefix,
        forall|i: int| prefix.len() <= i < prefix.len() + 8 ==> is_upper_hex_char(#[trigger] pledge_number_spec(prefix, id)[i]),
{
    let tail = id.take(8).map_values(|c: char| ascii_upper(c));
    assert(pledge_number_spec(prefix, id).take(prefix.len() as int) =~= prefix);
    assert forall|i: int| prefix.len() <= i < prefix.len() + 8 implies is_upper_hex_char(#[trigger] pledge_number_spec(prefix, id)[i]) by {
        let k = i - prefix.len();
        assert(pledge_number_spec(prefix, id)[i] == tail[k]);
        assert(is_lower_hex_char(id[k]));
    }
}

/// A fresh record id and its pledge number.
pub fn new_pledge(prefix: &str) -> (r: (String, String))
    ensures
        is_hyphenated_uuid(r.0@),
        r.1@ == pledge_number_spec(prefix@, r.0@),
{
    let id = new_uuid_v4();
    let ids: &str = id.as_str();
    proof {
        assert forall|i: int| 0 <= i < 8 implies (ids@[i] as u32) < 128 by {
            assert(is_lower_hex_char(ids@[i]));
        }
    }
    let full = pledge_number(prefix, ids);
    (id, full)
}

/// An expense must name a budget line of its own project: `None` when the line does not
/// exist, `Some(p)` when it belongs to project `p`.
pub fn check_budget_line(budget_line_project: Option<&str>, project_id: &str) -> (r: Result<(), Refusal>)
    ensures
        budget_line_project is None ==> refused_with(r, 404, "Budget line not found"@),
        budget_line_project matches Some(p) && p@ != project_id@ ==> refused_with(r, 400,
            "Budget line does not belong to this project"@),
        r is Ok <==> (budget_line_project matches Some(p) && p@ == project_id@),
{
    match budget_line_project {
        None => Err(refusal(404, "Budget line not found")),
        Some(p) => {
            if str_eq(p, project_id) {
                Ok(())
            } else {
                Err(refusal(400, "Budget line does not belong to this project"))
            }
        },
    }
}

// ── Refunds ──

/// A refund may be requested only for an existing donation, and only by its donor.
pub fn check_refund(original_donor: Option<&str>, caller: &str) -> (r: Result<(), Refusal>)
    ensures
        original_donor is None ==> refused_with(r, 404, "Original donation not found"@),
        original_donor matches Some(d) && d@ != caller@ ==> refused_with(r, 403,
            "Only the original donor can request a refund for this donation"@),
        r is Ok <==> (original_donor matches Some(d) && d@ == caller@),
{
    match original_donor {
        None => Err(refusal(404, "Original donation not found")),
        Some(d) => {
            if str_eq(d, caller) {
                Ok(())
            } else {
                Err(refusal(403, "Only the original donor can request a refund for this donation"))
            }
        },
    }
}

/// The amount a reversal records: the negated original amount.
pub fn reversal_amount(amount_cents: i64) -> (r: i64)
    requires
        amount_cents != i64::MIN,
    ensures
        r == -amount_cents,
{
    -amount_cents
}

/// The answer to a refund decision, given how many pending reversals it changed.
pub fn refund_decision_outcome(rows: usize, approved: bool) -> (r: Result<String, Refusal>)
    ensures
        rows == 0 ==> refused_with(r, 404, "Refund not found or not a pending reversal"@),
        rows > 0 ==> (r matches Ok(m) && m@ == (if approved { "Refund approved"@ } else { "Refund rejected"@ })),
{
    if rows == 0 {
        Err(refusal(404, "Refund not found or not a pending reversal"))
    } else if approved {
        Ok(String::from_str("Refund approved"))
    } else {
        Ok(String::from_str("Refund rejected"))
    }
}

} // verus!
