//! Enumerations of the portal and their wire names.
use vstd::prelude::*;
use crate::text::str_eq;

verus! {

/// Roles a user account can hold.
#[derive(Debug, Clone, Copy, PartialEq, Eq, Structural)]
pub enum Role {
    Supporter,
    ProjectManager,
    FinanceReviewer,
    Administrator,
}

/// The wire name of each `Role`.
pub open spec fn role_name(x: Role) -> Seq<char> {
    match x {
        Role::Supporter => "supporter"@,
        Role::ProjectManager => "project_manager"@,
        Role::FinanceReviewer => "finance_reviewer"@,
        Role::Administrator => "administrator"@,
    }
}

/// The `Role` whose wire name is `s`, if any.
pub open spec fn role_from_name(s: Seq<char>) -> Option<Role> {
    if s == "supporter"@ {
        Some(Role::Supporter)
    } else if s == "project_manager"@ {
        Some(Role::ProjectManager)
    } else if s == "finance_reviewer"@ {
        Some(Role::FinanceReviewer)
    } else if s == "administrator"@ {
        Some(Role::Administrator)
    } else {
        None
    }
}

impl Role {
    /// The wire name of this value.
    pub fn as_str(&self) -> (s: &'static str)
        ensures
            s@ == role_name(*self),
    {
        match self {
            Role::Supporter => "supporter",
            Role::ProjectManager => "project_manager",
            Role::FinanceReviewer => "finance_reviewer",
            Role::Administrator => "administrator",
        }
    }

    /// Parses a wire name; `None` for any other string.
    pub fn from_str(s: &str) -> (r: Option<Role>)
        ensures
            r == role_from_name(s@),
    {
        if str_eq(s, "supporter") {
            Some(Role::Supporter)
        } else if str_eq(s, "project_manager") {
            Some(Role::ProjectManager)
        } else if str_eq(s, "finance_reviewer") {
            Some(Role::FinanceReviewer)
        } else if str_eq(s, "administrator") {
            Some(Role::Administrator)
        } else {
            None
        }
    }
}

/// Every `Role` parses back from its wire name, and a parsed name is the value's own.
pub proof fn lemma_role_name_roundtrip(x: Role, s: Seq<char>)
    ensures
        role_from_name(role_name(x)) == Some(x),
        role_from_name(s) matches Some(y) ==> role_name(y) == s,
{
    reveal_strlit("supporter");
    reveal_strlit("project_manager");
    reveal_strlit("finance_reviewer");
    reveal_strlit("administrator");
    assert("supporter"@.len() != "project_manager"@.len());
    assert("supporter"@.len() != "finance_reviewer"@.len());
    assert("supporter"@.len() != "administrator"@.len());
    assert("project_manager"@.len() != "finance_reviewer"@.len());
    assert("project_manager"@.len() != "administrator"@.len());
    assert("finance_reviewer"@.len() != "administrator"@.len());
}

/// Publication state of a fundraising project.
#[derive(Debug, Clone, Copy, PartialEq, Eq, Structural)]
pub enum ProjectStatus {
    Draft,
    Active,
    Funded,
    Closed,
    Unpublished,
}

/// The wire name of each `ProjectStatus`.
pub open spec fn project_status_name(x: ProjectStatus) -> Seq<char> {
    match x {
        ProjectStatus::Draft => "draft"@,
        ProjectStatus::Active => "active"@,
        ProjectStatus::Funded => "funded"@,
        ProjectStatus::Closed => "closed"@,
        ProjectStatus::Unpublished => "unpublished"@,
    }
}

/// The `ProjectStatus` whose wire name is `s`, if any.
pub open spec fn project_status_from_name(s: Seq<char>) -> Option<ProjectStatus> {
    if s == "draft"@ {
        Some(ProjectStatus::Draft)
    } else if s == "active"@ {
        Some(ProjectStatus::Active)
    } else if s == "funded"@ {
        Some(ProjectStatus::Funded)
    } else if s == "closed"@ {
        Some(ProjectStatus::Closed)
    } else if s == "unpublished"@ {
        Some(ProjectStatus::Unpublished)
    } else {
        None
    }
}

impl ProjectStatus {
    /// The wire name of this value.
    pub fn as_str(&self) -> (s: &'static str)
        ensures
            s@ == project_status_name(*self),
    {
        match self {
            ProjectStatus::Draft => "draft",
            ProjectStatus::Active => "active",
            ProjectStatus::Funded => "funded",
            ProjectStatus::Closed => "closed",
            ProjectStatus::Unpublished => "unpublished",
        }
    }

    /// Parses a wire name; `None` for any other string.
    pub fn from_str(s: &str) -> (r: Option<ProjectStatus>)
        ensures
            r == project_status_from_name(s@),
    {
        if str_eq(s, "draft") {
            Some(ProjectStatus::Draft)
        } else if str_eq(s, "active") {
            Some(ProjectStatus::Active)
        } else if str_eq(s, "funded") {
            Some(ProjectStatus::Funded)
        } else if str_eq(s, "closed") {
            Some(ProjectStatus::Closed)
        } else if str_eq(s, "unpublished") {
            Some(ProjectStatus::Unpublished)
        } else {
            None
        }
    }
}

/// Every `ProjectStatus` parses back from its wire name, and a parsed name is the value's own.
pub proof fn lemma_project_status_name_roundtrip(x: ProjectStatus, s: Seq<char>)
    ensures
        project_status_from_name(project_status_name(x)) == Some(x),
        project_status_from_name(s) matches Some(y) ==> project_status_name(y) == s,
{
    reveal_strlit("draft");
    reveal_strlit("active");
    reveal_strlit("funded");
    reveal_strlit("closed");
    reveal_strlit("unpublished");
    assert("draft"@.len() != "active"@.len());
    assert("draft"@.len() != "funded"@.len());
    assert("draft"@.len() != "closed"@.len());
    assert("draft"@.len() != "unpublished"@.len());
    assert("active"@[0] != "funded"@[0]);
    assert("active"@[0] != "closed"@[0]);
    assert("active"@.len() != "unpublished"@.len());
    assert("funded"@[0] != "closed"@[0]);
    assert("funded"@.len() != "unpublished"@.len());
    assert("closed"@.len() != "unpublished"@.len());
}

/// Review state of a disclosed expense.
#[derive(Debug, Clone, Copy, PartialEq, Eq, Structural)]
pub enum DisclosureStatus {
    Pending,
    Approved,
    Rejected,
}

/// The wire name of each `DisclosureStatus`.
pub open spec fn disclosure_status_name(x: DisclosureStatus) -> Seq<char> {
    match x {
        DisclosureStatus::Pending => "pending"@,
        DisclosureStatus::Approved => "approved"@,
        DisclosureStatus::Rejected => "rejected"@,
    }
}

/// The `DisclosureStatus` whose wire name is `s`, if any.
pub open spec fn disclosure_status_from_name(s: Seq<char>) -> Option<DisclosureStatus> {
    if s == "pending"@ {
        Some(DisclosureStatus::Pending)
    } else if s == "approved"@ {
        Some(DisclosureStatus::Approved)
    } else if s == "rejected"@ {
        Some(DisclosureStatus::Rejected)
    } else {
        None
    }
}

impl DisclosureStatus {
    /// The wire name of this value.
    pub fn as_str(&self) -> (s: &'static str)
        ensures
            s@ == disclosure_status_name(*self),
    {
        match self {
            DisclosureStatus::Pending => "pending",
            DisclosureStatus::Approved => "approved",
            DisclosureStatus::Rejected => "rejected",
        }
    }

    /// Parses a wire name; `None` for any other string.
    pub fn from_str(s: &str) -> (r: Option<DisclosureStatus>)
        ensures
            r == disclosure_status_from_name(s@),
    {
        if str_eq(s, "pending") {
            Some(DisclosureStatus::Pending)
        } else if str_eq(s, "approved") {
            Some(DisclosureStatus::Approved)
        } else if str_eq(s, "rejected") {
            Some(DisclosureStatus::Rejected)
        } else {
            None
        }
    }
}

/// Every `DisclosureStatus` parses back from its wire name, and a parsed name is the value's own.
pub proof fn lemma_disclosure_status_name_roundtrip(x: DisclosureStatus, s: Seq<char>)
    ensures
        disclosure_status_from_name(disclosure_status_name(x)) == Some(x),
        disclosure_status_from_name(s) matches Some(y) ==> disclosure_status_name(y) == s,
{
    reveal_strlit("pending");
    reveal_strlit("approved");
    reveal_strlit("rejected");
    assert("pending"@.len() != "approved"@.len());
    assert("pending"@.len() != "rejected"@.len());
    assert("approved"@[0] != "rejected"@[0]);
}

/// How an offline pledge was paid.
#[derive(Debug, Clone, Copy, PartialEq, Eq, Structural)]
pub enum PaymentMethod {
    Cash,
    Check,
    CardTerminal,
}

/// The wire name of each `PaymentMethod`.
pub open spec fn payment_method_name(x: PaymentMethod) -> Seq<char> {
    match x {
        PaymentMethod::Cash => "cash"@,
        PaymentMethod::Check => "check"@,
        PaymentMethod::CardTerminal => "card_terminal"@,
    }
}

/// The `PaymentMethod` whose wire name is `s`, if any.
pub open spec fn payment_method_from_name(s: Seq<char>) -> Option<PaymentMethod> {
    if s == "cash"@ {
        Some(PaymentMethod::Cash)
    } else if s == "check"@ {
        Some(PaymentMethod::Check)
    } else if s == "card_terminal"@ {
        Some(PaymentMethod::CardTerminal)
    } else {
        None
    }
}

impl PaymentMethod {
    /// The wire name of this value.
    pub fn as_str(&self) -> (s: &'static str)
        ensures
            s@ == payment_method_name(*self),
    {
        match self {
            PaymentMethod::Cash => "cash",
            PaymentMethod::Check => "check",
            PaymentMethod::CardTerminal => "card_terminal",
        }
    }

    /// Parses a wire name; `None` for any other string.
    pub fn from_str(s: &str) -> (r: Option<PaymentMethod>)
        ensures
            r == payment_method_from_name(s@),
    {
        if str_eq(s, "cash") {
            Some(PaymentMethod::Cash)
        } else if str_eq(s, "check") {
            Some(PaymentMethod::Check)
        } else if str_eq(s, "card_terminal") {
            Some(PaymentMethod::CardTerminal)
        } else {
            None
        }
    }
}

/// Every `PaymentMethod` parses back from its wire name, and a parsed name is the value's own.
pub proof fn lemma_payment_method_name_roundtrip(x: PaymentMethod, s: Seq<char>)
    ensures
        payment_method_from_name(payment_method_name(x)) == Some(x),
        payment_method_from_name(s) matches Some(y) ==> payment_method_name(y) == s,
{
    reveal_strlit("cash");
    reveal_strlit("check");
    reveal_strlit("card_terminal");
    assert("cash"@.len() != "check"@.len());
    assert("cash"@.len() != "card_terminal"@.len());
    assert("check"@.len() != "card_terminal"@.len());
}

/// Verification state of an uploaded receipt or voucher.
#[derive(Debug, Clone, Copy, PartialEq, Eq, Structural)]
pub enum ReceiptStatus {
    Uploaded,
    Verified,
    Rejected,
}

/// The wire name of each `ReceiptStatus`.
pub open spec fn receipt_status_name(x: ReceiptStatus) -> Seq<char> {
    match x {
        ReceiptStatus::Uploaded => "uploaded"@,
        ReceiptStatus::Verified => "verified"@,
        ReceiptStatus::Rejected => "rejected"@,
    }
}

/// The `ReceiptStatus` whose wire name is `s`, if any.
pub open spec fn receipt_status_from_name(s: Seq<char>) -> Option<ReceiptStatus> {
    if s == "uploaded"@ {
        Some(ReceiptStatus::Uploaded)
    } else if s == "verified"@ {
        Some(ReceiptStatus::Verified)
    } else if s == "rejected"@ {
        Some(ReceiptStatus::Rejected)
    } else {
        None
    }
}

impl ReceiptStatus {
    /// The wire name of this value.
    pub fn as_str(&self) -> (s: &'static str)
        ensures
            s@ == receipt_status_name(*self),
    {
        match self {
            ReceiptStatus::Uploaded => "uploaded",
            ReceiptStatus::Verified => "verified",
            ReceiptStatus::Rejected => "rejected",
        }
    }

    /// Parses a wire name; `None` for any other string.
    pub fn from_str(s: &str) -> (r: Option<ReceiptStatus>)
        ensures
            r == receipt_status_from_name(s@),
    {
        if str_eq(s, "uploaded") {
            Some(ReceiptStatus::Uploaded)
        } else if str_eq(s, "verified") {
            Some(ReceiptStatus::Verified)
        } else if str_eq(s, "rejected") {
            Some(ReceiptStatus::Rejected)
        } else {
            None
        }
    }
}

/// Every `ReceiptStatus` parses back from its wire name, and a parsed name is the value's own.
pub proof fn lemma_receipt_status_name_roundtrip(x: ReceiptStatus, s: Seq<char>)
    ensures
        receipt_status_from_name(receipt_status_name(x)) == Some(x),
        receipt_status_from_name(s) matches Some(y) ==> receipt_status_name(y) == s,
{
    reveal_strlit("uploaded");
    reveal_strlit("verified");
    reveal_strlit("rejected");
    assert("uploaded"@[0] != "verified"@[0]);
    assert("uploaded"@[0] != "rejected"@[0]);
    assert("verified"@[0] != "rejected"@[0]);
}

/// A timestamped checkpoint of an on-site service fulfillment.
#[derive(Debug, Clone, Copy, PartialEq, Eq, Structural)]
pub enum CheckpointKind {
    Arrival,
    Start,
    End,
}

/// The wire name of each `CheckpointKind`.
pub open spec fn checkpoint_kind_name(x: CheckpointKind) -> Seq<char> {
    match x {
        CheckpointKind::Arrival => "arrival"@,
        CheckpointKind::Start => "start"@,
        CheckpointKind::End => "end"@,
    }
}

/// The `CheckpointKind` whose wire name is `s`, if any.
pub open spec fn checkpoint_kind_from_name(s: Seq<char>) -> Option<CheckpointKind> {
    if s == "arrival"@ {
        Some(CheckpointKind::Arrival)
    } else if s == "start"@ {
        Some(CheckpointKind::Start)
    } else if s == "end"@ {
        Some(CheckpointKind::End)
    } else {
        None
    }
}

impl CheckpointKind {
    /// The wire name of this value.
    pub fn as_str(&self) -> (s: &'static str)
        ensures
            s@ == checkpoint_kind_name(*self),
    {
        match self {
            CheckpointKind::Arrival => "arrival",
            CheckpointKind::Start => "start",
            CheckpointKind::End => "end",
        }
    }

    /// Parses a wire name; `None` for any other string.
    pub fn from_str(s: &str) -> (r: Option<CheckpointKind>)
        ensures
            r == checkpoint_kind_from_name(s@),
    {
        if str_eq(s, "arrival") {
            Some(CheckpointKind::Arrival)
        } else if str_eq(s, "start") {
            Some(CheckpointKind::Start)
        } else if str_eq(s, "end") {
            Some(CheckpointKind::End)
        } else {
            None
        }
    }
}

/// Every `CheckpointKind` parses back from its wire name, and a parsed name is the value's own.
pub proof fn lemma_checkpoint_kind_name_roundtrip(x: CheckpointKind, s: Seq<char>)
    ensures
        checkpoint_kind_from_name(checkpoint_kind_name(x)) == Some(x),
        checkpoint_kind_from_name(s) matches Some(y) ==> checkpoint_kind_name(y) == s,
{
    reveal_strlit("arrival");
    reveal_strlit("start");
    reveal_strlit("end");
    assert("arrival"@.len() != "start"@.len());
    assert("arrival"@.len() != "end"@.len());
    assert("start"@.len() != "end"@.len());
}

/// Kinds of analytics events the client reports.
#[derive(Debug, Clone, Copy, PartialEq, Eq, Structural)]
pub enum EventKind {
    Impression,
    Click,
    DwellTime,
    SessionStart,
    SessionEnd,
}

/// The wire name of each `EventKind`.
pub open spec fn event_kind_name(x: EventKind) -> Seq<char> {
    match x {
        EventKind::Impression => "impression"@,
        EventKind::Click => "click"@,
        EventKind::DwellTime => "dwell_time"@,
        EventKind::SessionStart => "session_start"@,
        EventKind::SessionEnd => "session_end"@,
    }
}

/// The `EventKind` whose wire name is `s`, if any.
pub open spec fn event_kind_from_name(s: Seq<char>) -> Option<EventKind> {
    if s == "impression"@ {
        Some(EventKind::Impression)
    } else if s == "click"@ {
        Some(EventKind::Click)
    } else if s == "dwell_time"@ {
        Some(EventKind::DwellTime)
    } else if s == "session_start"@ {
        Some(EventKind::SessionStart)
    } else if s == "session_end"@ {
        Some(EventKind::SessionEnd)
    } else {
        None
    }
}

impl EventKind {
    /// The wire name of this value.
    pub fn as_str(&self) -> (s: &'static str)
        ensures
            s@ == event_kind_name(*self),
    {
        match self {
            EventKind::Impression => "impression",
            EventKind::Click => "click",
            EventKind::DwellTime => "dwell_time",
            EventKind::SessionStart => "session_start",
            EventKind::SessionEnd => "session_end",
        }
    }

    /// Parses a wire name; `None` for any other string.
    pub fn from_str(s: &str) -> (r: Option<EventKind>)
        ensures
            r == event_kind_from_name(s@),
    {
        if str_eq(s, "impression") {
            Some(EventKind::Impression)
        } else if str_eq(s, "click") {
            Some(EventKind::Click)
        } else if str_eq(s, "dwell_time") {
            Some(EventKind::DwellTime)
        } else if str_eq(s, "session_start") {
            Some(EventKind::SessionStart)
        } else if str_eq(s, "session_end") {
            Some(EventKind::SessionEnd)
        } else {
            None
        }
    }
}

/// Every `EventKind` parses back from its wire name, and a parsed name is the value's own.
pub proof fn lemma_event_kind_name_roundtrip(x: EventKind, s: Seq<char>)
    ensures
        event_kind_from_name(event_kind_name(x)) == Some(x),
        event_kind_from_name(s) matches Some(y) ==> event_kind_name(y) == s,
{
    reveal_strlit("impression");
    reveal_strlit("click");
    reveal_strlit("dwell_time");
    reveal_strlit("session_start");
    reveal_strlit("session_end");
    assert("impression"@.len() != "click"@.len());
    assert("impression"@[0] != "dwell_time"@[0]);
    assert("impression"@.len() != "session_start"@.len());
    assert("impression"@.len() != "session_end"@.len());
    assert("click"@.len() != "dwell_time"@.len());
    assert("click"@.len() != "session_start"@.len());
    assert("click"@.len() != "session_end"@.len());
    assert("dwell_time"@.len() != "session_start"@.len());
    assert("dwell_time"@.len() != "session_end"@.len());
    assert("session_start"@.len() != "session_end"@.len());
}

/// Moderation state of a comment.
#[derive(Debug, Clone, Copy, PartialEq, Eq, Structural)]
pub enum ModerationStatus {
    Approved,
    PendingReview,
    Rejected,
}

/// The wire name of each `ModerationStatus`.
pub open spec fn moderation_status_name(x: ModerationStatus) -> Seq<char> {
    match x {
        ModerationStatus::Approved => "approved"@,
        ModerationStatus::PendingReview => "pending_review"@,
        ModerationStatus::Rejected => "rejected"@,
    }
}

/// The `ModerationStatus` whose wire name is `s`, if any.
pub open spec fn moderation_status_from_name(s: Seq<char>) -> Option<ModerationStatus> {
    if s == "approved"@ {
        Some(ModerationStatus::Approved)
    } else if s == "pending_review"@ {
        Some(ModerationStatus::PendingReview)
    } else if s == "rejected"@ {
        Some(ModerationStatus::Rejected)
    } else {
        None
    }
}

impl ModerationStatus {
    /// The wire name of this value.
    pub fn as_str(&self) -> (s: &'static str)
        ensures
            s@ == moderation_status_name(*self),
    {
        match self {
            ModerationStatus::Approved => "approved",
            ModerationStatus::PendingReview => "pending_review",
            ModerationStatus::Rejected => "rejected",
        }
    }

    /// Parses a wire name; `None` for any other string.
    pub fn from_str(s: &str) -> (r: Option<ModerationStatus>)
        ensures
            r == moderation_status_from_name(s@),
    {
        if str_eq(s, "approved") {
            Some(ModerationStatus::Approved)
        } else if str_eq(s, "pending_review") {
            Some(ModerationStatus::PendingReview)
        } else if str_eq(s, "rejected") {
            Some(ModerationStatus::Rejected)
        } else {
            None
        }
    }
}

/// Every `ModerationStatus` parses back from its wire name, and a parsed name is the value's own.
pub proof fn lemma_moderation_status_name_roundtrip(x: ModerationStatus, s: Seq<char>)
    ensures
        moderation_status_from_name(moderation_status_name(x)) == Some(x),
        moderation_status_from_name(s) matches Some(y) ==> moderation_status_name(y) == s,
{
    reveal_strlit("approved");
    reveal_strlit("pending_review");
    reveal_strlit("rejected");
    assert("approved"@.len() != "pending_review"@.len());
    assert("approved"@[0] != "rejected"@[0]);
    assert("pending_review"@.len() != "rejected"@.len());
}

} // verus!
