//! User notifications: their kinds, the emails they become, and the decisions
//! of the worker that delivers them.

use vstd::prelude::*;

use crate::text::text_eq;

verus! {

/// Time to wait after a delivery error before retrying, in seconds.
pub const PAUSE_ON_ERROR_SECS: u64 = 30;

/// Time to wait when there are no notifications to deliver, in seconds.
pub const PAUSE_ON_NONE_SECS: u64 = 15;

/// Supported notification types.
#[derive(Debug, Clone, Copy, PartialEq, Eq)]
pub enum NotificationKind {
    /// Notification for email verification.
    EmailVerification,
    /// Notification for a team invitation.
    TeamInvitation,
}

/// The name a kind is stored under (kebab case).
pub open spec fn kind_name(kind: NotificationKind) -> Seq<char> {
    match kind {
        NotificationKind::EmailVerification => "email-verification"@,
        NotificationKind::TeamInvitation => "team-invitation"@,
    }
}

/// The subject of the email a notification of a kind is sent in.
pub open spec fn kind_subject(kind: NotificationKind) -> Seq<char> {
    match kind {
        NotificationKind::EmailVerification => "Verify your email address"@,
        NotificationKind::TeamInvitation => "You have been invited to join a team"@,
    }
}

/// Each kind is stored under a name of its own, so reading back a stored name
/// gives the kind that was stored.
pub proof fn law_kind_names_distinct(a: NotificationKind, b: NotificationKind)
    ensures
        kind_name(a) == kind_name(b) ==> a == b,
{
    reveal_strlit("email-verification");
    reveal_strlit("team-invitation");
    if kind_name(a) == kind_name(b) && a != b {
        assert(kind_name(a)[0] == kind_name(b)[0]);
    }
}

impl NotificationKind {
    /// The name the kind is stored under.
    pub fn as_str(&self) -> (s: &'static str)
        ensures
            s@ == kind_name(*self),
    {
        match self {
            NotificationKind::EmailVerification => "email-verification",
            NotificationKind::TeamInvitation => "team-invitation",
        }
    }

    /// Parses a stored kind name.
    pub fn parse(value: &str) -> (r: Option<Self>)
        ensures
            r matches Some(k) ==> kind_name(k) == value@,
            r is None ==> value@ != "email-verification"@ && value@ != "team-invitation"@,
    {
        if text_eq(value, "email-verification") {
            Some(NotificationKind::EmailVerification)
        } else if text_eq(value, "team-invitation") {
            Some(NotificationKind::TeamInvitation)
        } else {
            None
        }
    }

    /// The subject of the email a notification of this kind is sent in.
    pub fn subject(&self) -> (s: &'static str)
        ensures
            s@ == kind_subject(*self),
    {
        match self {
            NotificationKind::EmailVerification => "Verify your email address",
            NotificationKind::TeamInvitation => "You have been invited to join a team",
        }
    }
}

/// Why the content of a notification could not be prepared.
#[derive(Debug, Clone, Copy, PartialEq, Eq)]
pub enum ContentError {
    /// The notification carries no template data.
    MissingTemplateData,
}

impl ContentError {
    /// The error message.
    pub fn message(&self) -> (m: &'static str)
        ensures
            m@ == "missing template data"@,
    {
        "missing template data"
    }
}

/// The subject of a notification's email. A notification without template
/// data cannot be rendered.
pub fn notification_subject(kind: &NotificationKind, has_template_data: bool) -> (r: Result<
    &'static str,
    ContentError,
>)
    ensures
        !has_template_data ==> r is Err,
        has_template_data ==> (r matches Ok(s) && s@ == kind_subject(*kind)),
{
    if !has_template_data {
        return Err(ContentError::MissingTemplateData);
    }
    Ok(kind.subject())
}

/// Result of one delivery attempt.
#[derive(Debug, Clone, Copy, PartialEq, Eq)]
pub enum DeliveryOutcome {
    /// A pending notification was delivered.
    Delivered,
    /// There was no pending notification.
    NothingPending,
    /// Something went wrong.
    Failed,
}

/// What the delivery worker does next.
#[derive(Debug, Clone, Copy, PartialEq, Eq)]
pub enum WorkerAction {
    /// Try to deliver the next pending notification right away.
    DeliverNext,
    /// Wait this many seconds (unless asked to stop meanwhile).
    Pause { secs: u64 },
    /// Stop the worker.
    Stop,
}

/// What the worker does after a delivery attempt, given whether it has been
/// asked to stop: after a delivery it goes on at once, after finding nothing
/// it pauses 15 seconds and after an error 30 seconds; it stops whenever it
/// has been asked to.
pub fn after_delivery(outcome: DeliveryOutcome, cancelled: bool) -> (action: WorkerAction)
    ensures
        cancelled ==> action is Stop,
        !cancelled ==> match outcome {
            DeliveryOutcome::Delivered => action is DeliverNext,
            DeliveryOutcome::NothingPending => action == WorkerAction::Pause {
                secs: PAUSE_ON_NONE_SECS,
            },
            DeliveryOutcome::Failed => action == WorkerAction::Pause { secs: PAUSE_ON_ERROR_SECS },
        },
{
    if cancelled {
        return WorkerAction::Stop;
    }
    match outcome {
        DeliveryOutcome::Delivered => WorkerAction::DeliverNext,
        DeliveryOutcome::NothingPending => WorkerAction::Pause { secs: PAUSE_ON_NONE_SECS },
        DeliveryOutcome::Failed => WorkerAction::Pause { secs: PAUSE_ON_ERROR_SECS },
    }
}

/// What the worker does once a pause ended (or was cut short because it was
/// asked to stop).
pub fn after_pause(cancelled: bool) -> (action: WorkerAction)
    ensures
        cancelled ==> action is Stop,
        !cancelled ==> action is DeliverNext,
{
    if cancelled {
        WorkerAction::Stop
    } else {
        WorkerAction::DeliverNext
    }
}

/// What looking for a pending notification inside the delivery transaction
/// found.
#[derive(Debug, Clone, Copy, PartialEq, Eq)]
pub enum PendingLookup {
    /// The lookup failed.
    Failed,
    /// No notification is pending.
    NonePending,
    /// A notification is pending.
    Found,
}

/// How the delivery transaction continues after the lookup.
#[derive(Debug, Clone, Copy, PartialEq, Eq)]
pub enum DeliveryPlan {
    /// Roll the transaction back and report the lookup error.
    RollbackAndFail,
    /// Roll the transaction back: nothing was delivered.
    RollbackNothingDelivered,
    /// Deliver the notification, record the result and commit.
    DeliverAndCommit,
}

/// The delivery transaction is rolled back unless a pending notification was
/// found, in which case it is delivered and the transaction committed.
pub fn plan_delivery(lookup: PendingLookup) -> (plan: DeliveryPlan)
    ensures
        match lookup {
            PendingLookup::Failed => plan is RollbackAndFail,
            PendingLookup::NonePending => plan is RollbackNothingDelivered,
            PendingLookup::Found => plan is DeliverAndCommit,
        },
{
    match lookup {
        PendingLookup::Failed => DeliveryPlan::RollbackAndFail,
        PendingLookup::NonePending => DeliveryPlan::RollbackNothingDelivered,
        PendingLookup::Found => DeliveryPlan::DeliverAndCommit,
    }
}

/// The error recorded for a notification: none when its email was sent, the
/// sending error's message otherwise.
pub fn delivery_error(sent: Result<(), String>) -> (r: Option<String>)
    ensures
        match sent {
            Ok(()) => r is None,
            Err(e) => r == Some(e),
        },
{
    match sent {
        Ok(()) => None,
        Err(e) => Some(e),
    }
}


/// The names notification kinds are stored under, and the subjects of their
/// emails: `email-verification` with "Verify your email address", and
/// `team-invitation` with "You have been invited to join a team".
pub proof fn law_notification_kind_literals(k: NotificationKind)
    ensures
        match k {
            NotificationKind::EmailVerification => kind_name(k) == "email-verification"@
                && kind_subject(k) == "Verify your email address"@,
            NotificationKind::TeamInvitation => kind_name(k) == "team-invitation"@ && kind_subject(k)
                == "You have been invited to join a team"@,
        },
{
}


/// The delivery worker pauses 15 seconds when nothing is pending and 30
/// seconds after an error.
pub proof fn law_worker_pauses()
    ensures
        PAUSE_ON_NONE_SECS == 15,
        PAUSE_ON_ERROR_SECS == 30,
{
}

} // verus!
