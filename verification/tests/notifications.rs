use gitjobs_server::notifications::{
    after_delivery, after_pause, delivery_error, notification_subject, plan_delivery, ContentError,
    DeliveryOutcome, DeliveryPlan, NotificationKind, PendingLookup, WorkerAction,
    PAUSE_ON_ERROR_SECS, PAUSE_ON_NONE_SECS,
};

#[test]
fn kind_names() {
    assert_eq!(NotificationKind::EmailVerification.as_str(), "email-verification");
    assert_eq!(NotificationKind::TeamInvitation.as_str(), "team-invitation");
    for k in [NotificationKind::EmailVerification, NotificationKind::TeamInvitation] {
        assert_eq!(NotificationKind::parse(k.as_str()), Some(k));
    }
    assert_eq!(NotificationKind::parse("EmailVerification"), None);
}

#[test]
fn subjects() {
    assert_eq!(
        notification_subject(&NotificationKind::EmailVerification, true),
        Ok("Verify your email address")
    );
    assert_eq!(
        notification_subject(&NotificationKind::TeamInvitation, true),
        Ok("You have been invited to join a team")
    );
    let err = notification_subject(&NotificationKind::TeamInvitation, false).unwrap_err();
    assert_eq!(err, ContentError::MissingTemplateData);
    assert_eq!(err.message(), "missing template data");
}

#[test]
fn worker_pauses() {
    assert_eq!(PAUSE_ON_NONE_SECS, 15);
    assert_eq!(PAUSE_ON_ERROR_SECS, 30);
    assert_eq!(after_delivery(DeliveryOutcome::Delivered, false), WorkerAction::DeliverNext);
    assert_eq!(after_delivery(DeliveryOutcome::NothingPending, false), WorkerAction::Pause { secs: 15 });
    assert_eq!(after_delivery(DeliveryOutcome::Failed, false), WorkerAction::Pause { secs: 30 });
    for o in [DeliveryOutcome::Delivered, DeliveryOutcome::NothingPending, DeliveryOutcome::Failed] {
        assert_eq!(after_delivery(o, true), WorkerAction::Stop);
    }
    assert_eq!(after_pause(false), WorkerAction::DeliverNext);
    assert_eq!(after_pause(true), WorkerAction::Stop);
}

#[test]
fn delivery_transaction_plans() {
    assert_eq!(plan_delivery(PendingLookup::Failed), DeliveryPlan::RollbackAndFail);
    assert_eq!(plan_delivery(PendingLookup::NonePending), DeliveryPlan::RollbackNothingDelivered);
    assert_eq!(plan_delivery(PendingLookup::Found), DeliveryPlan::DeliverAndCommit);
    assert_eq!(delivery_error(Ok(())), None);
    assert_eq!(delivery_error(Err("smtp down".to_string())), Some("smtp down".to_string()));
}
