use awr::session::{
    classify_token, password_login_step, qr_login_result, token_login_plan, token_login_step,
    AliveHandle, ConnectionStatus, LoginError, LoginEvent, LoginStep, QrCodeEvent, QrSession,
    QrStep, Reconnector, TokenAttempt, TokenPlan, TokenState, RECONNECT_RETRIES,
};

#[test]
fn token_file_classification() {
    assert_eq!(classify_token(None), TokenState::Missing);
    let good = "{\"uin\": 123, \"d2\": [1, 2, 3]}".to_string();
    assert_eq!(classify_token(Some(&good)), TokenState::Usable);
    let bad = "{not json".to_string();
    assert_eq!(classify_token(Some(&bad)), TokenState::Invalid);
}

#[test]
fn token_is_tried_before_credentials() {
    assert_eq!(token_login_plan(&TokenState::Missing), TokenPlan::FallThrough);
    assert_eq!(token_login_plan(&TokenState::Usable), TokenPlan::Resume);
    // a corrupt token file is deleted and login continues with credentials
    assert_eq!(
        token_login_plan(&TokenState::Invalid),
        TokenPlan::DeleteAndFallThrough
    );
}

#[test]
fn rejected_token_falls_through_to_credentials() {
    assert!(token_login_step(&TokenAttempt::Accepted));
    // both rejections delete the token and fall through to credentials
    assert!(!token_login_step(&TokenAttempt::UnexpectedResponse));
    assert!(!token_login_step(&TokenAttempt::TransportFailed));
}

#[test]
fn credential_login_rounds() {
    assert!(matches!(
        password_login_step(LoginEvent::Success),
        LoginStep::Done
    ));
    assert!(matches!(
        password_login_step(LoginEvent::NeedCaptcha { url: None }),
        LoginStep::SubmitTicket
    ));
    assert!(matches!(
        password_login_step(LoginEvent::DeviceLockLogin),
        LoginStep::VerifyDeviceLock
    ));
    assert!(matches!(
        password_login_step(LoginEvent::AccountFrozen),
        LoginStep::Fail(LoginError::AccountFrozen)
    ));
    assert!(matches!(
        password_login_step(LoginEvent::TooManySmsRequest),
        LoginStep::Fail(LoginError::TooManySmsRequest)
    ));
    assert!(matches!(
        password_login_step(LoginEvent::Unknown),
        LoginStep::Fail(LoginError::RemoteException)
    ));
    match password_login_step(LoginEvent::DeviceLocked {
        message: Some("verify".to_string()),
        url: Some("https://example.invalid/verify".to_string()),
    }) {
        LoginStep::Fail(LoginError::DeviceLocked { message, url }) => {
            assert_eq!(message, "verify");
            assert_eq!(url, "https://example.invalid/verify");
        }
        _ => panic!("a locked device must fail the exchange with its verification URL"),
    }
}

#[test]
fn qr_polling_rounds() {
    let mut qr = QrSession::new();
    assert!(qr.sig().is_empty());
    match qr.on_event(QrCodeEvent::ImageFetch {
        image_data: vec![1, 2, 3],
        sig: vec![9, 9],
    }) {
        QrStep::ShowImageThenPoll { image_data } => assert_eq!(image_data, vec![1, 2, 3]),
        _ => panic!("a fresh image must be shown"),
    }
    assert_eq!(qr.sig(), &vec![9, 9]);
    assert!(matches!(qr.on_event(QrCodeEvent::WaitingForScan), QrStep::Poll));
    assert!(matches!(
        qr.on_event(QrCodeEvent::WaitingForConfirm),
        QrStep::Poll
    ));
    assert!(matches!(qr.on_event(QrCodeEvent::Timeout), QrStep::Refetch));
    assert_eq!(qr.sig(), &vec![9, 9]);
    match qr.on_event(QrCodeEvent::Confirmed {
        tmp_pwd: vec![1],
        tmp_no_pic_sig: vec![2],
        tgt_qr: vec![3],
    }) {
        QrStep::Login {
            tmp_pwd,
            tmp_no_pic_sig,
            tgt_qr,
        } => {
            assert_eq!(tmp_pwd, vec![1]);
            assert_eq!(tmp_no_pic_sig, vec![2]);
            assert_eq!(tgt_qr, vec![3]);
        }
        _ => panic!("a confirmed code must move to the login request"),
    }
    assert!(matches!(
        qr.on_event(QrCodeEvent::Canceled),
        QrStep::Fail(LoginError::QrCodeCancelled)
    ));
}

#[test]
fn qr_login_judgement() {
    assert_eq!(qr_login_result(&LoginEvent::Success, 123, 123), Ok(true));
    assert_eq!(qr_login_result(&LoginEvent::Success, 123, 124), Ok(false));
    assert!(matches!(
        qr_login_result(&LoginEvent::AccountFrozen, 123, 123),
        Err(LoginError::RemoteException)
    ));
}

#[test]
fn second_concurrent_alive_fails_fast() {
    let mut h = AliveHandle::new();
    assert_eq!(h.begin_alive(), Ok(true));
    // a second wait while one is outstanding: busy at once
    assert!(matches!(h.begin_alive(), Err(LoginError::Busy)));
    assert!(matches!(h.begin_reconnect(), Err(LoginError::Busy)));
    h.end_alive();
    // the task handle was consumed: a repeated wait ends at once
    assert_eq!(h.begin_alive(), Ok(false));
    h.end_alive();
}

#[test]
fn reconnect_installs_a_fresh_task() {
    let mut h = AliveHandle::new();
    assert_eq!(h.begin_alive(), Ok(true));
    h.end_alive();
    assert_eq!(h.begin_reconnect(), Ok(true));
    h.end_reconnect(true);
    // the reconnected task can be awaited again
    assert_eq!(h.begin_alive(), Ok(true));
    h.end_alive();
    // while the task runs, a reconnect has nothing to do
    let mut h2 = AliveHandle::new();
    assert_eq!(h2.begin_reconnect(), Ok(false));
    h2.end_reconnect(false);
}

#[test]
fn non_network_disconnect_aborts_without_retry() {
    let rec = Reconnector::new();
    for status in [
        ConnectionStatus::Unknown,
        ConnectionStatus::Online,
        ConnectionStatus::KickedOffline,
        ConnectionStatus::MsfOffline,
        ConnectionStatus::Stopped,
        ConnectionStatus::Dropped,
    ] {
        assert!(matches!(
            rec.check_status(&status),
            Err(LoginError::ReconnectAborted { .. })
        ));
    }
    assert!(rec.check_status(&ConnectionStatus::NetworkOffline).is_ok());
}

#[test]
fn reconnect_requires_the_persisted_token() {
    let rec = Reconnector::new();
    assert!(rec
        .plan_attempt(&ConnectionStatus::NetworkOffline, &TokenState::Usable)
        .is_ok());
    assert!(matches!(
        rec.plan_attempt(&ConnectionStatus::NetworkOffline, &TokenState::Missing),
        Err(LoginError::ReconnectAborted { .. })
    ));
    assert!(matches!(
        rec.plan_attempt(&ConnectionStatus::NetworkOffline, &TokenState::Invalid),
        Err(LoginError::ReconnectAborted { .. })
    ));
    assert!(matches!(
        rec.plan_attempt(&ConnectionStatus::Stopped, &TokenState::Usable),
        Err(LoginError::ReconnectAborted { .. })
    ));
}

#[test]
fn retry_budget_is_bounded() {
    let mut rec = Reconnector::new();
    let mut spent = 0u32;
    loop {
        match rec.on_transient_failure(LoginError::ConnectionClosed) {
            Ok(()) => spent += 1,
            Err(e) => {
                assert!(matches!(e, LoginError::ConnectionClosed));
                break;
            }
        }
        assert!(spent <= RECONNECT_RETRIES);
    }
    assert_eq!(spent, RECONNECT_RETRIES);
}
