//! The login and reconnect session machinery.
//!
//! The session turns one raw, long-lived connection into something that
//! survives network drops.  All remote work (opening the transport,
//! submitting credentials, waiting on the background task) happens outside
//! this library; what stands here is every decision between those steps:
//! which login method round comes next, whether a persisted token is taken
//! up, whether a disconnect may be retried at all, and how many retries are
//! left.  A driver performs the step each decision asks for and feeds the
//! outcome back.

use vstd::prelude::*;

use crate::device::{DeviceError, DeviceIdentity, device_doc_result, device_view, random_device_view, random_from_uin, device_from_json};
use crate::json::json_parse;

verus! {

/// The protocol flavor a session presents to the server; exactly one is
/// chosen by the caller at login.
#[derive(Debug, Clone, Copy, PartialEq, Eq, Structural)]
pub enum Protocol {
    IPad,
    AndroidPhone,
    AndroidWatch,
    MacOS,
    QiDian,
}

/// Connection status that the protocol layer reports when the background
/// task ends.
#[derive(Debug, Clone, Copy, PartialEq, Eq, Structural)]
pub enum ConnectionStatus {
    Unknown,
    Online,
    /// The connection dropped for network reasons; the one retryable cause.
    NetworkOffline,
    /// The server forced this session offline.
    KickedOffline,
    /// The server logged the account in elsewhere.
    MsfOffline,
    /// The user stopped the session.
    Stopped,
    /// The connection was dropped deliberately.
    Dropped,
}

/// What login and reconnect fail with.
#[derive(Debug, Clone, PartialEq)]
pub enum LoginError {
    /// The device document could not be read or written.
    Device(DeviceError),
    /// Reading or writing a persisted file failed.
    Io,
    /// The server answered a login round with something unexpected.
    RemoteException,
    /// The server demands device-lock verification at the given URL.
    DeviceLocked { message: String, url: String },
    /// The account is frozen.
    AccountFrozen,
    /// The server rate-limits SMS verification.
    TooManySmsRequest,
    /// The QR code login was cancelled.
    QrCodeCancelled,
    /// The background connection task failed.
    ConnectionClosed,
    /// Another caller already waits on or reconnects this session.
    Busy,
    /// Reconnection was abandoned for good.
    ReconnectAborted { message: String },
}

/// How the persisted resumption token stands when a session starts.
#[derive(Debug, Clone, Copy, PartialEq, Eq, Structural)]
pub enum TokenState {
    /// No token file exists.
    Missing,
    /// The token file exists but is not JSON.
    Invalid,
    /// The token file holds a JSON document to pass back verbatim.
    Usable,
}

/// Classifies the persisted token file: absent, unparsable, or usable.
pub fn classify_token(file: Option<&String>) -> (r: TokenState)
    ensures
        r == (match file {
            None => TokenState::Missing,
            Some(s) => if crate::json::json_doc_of(s@) is Some {
                TokenState::Usable
            } else {
                TokenState::Invalid
            },
        }),
{
    match file {
        None => TokenState::Missing,
        Some(s) => match json_parse(s.as_str()) {
            Ok(_) => TokenState::Usable,
            Err(_) => TokenState::Invalid,
        },
    }
}

/// How initial login takes the persisted token up before the credential
/// method.
#[derive(Debug, Clone, Copy, PartialEq, Eq, Structural)]
pub enum TokenPlan {
    /// Try a fast token login first.
    Resume,
    /// The token file is corrupt: delete it, then use the credential method.
    DeleteAndFallThrough,
    /// No token exists: use the credential method.
    FallThrough,
}

/// Decides what initial login does with the persisted token: a usable one is
/// tried before the credential method; a corrupt one is deleted and login
/// simply continues; a missing one costs nothing.
pub fn token_login_plan(t: &TokenState) -> (r: TokenPlan)
    ensures
        r == (match t {
            TokenState::Missing => TokenPlan::FallThrough,
            TokenState::Invalid => TokenPlan::DeleteAndFallThrough,
            TokenState::Usable => TokenPlan::Resume,
        }),
{
    match t {
        TokenState::Missing => TokenPlan::FallThrough,
        TokenState::Invalid => TokenPlan::DeleteAndFallThrough,
        TokenState::Usable => TokenPlan::Resume,
    }
}

/// Outcome of one remote token-login attempt.
#[derive(Debug, Clone, Copy, PartialEq, Eq, Structural)]
pub enum TokenAttempt {
    /// The server accepted the token; the session is logged in.
    Accepted,
    /// The server answered, but not with success: it rejected the token.
    UnexpectedResponse,
    /// The transport failed before the server accepted.
    TransportFailed,
}

/// Judges a token-login attempt: an accepted token means logged in; any
/// rejection, whether the server refused the token or the transport failed,
/// means the token is deleted (it is never retried) and login falls through
/// to the credential method.
pub fn token_login_step(outcome: &TokenAttempt) -> (r: bool)
    ensures
        r == (*outcome == TokenAttempt::Accepted),
{
    match outcome {
        TokenAttempt::Accepted => true,
        TokenAttempt::UnexpectedResponse => false,
        TokenAttempt::TransportFailed => false,
    }
}

/// One server response within a credential login exchange.
#[derive(Debug)]
pub enum LoginEvent {
    /// Logged in.
    Success,
    /// The account is locked to known devices; verification happens at a URL.
    DeviceLocked { message: Option<String>, url: Option<String> },
    /// The server demands a slider-captcha ticket.
    NeedCaptcha { url: Option<String> },
    /// The server offers direct device-lock verification.
    DeviceLockLogin,
    /// The account is frozen.
    AccountFrozen,
    /// The server rate-limits SMS verification.
    TooManySmsRequest,
    /// Anything else.
    Unknown,
}

/// What the login driver must do after one response.
#[derive(Debug)]
pub enum LoginStep {
    /// The exchange is over; the session is logged in.
    Done,
    /// Obtain a captcha ticket from the user and submit it; feed the new
    /// response back.
    SubmitTicket,
    /// Ask the server for device-lock verification; feed the new response
    /// back.
    VerifyDeviceLock,
    /// The exchange failed for good.
    Fail(LoginError),
}

/// Decides one round of the credential login exchange.  Captcha and
/// device-lock rounds continue the exchange; a device-locked account, a
/// frozen account, SMS rate-limiting and unknown answers end it.
pub fn password_login_step(resp: LoginEvent) -> (r: LoginStep)
    ensures
        match resp {
            LoginEvent::Success => r is Done,
            LoginEvent::DeviceLocked { message, url } => r matches LoginStep::Fail(
                LoginError::DeviceLocked { message: m, url: u },
            ) && m@ == (match message {
                Some(s) => s@,
                None => Seq::<char>::empty(),
            }) && u@ == (match url {
                Some(s) => s@,
                None => Seq::<char>::empty(),
            }),
            LoginEvent::NeedCaptcha { .. } => r is SubmitTicket,
            LoginEvent::DeviceLockLogin => r is VerifyDeviceLock,
            LoginEvent::AccountFrozen => r matches LoginStep::Fail(LoginError::AccountFrozen),
            LoginEvent::TooManySmsRequest => r matches LoginStep::Fail(
                LoginError::TooManySmsRequest,
            ),
            LoginEvent::Unknown => r matches LoginStep::Fail(LoginError::RemoteException),
        },
{
    match resp {
        LoginEvent::Success => LoginStep::Done,
        LoginEvent::DeviceLocked { message, url } => {
            let m = match message {
                Some(s) => s,
                None => String::new(),
            };
            let u = match url {
                Some(s) => s,
                None => String::new(),
            };
            LoginStep::Fail(LoginError::DeviceLocked { message: m, url: u })
        },
        LoginEvent::NeedCaptcha { .. } => LoginStep::SubmitTicket,
        LoginEvent::DeviceLockLogin => LoginStep::VerifyDeviceLock,
        LoginEvent::AccountFrozen => LoginStep::Fail(LoginError::AccountFrozen),
        LoginEvent::TooManySmsRequest => LoginStep::Fail(LoginError::TooManySmsRequest),
        LoginEvent::Unknown => LoginStep::Fail(LoginError::RemoteException),
    }
}

/// One state of the QR code polling exchange, as the server reports it.
#[derive(Debug)]
pub enum QrCodeEvent {
    /// A fresh code image, with the signature later polls must present.
    ImageFetch { image_data: Vec<u8>, sig: Vec<u8> },
    /// Not scanned yet.
    WaitingForScan,
    /// Scanned, not confirmed yet.
    WaitingForConfirm,
    /// The code expired; a fresh one must be fetched.
    Timeout,
    /// Confirmed: these blobs log the session in.
    Confirmed { tmp_pwd: Vec<u8>, tmp_no_pic_sig: Vec<u8>, tgt_qr: Vec<u8> },
    /// The user cancelled.
    Canceled,
}

/// What the QR login driver must do after one polled state.
#[derive(Debug)]
pub enum QrStep {
    /// Show this image to the user, then wait and poll again.
    ShowImageThenPoll { image_data: Vec<u8> },
    /// Wait and poll again.
    Poll,
    /// Fetch a fresh code and feed its state back.
    Refetch,
    /// Submit these blobs as the login request.
    Login { tmp_pwd: Vec<u8>, tmp_no_pic_sig: Vec<u8>, tgt_qr: Vec<u8> },
    /// The exchange failed for good.
    Fail(LoginError),
}

/// The QR code polling exchange: remembers the signature of the code being
/// polled and decides each round.
pub struct QrSession {
    sig: Vec<u8>,
}

impl QrSession {
    /// The signature that polls present.
    pub closed spec fn sig_spec(&self) -> Seq<u8> {
        self.sig@
    }

    /// Starts an exchange; no code has been fetched yet.
    pub fn new() -> (r: Self)
        ensures
            r.sig_spec() == Seq::<u8>::empty(),
    {
        QrSession { sig: Vec::new() }
    }

    /// The signature to poll with.
    pub fn sig(&self) -> (r: &Vec<u8>)
        ensures
            r@ == self.sig_spec(),
    {
        &self.sig
    }

    /// Decides one round: a fresh image is shown and its signature kept for
    /// the following polls; waiting states poll again; an expired code is
    /// refetched; a confirmed code moves to the login request; a cancelled
    /// code ends the exchange.
    pub fn on_event(&mut self, ev: QrCodeEvent) -> (r: QrStep)
        ensures
            match ev {
                QrCodeEvent::ImageFetch { image_data, sig } => final(self).sig_spec() == sig@ && (
                r matches QrStep::ShowImageThenPoll { image_data: shown } && shown == image_data),
                QrCodeEvent::WaitingForScan => final(self).sig_spec() == old(self).sig_spec()
                    && r is Poll,
                QrCodeEvent::WaitingForConfirm => final(self).sig_spec() == old(self).sig_spec()
                    && r is Poll,
                QrCodeEvent::Timeout => final(self).sig_spec() == old(self).sig_spec()
                    && r is Refetch,
                QrCodeEvent::Confirmed { tmp_pwd, tmp_no_pic_sig, tgt_qr } => final(self).sig_spec() == old(self).sig_spec() && (r matches QrStep::Login {
                    tmp_pwd: p,
                    tmp_no_pic_sig: n,
                    tgt_qr: t,
                } && p == tmp_pwd && n == tmp_no_pic_sig && t == tgt_qr),
                QrCodeEvent::Canceled => final(self).sig_spec() == old(self).sig_spec() && (
                r matches QrStep::Fail(LoginError::QrCodeCancelled)),
            },
    {
        match ev {
            QrCodeEvent::ImageFetch { image_data, sig } => {
                self.sig = sig;
                QrStep::ShowImageThenPoll { image_data }
            },
            QrCodeEvent::WaitingForScan => QrStep::Poll,
            QrCodeEvent::WaitingForConfirm => QrStep::Poll,
            QrCodeEvent::Timeout => QrStep::Refetch,
            QrCodeEvent::Confirmed { tmp_pwd, tmp_no_pic_sig, tgt_qr } => QrStep::Login {
                tmp_pwd,
                tmp_no_pic_sig,
                tgt_qr,
            },
            QrCodeEvent::Canceled => QrStep::Fail(LoginError::QrCodeCancelled),
        }
    }
}

/// Judges the response to a submitted QR login: success logs the session in,
/// and the answer says whether the account is the expected one; anything
/// else is unexpected.  A device-lock offer must be resolved through
/// [`password_login_step`] before this judgement.
pub fn qr_login_result(resp: &LoginEvent, expected_uin: i64, actual_uin: i64) -> (r: Result<
    bool,
    LoginError,
>)
    requires
        !(resp is DeviceLockLogin),
    ensures
        match resp {
            LoginEvent::Success => r == Ok::<bool, LoginError>(expected_uin == actual_uin),
            _ => r matches Err(LoginError::RemoteException),
        },
{
    match resp {
        LoginEvent::Success => Ok(expected_uin == actual_uin),
        _ => Err(LoginError::RemoteException),
    }
}

/// What loading an existing device document guarantees: text that is not
/// JSON fails with the parse fault; the value tree the text denotes is read
/// exactly as [`device_from_doc`] reads it, with the account's generated
/// identity as the fallback, and a successful load needs no write-back.
pub open spec fn loaded_from_file(
    uin: i64,
    text: Seq<char>,
    r: Result<(DeviceIdentity, bool), LoginError>,
) -> bool {
    match crate::json::json_doc_of(text) {
        None => r matches Err(LoginError::Device(DeviceError::Parse)),
        Some(doc) => exists|fb: DeviceIdentity|
            (#[trigger] device_view(fb)) == random_device_view(uin) && (match r {
                Ok(p) => !p.1 && device_doc_result(doc, fb, Ok(p.0)),
                Err(e) => (e matches LoginError::Device(de) && device_doc_result(
                    doc,
                    fb,
                    Err(de),
                )),
            }),
    }
}

/// What session start does about the persisted device document: an existing
/// document is parsed with the account's generated identity as the
/// field-by-field fallback; a missing one is replaced by the generated
/// identity, which must then be written back.
pub fn load_device_plan(uin: i64, file: Option<&String>) -> (r: Result<
    (DeviceIdentity, bool),
    LoginError,
>)
    ensures
        file is None ==> (r matches Ok((d, must_write)) && must_write && device_view(d)
            == random_device_view(uin)),
        file matches Some(text) ==> loaded_from_file(uin, text@, r),
{
    match file {
        None => {
            let d = random_from_uin(uin);
            Ok((d, true))
        },
        Some(s) => {
            let fallback = random_from_uin(uin);
            let parsed = device_from_json(s.as_str(), &fallback);
            match parsed {
                Ok(d) => {
                    proof {
                        let ghost res = Ok::<(DeviceIdentity, bool), LoginError>((d, false));
                        let ghost doc = crate::json::json_doc_of(s@)->Some_0;
                        assert(device_doc_result(doc, fallback, Ok(res->Ok_0.0)));
                        assert(loaded_from_file(uin, s@, res));
                    }
                    Ok((d, false))
                },
                Err(e) => {
                    proof {
                        let ghost res = Err::<(DeviceIdentity, bool), LoginError>(
                            LoginError::Device(e),
                        );
                        if crate::json::json_doc_of(s@) is Some {
                            let ghost doc = crate::json::json_doc_of(s@)->Some_0;
                            assert(device_doc_result(doc, fallback, Err(e)));
                        }
                        assert(loaded_from_file(uin, s@, res));
                    }
                    Err(LoginError::Device(e))
                },
            }
        },
    }
}

/// The handle on the running connection.  It guards two hazards: the
/// underlying task handle can be consumed only once, and only one caller at
/// a time may wait or reconnect, with a fast busy failure instead of
/// queuing.
pub struct AliveHandle {
    has_task: bool,
    waiting: bool,
}

impl AliveHandle {
    /// Whether the background task handle is still unconsumed.
    pub closed spec fn has_task_spec(&self) -> bool {
        self.has_task
    }

    /// Whether a caller currently waits or reconnects.
    pub closed spec fn waiting_spec(&self) -> bool {
        self.waiting
    }

    /// A fresh handle over a just-spawned connection task.
    pub fn new() -> (r: Self)
        ensures
            r.has_task_spec(),
            !r.waiting_spec(),
    {
        AliveHandle { has_task: true, waiting: false }
    }

    /// Begins waiting until the connection ends.  A second concurrent wait
    /// fails at once with the busy error; otherwise the task handle is
    /// consumed, and `Ok(true)` tells the caller to await the real task
    /// (`Ok(false)`: it was already consumed, the wait ends at once).
    pub fn begin_alive(&mut self) -> (r: Result<bool, LoginError>)
        ensures
            old(self).waiting_spec() ==> (r matches Err(LoginError::Busy)) && *final(self) == *old(self),
            !old(self).waiting_spec() ==> r == Ok::<bool, LoginError>(old(self).has_task_spec())
                && final(self).waiting_spec() && !final(self).has_task_spec(),
    {
        if self.waiting {
            Err(LoginError::Busy)
        } else {
            let had = self.has_task;
            self.waiting = true;
            self.has_task = false;
            Ok(had)
        }
    }

    /// The wait ended: the connection task finished (or there was none).
    pub fn end_alive(&mut self)
        requires
            old(self).waiting_spec(),
        ensures
            !final(self).waiting_spec(),
            final(self).has_task_spec() == old(self).has_task_spec(),
    {
        self.waiting = false;
    }

    /// Begins a reconnect.  A concurrent wait or reconnect fails at once
    /// with the busy error; otherwise `Ok(true)` tells the caller to run the
    /// reconnect loop (`Ok(false)`: the task still runs, nothing to do).
    pub fn begin_reconnect(&mut self) -> (r: Result<bool, LoginError>)
        ensures
            old(self).waiting_spec() ==> (r matches Err(LoginError::Busy)) && *final(self) == *old(self),
            !old(self).waiting_spec() ==> r == Ok::<bool, LoginError>(!old(self).has_task_spec())
                && final(self).waiting_spec() && final(self).has_task_spec() == old(self).has_task_spec(),
    {
        if self.waiting {
            Err(LoginError::Busy)
        } else {
            self.waiting = true;
            Ok(!self.has_task)
        }
    }

    /// The reconnect ended; on success a fresh task handle is installed.
    pub fn end_reconnect(&mut self, succeeded: bool)
        requires
            old(self).waiting_spec(),
        ensures
            !final(self).waiting_spec(),
            final(self).has_task_spec() == (old(self).has_task_spec() || succeeded),
    {
        self.waiting = false;
        if succeeded {
            self.has_task = true;
        }
    }
}

/// Retries the bounded reconnect loop may spend after the first attempt.
pub const RECONNECT_RETRIES: u32 = 10;

/// Drives one reconnect: gate on the disconnect cause, require the persisted
/// token (there is no credential fallback mid-reconnect), fast-resume, and
/// retry transient failures within a fixed budget.
pub struct Reconnector {
    attempts_left: u32,
}

impl Reconnector {
    /// Retries still available.
    pub closed spec fn attempts_left_spec(&self) -> u32 {
        self.attempts_left
    }

    /// A fresh reconnect with the full retry budget.
    pub fn new() -> (r: Self)
        ensures
            r.attempts_left_spec() == RECONNECT_RETRIES,
    {
        Reconnector { attempts_left: RECONNECT_RETRIES }
    }

    /// Gate at the start of every attempt: only a network drop is ever
    /// retried; a forced logout, kick or manual stop aborts reconnection
    /// permanently, before any retry is spent.
    pub fn check_status(&self, status: &ConnectionStatus) -> (r: Result<(), LoginError>)
        ensures
            *status == ConnectionStatus::NetworkOffline <==> r is Ok,
            !(*status == ConnectionStatus::NetworkOffline) ==> (r matches Err(
                LoginError::ReconnectAborted { message },
            ) && message@ == "the connection was closed for a reason other than network failure; not reconnecting"@),
    {
        if *status == ConnectionStatus::NetworkOffline {
            Ok(())
        } else {
            Err(
                LoginError::ReconnectAborted {
                    message:
                        "the connection was closed for a reason other than network failure; not reconnecting".to_owned(),
                },
            )
        }
    }

    /// Gate on the persisted token: fast resume needs it, and a missing or
    /// unparsable token aborts reconnection permanently.
    pub fn check_token(&self, t: &TokenState) -> (r: Result<(), LoginError>)
        ensures
            *t == TokenState::Usable <==> r is Ok,
            *t == TokenState::Missing ==> (r matches Err(LoginError::ReconnectAborted { message })
                && message@ == "reconnect needs the persisted token, and none was found"@),
            *t == TokenState::Invalid ==> (r matches Err(LoginError::ReconnectAborted { message })
                && message@ == "reconnect needs the persisted token, and it could not be parsed"@),
    {
        match t {
            TokenState::Usable => Ok(()),
            TokenState::Missing => Err(
                LoginError::ReconnectAborted {
                    message: "reconnect needs the persisted token, and none was found".to_owned(),
                },
            ),
            TokenState::Invalid => Err(
                LoginError::ReconnectAborted {
                    message: "reconnect needs the persisted token, and it could not be parsed".to_owned(),
                },
            ),
        }
    }

    /// Both gates of one attempt: the attempt proceeds to the fast resume
    /// exactly when the drop was a network failure and the token is usable.
    /// No other step exists: reconnect never reaches for credentials.
    pub fn plan_attempt(&self, status: &ConnectionStatus, t: &TokenState) -> (r: Result<
        (),
        LoginError,
    >)
        ensures
            r is Ok <==> (*status == ConnectionStatus::NetworkOffline && *t == TokenState::Usable),
            !(*status == ConnectionStatus::NetworkOffline) ==> r matches Err(
                LoginError::ReconnectAborted { .. },
            ),
            *status == ConnectionStatus::NetworkOffline && !(*t == TokenState::Usable)
                ==> r matches Err(LoginError::ReconnectAborted { .. }),
    {
        match self.check_status(status) {
            Ok(_) => self.check_token(t),
            Err(e) => Err(e),
        }
    }

    /// A transient failure (transport or resume): spend one retry, or hand
    /// the failure to the caller once the budget is exhausted.
    pub fn on_transient_failure(&mut self, err: LoginError) -> (r: Result<(), LoginError>)
        ensures
            old(self).attempts_left_spec() == 0 ==> (r matches Err(e) && e == err) && *final(self)
                == *old(self),
            old(self).attempts_left_spec() > 0 ==> r is Ok && final(self).attempts_left_spec()
                == old(self).attempts_left_spec() - 1,
    {
        if self.attempts_left == 0 {
            Err(err)
        } else {
            self.attempts_left = self.attempts_left - 1;
            Ok(())
        }
    }
}

} // verus!
