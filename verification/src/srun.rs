//! The session with the access controller: its parameters, the requests it sends and
//! the decisions it takes on what comes back.
//!
//! The library performs no input or output. A login or a logout is driven from outside:
//! the driver hands an [`Event`] to [`SrunClient::login_step`] or
//! [`SrunClient::logout_step`], carries out the [`Action`] that comes back, and reports
//! what happened as the next event, until the action is [`Action::Done`].

use crate::digest::{checksum, checksum_text, password_hash, password_hash_text};
use crate::file::Config;
use crate::text::{decimal, decimal_i32, decimal_u64};
use crate::user::User;
use crate::utils::get_ip_by_if_name;
use crate::xencode::{param_i, param_i_text};
use vstd::prelude::*;
use vstd::slice::slice_subrange;
use vstd::string::StringSliceAdditionalSpecFns;

verus! {

/// The path of the endpoint that issues challenge tokens.
pub const PATH_GET_CHALLENGE: &'static str = "/cgi-bin/get_challenge";

/// The path of the endpoint that grants and withdraws access.
pub const PATH_PORTAL: &'static str = "/cgi-bin/srun_portal";

/// The name of the function in which the controller wraps its answers.
pub const CALLBACK: &'static str = "sdu";

/// The host and port whose reachability tells that the network is open already.
pub const PROBE_TARGET: &'static str = "baidu.com:80";

/// The time that the probe may take to connect, in seconds.
pub const PROBE_TIMEOUT_SECS: u64 = 3;

/// The time that a request sent from a bound local address may take to connect, in
/// seconds.
pub const CONNECT_TIMEOUT_SECS: u64 = 3;

/// Why a login or a logout ended without an answer from the portal endpoint.
#[derive(Debug, Clone, Copy, PartialEq, Eq, Structural)]
pub enum SrunError {
    /// The controller's answer to the challenge request held no token.
    GetChallengeFailed,
    /// No address is known and none is to be detected.
    IpUndefinedError,
    /// An answer is too short to be a wrapped JSON text.
    MalformedResponse,
    /// A request could not be sent, or its answer could not be read.
    RequestFailed,
    /// An event arrived that the session was not waiting for.
    OutOfTurn,
}

impl SrunError {
    /// A short description of the error.
    pub fn message(&self) -> (text: String)
        ensures
            text@ == match *self {
                SrunError::GetChallengeFailed => "GetChallengeFailed"@,
                SrunError::IpUndefinedError => "IpUndefinedError"@,
                SrunError::MalformedResponse => "MalformedResponse"@,
                SrunError::RequestFailed => "RequestFailed"@,
                SrunError::OutOfTurn => "OutOfTurn"@,
            },
    {
        match self {
            SrunError::GetChallengeFailed => String::from_str("GetChallengeFailed"),
            SrunError::IpUndefinedError => String::from_str("IpUndefinedError"),
            SrunError::MalformedResponse => String::from_str("MalformedResponse"),
            SrunError::RequestFailed => String::from_str("RequestFailed"),
            SrunError::OutOfTurn => String::from_str("OutOfTurn"),
        }
    }
}

/// The controller's answer to a challenge request.
#[derive(Debug, Clone, PartialEq, Eq)]
pub struct Challenge {
    /// The one-time token; `None` where the controller issued none.
    pub token: Option<String>,
    /// The client's address as the controller sees it; may be empty.
    pub client_ip: String,
}

/// The controller's answer to a portal request.
#[derive(Debug, Clone, PartialEq, Eq)]
pub struct PortalResult {
    /// The access token; access was granted where it is not empty.
    pub access_token: String,
    /// What else the controller reported, as names and values. Nothing here is read.
    pub extra: Vec<(String, String)>,
}

/// One HTTP GET request.
#[derive(Debug, Clone, PartialEq, Eq)]
pub struct Request {
    /// The address of the endpoint.
    pub url: String,
    /// The query parameters, in the order in which they are sent.
    pub query: Vec<(String, String)>,
    /// The local address from which the connection must be made, if any.
    pub bind: Option<String>,
}

/// A request as plain text.
pub struct RequestView {
    pub url: Seq<char>,
    pub query: Seq<(Seq<char>, Seq<char>)>,
    pub bind: Option<Seq<char>>,
}

/// The names and values of `query` as plain text.
pub open spec fn pairs_text(query: Seq<(String, String)>) -> Seq<(Seq<char>, Seq<char>)> {
    Seq::new(query.len(), |i: int| (query[i].0@, query[i].1@))
}

impl View for Request {
    type V = RequestView;

    open spec fn view(&self) -> RequestView {
        RequestView {
            url: self.url@,
            query: pairs_text(self.query@),
            bind: match self.bind {
                Some(ip) => Some(ip@),
                None => None,
            },
        }
    }
}

/// How a login or a logout ended.
#[derive(Debug, Clone, PartialEq, Eq)]
pub enum Outcome {
    /// The probe reached its target: the network is open, the controller was not asked.
    AlreadyOnline,
    /// The controller granted access: the answer holds an access token.
    Granted(PortalResult),
    /// Every attempt was answered without an access token. Holds the last answer, or
    /// `None` where no attempt was allowed.
    Exhausted(Option<PortalResult>),
    /// The controller answered the logout request.
    LoggedOut(PortalResult),
    /// The session ended before the portal endpoint answered.
    Failed(SrunError),
}

/// What the driver reports to the session.
#[derive(Debug, Clone, PartialEq, Eq)]
pub enum Event {
    /// The login or logout is to begin.
    Begin,
    /// The probe ended; `true` where its target was reached.
    Probe(bool),
    /// The challenge endpoint answered.
    Challenge(Challenge),
    /// The portal endpoint answered.
    Portal(PortalResult),
    /// The request that is under way could not be sent, or its answer could not be
    /// read.
    RequestFailed,
    /// The pause is over.
    Slept,
}

/// What the session asks the driver to do next.
#[derive(Debug, Clone, PartialEq, Eq)]
pub enum Action {
    /// Try to connect to `PROBE_TARGET` and report `Event::Probe`.
    Probe,
    /// Send the request to the challenge endpoint and report `Event::Challenge`, or
    /// `Event::RequestFailed` where no answer can be had or read.
    Challenge(Request),
    /// Send the request to the portal endpoint and report `Event::Portal`, or
    /// `Event::RequestFailed` where no answer can be had or read.
    Portal(Request),
    /// Pause for so many milliseconds and report `Event::Slept`.
    Sleep(u32),
    /// Nothing more: the login or logout ended.
    Done(Outcome),
}

/// An action with its request as plain text.
pub enum ActionView {
    Probe,
    Challenge(RequestView),
    Portal(RequestView),
    Sleep(u32),
    Done(Outcome),
}

impl View for Action {
    type V = ActionView;

    open spec fn view(&self) -> ActionView {
        match *self {
            Action::Probe => ActionView::Probe,
            Action::Challenge(request) => ActionView::Challenge(request@),
            Action::Portal(request) => ActionView::Portal(request@),
            Action::Sleep(millis) => ActionView::Sleep(millis),
            Action::Done(outcome) => ActionView::Done(outcome),
        }
    }
}

/// Where a session stands in a login or a logout.
#[derive(Debug, Clone, Copy, PartialEq, Eq, Structural)]
pub enum Phase {
    /// Nothing was asked for yet.
    Idle,
    /// The probe is under way.
    Probing,
    /// The challenge request is under way.
    AwaitChallenge,
    /// A portal request is under way.
    AwaitPortal,
    /// The pause after a refused attempt is under way.
    Sleeping,
    /// The login or logout ended.
    Finished,
}

/// A session as plain values: its parameters, and what it holds while a login or a
/// logout is under way.
pub struct Session {
    pub auth_server: Seq<char>,
    pub username: Seq<char>,
    pub password: Seq<char>,
    pub ip: Seq<char>,
    pub detect_ip: bool,
    pub strict_bind: bool,
    /// The pause after a refused attempt, in milliseconds.
    pub retry_delay: u32,
    /// The number of portal requests that a login may send.
    pub retry_times: u32,
    pub test_before_login: bool,
    pub acid: i32,
    pub double_stack: i32,
    pub os: Seq<char>,
    pub name: Seq<char>,
    /// The challenge token of the current login or logout.
    pub token: Seq<char>,
    pub n: i32,
    pub stype: i32,
    /// The time stamp of the challenge request, in seconds since the epoch; every
    /// attempt of the login repeats it.
    pub time: u64,
    pub phase: Phase,
    /// The number of portal requests sent so far in this login.
    pub attempts: u32,
    /// The password hash, the encoded payload and the checksum of this login.
    pub password_hash: Seq<char>,
    pub info: Seq<char>,
    pub chksum: Seq<char>,
    /// The last answer of the portal endpoint, while the pause after it lasts.
    pub last: Option<PortalResult>,
}

impl Session {
    /// The session with the default parameters, for the given server, account and
    /// address: access controller 12, `n` 200, `type` 1, the names of a Windows device,
    /// ten attempts with 300 milliseconds between them; every switch off, and nothing
    /// under way.
    pub open spec fn fresh(
        auth_server: Seq<char>,
        username: Seq<char>,
        password: Seq<char>,
        ip: Seq<char>,
    ) -> Session {
        Session {
            auth_server,
            username,
            password,
            ip,
            detect_ip: false,
            strict_bind: false,
            retry_delay: 300,
            retry_times: 10,
            test_before_login: false,
            acid: 12,
            double_stack: 0,
            os: "Windows 10"@,
            name: "Windows"@,
            token: Seq::empty(),
            n: 200,
            stype: 1,
            time: 0,
            phase: Phase::Idle,
            attempts: 0,
            password_hash: Seq::empty(),
            info: Seq::empty(),
            chksum: Seq::empty(),
            last: None,
        }
    }

    /// The session with the settings of a batch applied: the three switches as the
    /// settings have them, and each parameter that the settings name.
    pub open spec fn configured(self, config: Config) -> Session {
        Session {
            detect_ip: config.detect_ip,
            strict_bind: config.strict_bind,
            double_stack: if config.double_stack {
                1i32
            } else {
                0i32
            },
            n: match config.n {
                Some(n) => n,
                None => self.n,
            },
            stype: match config.utype {
                Some(utype) => utype,
                None => self.stype,
            },
            acid: match config.acid {
                Some(acid) => acid,
                None => self.acid,
            },
            os: match config.os {
                Some(os) => os@,
                None => self.os,
            },
            name: match config.name {
                Some(name) => name@,
                None => self.name,
            },
            retry_delay: match config.retry_delay {
                Some(retry_delay) => retry_delay,
                None => self.retry_delay,
            },
            retry_times: match config.retry_times {
                Some(retry_times) => retry_times,
                None => self.retry_times,
            },
            ..self
        }
    }

    /// The local address that requests must be sent from: the session's address where
    /// strict binding is on and the address is known.
    pub open spec fn bind_address(self) -> Option<Seq<char>> {
        if self.strict_bind && self.ip.len() > 0 {
            Some(self.ip)
        } else {
            None
        }
    }

    /// The request for a challenge token.
    pub open spec fn challenge_request(self) -> RequestView {
        RequestView {
            url: self.auth_server + PATH_GET_CHALLENGE@,
            query: seq![
                ("callback"@, CALLBACK@),
                ("username"@, self.username),
                ("ip"@, self.ip),
                ("_"@, decimal(self.time as int)),
            ],
            bind: self.bind_address(),
        }
    }

    /// The login request. Every attempt of a login sends the same.
    pub open spec fn login_request(self) -> RequestView {
        RequestView {
            url: self.auth_server + PATH_PORTAL@,
            query: seq![
                ("callback"@, CALLBACK@),
                ("action"@, "login"@),
                ("username"@, self.username),
                ("password"@, "{MD5}"@ + self.password_hash),
                ("ip"@, self.ip),
                ("ac_id"@, decimal(self.acid as int)),
                ("n"@, decimal(self.n as int)),
                ("type"@, decimal(self.stype as int)),
                ("os"@, self.os),
                ("name"@, self.name),
                ("double_stack"@, decimal(self.double_stack as int)),
                ("info"@, self.info),
                ("chksum"@, self.chksum),
                ("_"@, decimal(self.time as int)),
            ],
            bind: self.bind_address(),
        }
    }

    /// The logout request, stamped with the time `now`.
    pub open spec fn logout_request(self, now: u64) -> RequestView {
        RequestView {
            url: self.auth_server + PATH_PORTAL@,
            query: seq![
                ("callback"@, CALLBACK@),
                ("action"@, "logout"@),
                ("username"@, self.username),
                ("ip"@, self.ip),
                ("ac_id"@, decimal(self.acid as int)),
                ("_"@, decimal(now as int)),
            ],
            bind: self.bind_address(),
        }
    }

    /// The session ended, with the given outcome.
    pub open spec fn finish(self, outcome: Outcome) -> (Session, ActionView) {
        (Session { phase: Phase::Finished, last: None, ..self }, ActionView::Done(outcome))
    }

    /// The challenge is asked for at the time `now`: the request is stamped two seconds
    /// earlier. Where no address is known and none is to be detected, nothing is sent
    /// and the session fails.
    pub open spec fn issue_challenge(self, now: u64) -> (Session, ActionView) {
        if !self.detect_ip && self.ip.len() == 0 {
            self.finish(Outcome::Failed(SrunError::IpUndefinedError))
        } else {
            let next = Session { time: (now - 2) as u64, phase: Phase::AwaitChallenge, ..self };
            (next, ActionView::Challenge(next.challenge_request()))
        }
    }

    /// The session after a challenge with the token `token` was taken in: the token is
    /// kept, and the address that the controller saw replaces the session's own where
    /// detection is on and the controller named one.
    pub open spec fn accept_challenge(self, token: Seq<char>, client_ip: Seq<char>) -> Session {
        Session {
            token,
            ip: if self.detect_ip && client_ip.len() > 0 {
                client_ip
            } else {
                self.ip
            },
            ..self
        }
    }

    /// The session with the password hash, the encoded payload and the checksum of its
    /// token and credentials.
    pub open spec fn sealed(self) -> Session {
        let password_hash = password_hash_text(self.token, self.password);
        let info = param_i_text(
            self.username,
            self.password,
            self.ip,
            self.acid as int,
            self.token,
        );
        Session {
            password_hash,
            info,
            chksum: checksum_text(
                self.token,
                self.username,
                password_hash,
                self.acid as int,
                self.ip,
                self.n as int,
                self.stype as int,
                info,
            ),
            ..self
        }
    }

    /// The session after the challenge was taken in, on its way to the first attempt.
    pub open spec fn first_attempt(self) -> (Session, ActionView) {
        if self.ip.len() == 0 {
            self.finish(Outcome::Failed(SrunError::IpUndefinedError))
        } else if self.retry_times == 0 {
            self.sealed().finish(Outcome::Exhausted(None))
        } else {
            let next = Session { phase: Phase::AwaitPortal, attempts: 1, ..self.sealed() };
            (next, ActionView::Portal(next.login_request()))
        }
    }

    /// Whether what the session holds fits the phase of the login it is in: while
    /// attempts are under way, at least one was made and no more than `retry_times`;
    /// and an answer is kept during the pause that follows it, and at no other time.
    pub open spec fn in_order(self) -> bool {
        &&& self.phase == Phase::AwaitPortal || self.phase == Phase::Sleeping ==> 1
            <= self.attempts <= self.retry_times
        &&& self.phase == Phase::Sleeping <==> self.last is Some
    }

    /// One step of a login: the session after `event`, and the action it asks for.
    ///
    /// A login begins with the probe where that is switched on, and ends at once where
    /// the probe's target is reached. Else the challenge is asked for. Its answer must
    /// hold a token, and after it an address must be known. Then the portal is asked, up
    /// to `retry_times` times with the same request, with a pause of `retry_delay`
    /// milliseconds after each answer without an access token. The first answer with a
    /// token ends the login as granted; when no attempt is left it ends as exhausted,
    /// with the last answer. A request that fails ends the login at once, whichever
    /// request it is: only an answer without an access token is tried again. An event
    /// that the session is not waiting for ends it.
    pub open spec fn login_step(self, event: Event, now: u64) -> (Session, ActionView) {
        match (self.phase, event) {
            (Phase::Idle, Event::Begin) | (Phase::Finished, Event::Begin) => {
                let start = Session { attempts: 0, last: None, ..self };
                if self.test_before_login {
                    (Session { phase: Phase::Probing, ..start }, ActionView::Probe)
                } else {
                    start.issue_challenge(now)
                }
            },
            (Phase::Probing, Event::Probe(reachable)) => {
                if reachable {
                    self.finish(Outcome::AlreadyOnline)
                } else {
                    self.issue_challenge(now)
                }
            },
            (Phase::AwaitChallenge, Event::Challenge(challenge)) => {
                match challenge.token {
                    None => self.finish(Outcome::Failed(SrunError::GetChallengeFailed)),
                    Some(token) => self.accept_challenge(
                        token@,
                        challenge.client_ip@,
                    ).first_attempt(),
                }
            },
            (Phase::AwaitPortal, Event::Portal(result)) => {
                if result.access_token@.len() > 0 {
                    self.finish(Outcome::Granted(result))
                } else {
                    (
                        Session { phase: Phase::Sleeping, last: Some(result), ..self },
                        ActionView::Sleep(self.retry_delay),
                    )
                }
            },
            (Phase::Sleeping, Event::Slept) => {
                if self.attempts < self.retry_times {
                    let next = Session {
                        phase: Phase::AwaitPortal,
                        attempts: (self.attempts + 1) as u32,
                        last: None,
                        ..self
                    };
                    (next, ActionView::Portal(next.login_request()))
                } else {
                    self.finish(Outcome::Exhausted(self.last))
                }
            },
            (Phase::AwaitChallenge, Event::RequestFailed)
            | (Phase::AwaitPortal, Event::RequestFailed) => self.finish(
                Outcome::Failed(SrunError::RequestFailed),
            ),
            _ => self.finish(Outcome::Failed(SrunError::OutOfTurn)),
        }
    }

    /// One step of a logout: the session after `event`, and the action it asks for.
    ///
    /// A logout asks for a challenge first where the address is to be detected, and
    /// only then. The portal is asked once, with a request stamped `now`, and its
    /// answer ends the logout. A request that fails ends it too.
    pub open spec fn logout_step(self, event: Event, now: u64) -> (Session, ActionView) {
        match (self.phase, event) {
            (Phase::Idle, Event::Begin) | (Phase::Finished, Event::Begin) => {
                let start = Session { attempts: 0, last: None, ..self };
                if self.detect_ip {
                    start.issue_challenge(now)
                } else {
                    let next = Session { phase: Phase::AwaitPortal, ..start };
                    (next, ActionView::Portal(next.logout_request(now)))
                }
            },
            (Phase::AwaitChallenge, Event::Challenge(challenge)) => {
                match challenge.token {
                    None => self.finish(Outcome::Failed(SrunError::GetChallengeFailed)),
                    Some(token) => {
                        let next = Session {
                            phase: Phase::AwaitPortal,
                            ..self.accept_challenge(token@, challenge.client_ip@)
                        };
                        (next, ActionView::Portal(next.logout_request(now)))
                    },
                }
            },
            (Phase::AwaitPortal, Event::Portal(result)) => self.finish(Outcome::LoggedOut(result)),
            (Phase::AwaitChallenge, Event::RequestFailed)
            | (Phase::AwaitPortal, Event::RequestFailed) => self.finish(
                Outcome::Failed(SrunError::RequestFailed),
            ),
            _ => self.finish(Outcome::Failed(SrunError::OutOfTurn)),
        }
    }
}

/// The text between the wrapping of a controller's answer: `body` without the name of
/// a callback of `callback_len` bytes, the bracket after it and the bracket at the end.
pub open spec fn unwrapped(body: Seq<u8>, callback_len: nat) -> Seq<u8> {
    body.subrange(callback_len as int + 1, body.len() - 1)
}

/// Takes the JSON text out of an answer that wraps it in a call of `callback`. The
/// wrapping is cut off by its length and not read; an answer too short to hold it is
/// malformed.
pub fn strip_jsonp<'a>(body: &'a [u8], callback: &str) -> (payload: Result<&'a [u8], SrunError>)
    ensures
        callback.spec_bytes().len() + 2 <= body@.len() ==> payload is Ok && payload->Ok_0@
            == unwrapped(body@, callback.spec_bytes().len()),
        callback.spec_bytes().len() + 2 > body@.len() ==> payload == Err::<&[u8], SrunError>(
            SrunError::MalformedResponse,
        ),
{
    let name: &[u8] = callback.as_bytes();
    if body.len() < 2 || name.len() > body.len() - 2 {
        return Err(SrunError::MalformedResponse);
    }
    Ok(slice_subrange(body, name.len() + 1, body.len() - 1))
}

/// A session with the access controller. The type has no `Debug` form, so that the
/// password is not written out by accident.
pub struct SrunClient {
    auth_server: String,
    username: String,
    password: String,
    ip: String,
    detect_ip: bool,
    strict_bind: bool,
    retry_delay: u32,
    retry_times: u32,
    test_before_login: bool,
    acid: i32,
    double_stack: i32,
    os: String,
    name: String,
    token: String,
    n: i32,
    stype: i32,
    time: u64,
    phase: Phase,
    attempts: u32,
    password_hash: String,
    info: String,
    chksum: String,
    last: Option<PortalResult>,
}

impl View for SrunClient {
    type V = Session;

    closed spec fn view(&self) -> Session {
        Session {
            auth_server: self.auth_server@,
            username: self.username@,
            password: self.password@,
            ip: self.ip@,
            detect_ip: self.detect_ip,
            strict_bind: self.strict_bind,
            retry_delay: self.retry_delay,
            retry_times: self.retry_times,
            test_before_login: self.test_before_login,
            acid: self.acid,
            double_stack: self.double_stack,
            os: self.os@,
            name: self.name@,
            token: self.token@,
            n: self.n,
            stype: self.stype,
            time: self.time,
            phase: self.phase,
            attempts: self.attempts,
            password_hash: self.password_hash@,
            info: self.info@,
            chksum: self.chksum@,
            last: self.last,
        }
    }
}

impl Default for SrunClient {
    /// The session with the default parameters and no server, account or address.
    fn default() -> (client: Self)
        ensures
            client@ == Session::fresh(
                Seq::<char>::empty(),
                Seq::<char>::empty(),
                Seq::<char>::empty(),
                Seq::<char>::empty(),
            ),
    {
        SrunClient::with_defaults(String::new(), String::new(), String::new(), String::new())
    }
}

/// The address of a new session: the account's own where it has one, else what the
/// lookup by interface name gave, else none.
pub open spec fn resolved_ip(own: Option<String>, looked_up: Option<String>) -> Seq<char> {
    match own {
        Some(ip) => ip@,
        None => match looked_up {
            Some(ip) => ip@,
            None => Seq::empty(),
        },
    }
}

/// Settles the address of a new session from the account's own address and the result
/// of the lookup by interface name.
pub fn resolve_ip(own: Option<String>, looked_up: Option<String>) -> (ip: String)
    ensures
        ip@ == resolved_ip(own, looked_up),
{
    match own {
        Some(ip) => ip,
        None => match looked_up {
            Some(ip) => ip,
            None => String::new(),
        },
    }
}

impl SrunClient {
    /// A session with the default parameters.
    fn with_defaults(auth_server: String, username: String, password: String, ip: String) -> (client:
        Self)
        ensures
            client@ == Session::fresh(auth_server@, username@, password@, ip@),
    {
        Self {
            auth_server,
            username,
            password,
            ip,
            detect_ip: false,
            strict_bind: false,
            retry_delay: 300,
            retry_times: 10,
            test_before_login: false,
            acid: 12,
            double_stack: 0,
            os: String::from_str("Windows 10"),
            name: String::from_str("Windows"),
            token: String::new(),
            n: 200,
            stype: 1,
            time: 0,
            phase: Phase::Idle,
            attempts: 0,
            password_hash: String::new(),
            info: String::new(),
            chksum: String::new(),
            last: None,
        }
    }

    /// A session for logging in as `username` at the address `ip`, with the default
    /// parameters.
    pub fn new(auth_server: &str, username: &str, password: &str, ip: &str) -> (client: Self)
        ensures
            client@ == Session::fresh(auth_server@, username@, password@, ip@),
    {
        Self::with_defaults(
            String::from_str(auth_server),
            String::from_str(username),
            String::from_str(password),
            String::from_str(ip),
        )
    }

    /// A session for logging `user` in, with the default parameters. The address is the
    /// account's own; an account without one gets the address of the interface that it
    /// names, or the empty address where the host has no such interface.
    pub fn new_from_user(auth_server: &str, user: User) -> (client: Self)
        requires
            user.ip is Some || user.if_name is Some,
        ensures
            client@ == Session::fresh(auth_server@, user.username@, user.password@, client@.ip),
            user.ip is Some ==> client@.ip == user.ip->0@,
    {
        let looked_up = match &user.ip {
            Some(_) => None,
            None => match &user.if_name {
                Some(if_name) => get_ip_by_if_name(if_name.as_str()),
                None => None,
            },
        };
        let ip = resolve_ip(user.ip, looked_up);
        Self::new(auth_server, user.username.as_str(), user.password.as_str(), ip.as_str())
    }

    /// A session for logging `username` out at the address `ip`: the default
    /// parameters, and no password.
    pub fn new_for_logout(auth_server: &str, username: &str, ip: &str) -> (client: Self)
        ensures
            client@ == Session::fresh(auth_server@, username@, Seq::<char>::empty(), ip@),
    {
        Self::with_defaults(
            String::from_str(auth_server),
            String::from_str(username),
            String::new(),
            String::from_str(ip),
        )
    }

    /// Switches the detection of the address on or off.
    pub fn set_detect_ip(self, b: bool) -> (client: Self)
        ensures
            client@ == (Session { detect_ip: b, ..self@ }),
    {
        let mut client = self;
        client.detect_ip = b;
        client
    }

    /// Switches strict binding on or off.
    pub fn set_strict_bind(self, b: bool) -> (client: Self)
        ensures
            client@ == (Session { strict_bind: b, ..self@ }),
    {
        let mut client = self;
        client.strict_bind = b;
        client
    }

    /// Sets the double-stack parameter to 1 or 0.
    pub fn set_double_stack(self, b: bool) -> (client: Self)
        ensures
            client@ == (Session { double_stack: if b { 1i32 } else { 0i32 }, ..self@ }),
    {
        let mut client = self;
        client.double_stack = if b {
            1
        } else {
            0
        };
        client
    }

    /// Sets the identifier of the access controller.
    pub fn set_acid(&mut self, acid: i32)
        ensures
            final(self)@ == (Session { acid, ..old(self)@ }),
    {
        self.acid = acid;
    }

    /// Sets the parameter `n`.
    pub fn set_n(&mut self, n: i32)
        ensures
            final(self)@ == (Session { n, ..old(self)@ }),
    {
        self.n = n;
    }

    /// Sets the parameter `type`.
    pub fn set_type(&mut self, stype: i32)
        ensures
            final(self)@ == (Session { stype, ..old(self)@ }),
    {
        self.stype = stype;
    }

    /// Sets the name of the operating system that is reported.
    pub fn set_os(&mut self, os: &str)
        ensures
            final(self)@ == (Session { os: os@, ..old(self)@ }),
    {
        self.os = String::from_str(os);
    }

    /// Sets the name of the device that is reported.
    pub fn set_name(&mut self, name: &str)
        ensures
            final(self)@ == (Session { name: name@, ..old(self)@ }),
    {
        self.name = String::from_str(name);
    }

    /// Sets the pause after a refused attempt, in milliseconds.
    pub fn set_retry_delay(&mut self, d: u32)
        ensures
            final(self)@ == (Session { retry_delay: d, ..old(self)@ }),
    {
        self.retry_delay = d;
    }

    /// Sets the number of attempts that a login may make.
    pub fn set_retry_times(&mut self, t: u32)
        ensures
            final(self)@ == (Session { retry_times: t, ..old(self)@ }),
    {
        self.retry_times = t;
    }

    /// Applies the settings of a batch to the session: the three switches as they are,
    /// and each parameter that the settings name.
    pub fn configure(self, config: &Config) -> (client: Self)
        ensures
            client@ == self@.configured(*config),
    {
        let mut client = self.set_detect_ip(config.detect_ip).set_strict_bind(
            config.strict_bind,
        ).set_double_stack(config.double_stack);
        match config.n {
            Some(n) => client.set_n(n),
            None => {},
        }
        match config.utype {
            Some(utype) => client.set_type(utype),
            None => {},
        }
        match config.acid {
            Some(acid) => client.set_acid(acid),
            None => {},
        }
        match &config.os {
            Some(os) => client.set_os(os.as_str()),
            None => {},
        }
        match &config.name {
            Some(name) => client.set_name(name.as_str()),
            None => {},
        }
        match config.retry_delay {
            Some(retry_delay) => client.set_retry_delay(retry_delay),
            None => {},
        }
        match config.retry_times {
            Some(retry_times) => client.set_retry_times(retry_times),
            None => {},
        }
        client
    }

    /// Switches the probe before a login on or off.
    pub fn set_test_before_login(self, b: bool) -> (client: Self)
        ensures
            client@ == (Session { test_before_login: b, ..self@ }),
    {
        let mut client = self;
        client.test_before_login = b;
        client
    }
}

impl SrunClient {
    /// The address of the server.
    pub fn auth_server(&self) -> (out: &str)
        ensures
            out@ == self@.auth_server,
    {
        self.auth_server.as_str()
    }

    /// The account name.
    pub fn username(&self) -> (out: &str)
        ensures
            out@ == self@.username,
    {
        self.username.as_str()
    }

    /// The password.
    pub fn password(&self) -> (out: &str)
        ensures
            out@ == self@.password,
    {
        self.password.as_str()
    }

    /// The address that is authenticated; empty while unknown.
    pub fn ip(&self) -> (out: &str)
        ensures
            out@ == self@.ip,
    {
        self.ip.as_str()
    }

    /// The name of the operating system that is reported.
    pub fn os(&self) -> (out: &str)
        ensures
            out@ == self@.os,
    {
        self.os.as_str()
    }

    /// The name of the device that is reported.
    pub fn name(&self) -> (out: &str)
        ensures
            out@ == self@.name,
    {
        self.name.as_str()
    }

    /// The challenge token of the current login or logout.
    pub fn token(&self) -> (out: &str)
        ensures
            out@ == self@.token,
    {
        self.token.as_str()
    }

    /// Whether the address is to be detected.
    pub fn detect_ip(&self) -> (out: bool)
        ensures
            out == self@.detect_ip,
    {
        self.detect_ip
    }

    /// Whether requests must be sent from the session's address.
    pub fn strict_bind(&self) -> (out: bool)
        ensures
            out == self@.strict_bind,
    {
        self.strict_bind
    }

    /// Whether a login begins with the probe.
    pub fn test_before_login(&self) -> (out: bool)
        ensures
            out == self@.test_before_login,
    {
        self.test_before_login
    }

    /// The pause after a refused attempt, in milliseconds.
    pub fn retry_delay(&self) -> (out: u32)
        ensures
            out == self@.retry_delay,
    {
        self.retry_delay
    }

    /// The number of attempts that a login may make.
    pub fn retry_times(&self) -> (out: u32)
        ensures
            out == self@.retry_times,
    {
        self.retry_times
    }

    /// The identifier of the access controller.
    pub fn acid(&self) -> (out: i32)
        ensures
            out == self@.acid,
    {
        self.acid
    }

    /// The double-stack parameter.
    pub fn double_stack(&self) -> (out: i32)
        ensures
            out == self@.double_stack,
    {
        self.double_stack
    }

    /// The parameter `n`.
    pub fn n(&self) -> (out: i32)
        ensures
            out == self@.n,
    {
        self.n
    }

    /// The parameter `type`.
    pub fn stype(&self) -> (out: i32)
        ensures
            out == self@.stype,
    {
        self.stype
    }

    /// The time stamp of the challenge request.
    pub fn time(&self) -> (out: u64)
        ensures
            out == self@.time,
    {
        self.time
    }

    /// Where the session stands.
    pub fn phase(&self) -> (out: Phase)
        ensures
            out == self@.phase,
    {
        self.phase
    }

    /// The number of portal requests sent so far in this login.
    pub fn attempts(&self) -> (out: u32)
        ensures
            out == self@.attempts,
    {
        self.attempts
    }
}

/// A query parameter.
fn pair(name: &str, value: &str) -> (out: (String, String))
    ensures
        out.0@ == name@,
        out.1@ == value@,
{
    (String::from_str(name), String::from_str(value))
}

impl SrunClient {
    /// The local address that requests must be sent from, if any.
    fn bind_address(&self) -> (bind: Option<String>)
        ensures
            bind is Some == self@.bind_address() is Some,
            bind is Some ==> bind->0@ == self@.bind_address()->0,
    {
        if self.strict_bind && !self.ip.as_str().is_empty() {
            Some(self.ip.clone())
        } else {
            None
        }
    }

    /// The address of the endpoint at `path`.
    fn url(&self, path: &str) -> (url: String)
        ensures
            url@ == self@.auth_server + path@,
    {
        let mut url = self.auth_server.clone();
        url.append(path);
        url
    }

    /// Builds the request for a challenge token.
    fn challenge_request(&self) -> (request: Request)
        ensures
            request@ == self@.challenge_request(),
    {
        let mut query: Vec<(String, String)> = Vec::new();
        query.push(pair("callback", CALLBACK));
        query.push(pair("username", self.username.as_str()));
        query.push(pair("ip", self.ip.as_str()));
        query.push(pair("_", decimal_u64(self.time).as_str()));
        assert(pairs_text(query@) =~= self@.challenge_request().query);
        Request { url: self.url(PATH_GET_CHALLENGE), query, bind: self.bind_address() }
    }

    /// Builds the login request.
    fn login_request(&self) -> (request: Request)
        ensures
            request@ == self@.login_request(),
    {
        let mut password = String::from_str("{MD5}");
        password.append(self.password_hash.as_str());
        let mut query: Vec<(String, String)> = Vec::new();
        query.push(pair("callback", CALLBACK));
        query.push(pair("action", "login"));
        query.push(pair("username", self.username.as_str()));
        query.push(pair("password", password.as_str()));
        query.push(pair("ip", self.ip.as_str()));
        query.push(pair("ac_id", decimal_i32(self.acid).as_str()));
        query.push(pair("n", decimal_i32(self.n).as_str()));
        query.push(pair("type", decimal_i32(self.stype).as_str()));
        query.push(pair("os", self.os.as_str()));
        query.push(pair("name", self.name.as_str()));
        query.push(pair("double_stack", decimal_i32(self.double_stack).as_str()));
        query.push(pair("info", self.info.as_str()));
        query.push(pair("chksum", self.chksum.as_str()));
        query.push(pair("_", decimal_u64(self.time).as_str()));
        assert(pairs_text(query@) =~= self@.login_request().query);
        Request { url: self.url(PATH_PORTAL), query, bind: self.bind_address() }
    }

    /// Builds the logout request, stamped with the time `now`.
    fn logout_request(&self, now: u64) -> (request: Request)
        ensures
            request@ == self@.logout_request(now),
    {
        let mut query: Vec<(String, String)> = Vec::new();
        query.push(pair("callback", CALLBACK));
        query.push(pair("action", "logout"));
        query.push(pair("username", self.username.as_str()));
        query.push(pair("ip", self.ip.as_str()));
        query.push(pair("ac_id", decimal_i32(self.acid).as_str()));
        query.push(pair("_", decimal_u64(now).as_str()));
        assert(pairs_text(query@) =~= self@.logout_request(now).query);
        Request { url: self.url(PATH_PORTAL), query, bind: self.bind_address() }
    }

    /// Ends the session with `outcome`.
    fn finish(&mut self, outcome: Outcome) -> (action: Action)
        ensures
            (final(self)@, action@) == old(self)@.finish(outcome),
    {
        self.phase = Phase::Finished;
        self.last = None;
        Action::Done(outcome)
    }

    /// Asks for the challenge, or fails where no address is known and none is to be
    /// detected.
    fn issue_challenge(&mut self, now: u64) -> (action: Action)
        requires
            now >= 2,
        ensures
            (final(self)@, action@) == old(self)@.issue_challenge(now),
    {
        if !self.detect_ip && self.ip.as_str().is_empty() {
            self.finish(Outcome::Failed(SrunError::IpUndefinedError))
        } else {
            self.time = now - 2;
            self.phase = Phase::AwaitChallenge;
            Action::Challenge(self.challenge_request())
        }
    }

    /// Takes a challenge with a token in.
    fn accept_challenge(&mut self, token: String, client_ip: String)
        ensures
            final(self)@ == old(self)@.accept_challenge(token@, client_ip@),
    {
        self.token = token;
        if self.detect_ip && !client_ip.as_str().is_empty() {
            self.ip = client_ip;
        }
    }

    /// Derives the password hash, the payload and the checksum, and makes the first
    /// attempt where one is allowed.
    fn first_attempt(&mut self) -> (action: Action)
        ensures
            (final(self)@, action@) == old(self)@.first_attempt(),
    {
        if self.ip.as_str().is_empty() {
            return self.finish(Outcome::Failed(SrunError::IpUndefinedError));
        }
        self.password_hash = password_hash(self.token.as_str(), self.password.as_str());
        self.info = param_i(
            self.username.as_str(),
            self.password.as_str(),
            self.ip.as_str(),
            self.acid,
            self.token.as_str(),
        );
        self.chksum = checksum(
            self.token.as_str(),
            self.username.as_str(),
            self.password_hash.as_str(),
            self.acid,
            self.ip.as_str(),
            self.n,
            self.stype,
            self.info.as_str(),
        );
        if self.retry_times == 0 {
            self.finish(Outcome::Exhausted(None))
        } else {
            self.phase = Phase::AwaitPortal;
            self.attempts = 1;
            Action::Portal(self.login_request())
        }
    }

    /// Takes one step of a login: `event` is what happened, `now` the time in seconds
    /// since the epoch, and the result what is to be done next.
    pub fn login_step(&mut self, event: Event, now: u64) -> (action: Action)
        requires
            now >= 2,
        ensures
            (final(self)@, action@) == old(self)@.login_step(event, now),
    {
        match self.phase {
            Phase::Idle | Phase::Finished => match event {
                Event::Begin => {
                    self.attempts = 0;
                    self.last = None;
                    if self.test_before_login {
                        self.phase = Phase::Probing;
                        Action::Probe
                    } else {
                        self.issue_challenge(now)
                    }
                },
                _ => self.finish(Outcome::Failed(SrunError::OutOfTurn)),
            },
            Phase::Probing => match event {
                Event::Probe(reachable) => {
                    if reachable {
                        self.finish(Outcome::AlreadyOnline)
                    } else {
                        self.issue_challenge(now)
                    }
                },
                _ => self.finish(Outcome::Failed(SrunError::OutOfTurn)),
            },
            Phase::AwaitChallenge => match event {
                Event::Challenge(challenge) => match challenge.token {
                    None => self.finish(Outcome::Failed(SrunError::GetChallengeFailed)),
                    Some(token) => {
                        self.accept_challenge(token, challenge.client_ip);
                        self.first_attempt()
                    },
                },
                Event::RequestFailed => self.finish(Outcome::Failed(SrunError::RequestFailed)),
                _ => self.finish(Outcome::Failed(SrunError::OutOfTurn)),
            },
            Phase::AwaitPortal => match event {
                Event::Portal(result) => {
                    if !result.access_token.as_str().is_empty() {
                        self.finish(Outcome::Granted(result))
                    } else {
                        self.phase = Phase::Sleeping;
                        self.last = Some(result);
                        Action::Sleep(self.retry_delay)
                    }
                },
                Event::RequestFailed => self.finish(Outcome::Failed(SrunError::RequestFailed)),
                _ => self.finish(Outcome::Failed(SrunError::OutOfTurn)),
            },
            Phase::Sleeping => match event {
                Event::Slept => {
                    let last = self.last.take();
                    if self.attempts < self.retry_times {
                        self.phase = Phase::AwaitPortal;
                        self.attempts = self.attempts + 1;
                        Action::Portal(self.login_request())
                    } else {
                        self.finish(Outcome::Exhausted(last))
                    }
                },
                _ => self.finish(Outcome::Failed(SrunError::OutOfTurn)),
            },
        }
    }

    /// Takes one step of a logout: `event` is what happened, `now` the time in seconds
    /// since the epoch, and the result what is to be done next.
    pub fn logout_step(&mut self, event: Event, now: u64) -> (action: Action)
        requires
            now >= 2,
        ensures
            (final(self)@, action@) == old(self)@.logout_step(event, now),
    {
        match self.phase {
            Phase::Idle | Phase::Finished => match event {
                Event::Begin => {
                    self.attempts = 0;
                    self.last = None;
                    if self.detect_ip {
                        self.issue_challenge(now)
                    } else {
                        self.phase = Phase::AwaitPortal;
                        Action::Portal(self.logout_request(now))
                    }
                },
                _ => self.finish(Outcome::Failed(SrunError::OutOfTurn)),
            },
            Phase::AwaitChallenge => match event {
                Event::Challenge(challenge) => match challenge.token {
                    None => self.finish(Outcome::Failed(SrunError::GetChallengeFailed)),
                    Some(token) => {
                        self.accept_challenge(token, challenge.client_ip);
                        self.phase = Phase::AwaitPortal;
                        Action::Portal(self.logout_request(now))
                    },
                },
                Event::RequestFailed => self.finish(Outcome::Failed(SrunError::RequestFailed)),
                _ => self.finish(Outcome::Failed(SrunError::OutOfTurn)),
            },
            Phase::AwaitPortal => match event {
                Event::Portal(result) => self.finish(Outcome::LoggedOut(result)),
                Event::RequestFailed => self.finish(Outcome::Failed(SrunError::RequestFailed)),
                _ => self.finish(Outcome::Failed(SrunError::OutOfTurn)),
            },
            _ => self.finish(Outcome::Failed(SrunError::OutOfTurn)),
        }
    }
}

/// The session after each of `answers` came in during a login and the pause that
/// followed it was over.
pub open spec fn after_refusals(s: Session, answers: Seq<PortalResult>, now: u64) -> Session
    decreases answers.len(),
{
    if answers.len() == 0 {
        s
    } else {
        after_refusals(s, answers.drop_last(), now).login_step(
            Event::Portal(answers.last()),
            now,
        ).0.login_step(Event::Slept, now).0
    }
}

/// A login whose attempts are all refused makes exactly `retry_times` of them.
///
/// Take a session `s` whose first portal request is under way, and let the answers
/// `answers`, none with an access token and no more of them than `retry_times`, come in
/// one after the other. Every answer is followed by a pause of `retry_delay`
/// milliseconds. After the pause the very request of the first attempt is sent again,
/// as long as fewer than `retry_times` requests were sent; after the pause that follows
/// answer number `retry_times` the login ends as exhausted, with that answer.
pub proof fn login_retries_exactly(s: Session, answers: Seq<PortalResult>, now: u64)
    requires
        s.phase == Phase::AwaitPortal,
        s.attempts == 1,
        s.last is None,
        0 < answers.len() <= s.retry_times,
        forall|i: int| 0 <= i < answers.len() ==> (#[trigger] answers[i]).access_token@.len() == 0,
    ensures
        ({
            let k = answers.len();
            let before = after_refusals(s, answers.drop_last(), now);
            let (paused, pause) = before.login_step(Event::Portal(answers.last()), now);
            let (after, next) = paused.login_step(Event::Slept, now);
            &&& before == (Session { attempts: k as u32, ..s })
            &&& pause == ActionView::Sleep(s.retry_delay)
            &&& paused.phase == Phase::Sleeping
            &&& after == after_refusals(s, answers, now)
            &&& k < s.retry_times ==> next == ActionView::Portal(s.login_request()) && after == (
            Session { attempts: (k + 1) as u32, ..s })
            &&& k == s.retry_times ==> next == ActionView::Done(
                Outcome::Exhausted(Some(answers.last())),
            ) && after == (Session { phase: Phase::Finished, attempts: s.retry_times, ..s })
        }),
    decreases answers.len(),
{
    let earlier = answers.drop_last();
    if earlier.len() > 0 {
        login_retries_exactly(s, earlier, now);
    }
}

/// A login keeps its session in order, whatever comes in: a new session is in order,
/// and so is the session after any step of a login on a session that was. A login that
/// runs out of attempts therefore ends with the attempts at `retry_times`, and with the
/// last answer in hand.
pub proof fn login_stays_in_order(s: Session, event: Event, now: u64)
    requires
        s.in_order(),
    ensures
        s.login_step(event, now).0.in_order(),
        s.login_step(event, now).1 matches ActionView::Done(Outcome::Exhausted(last)) ==> (
        last is Some <==> s.phase == Phase::Sleeping) && (last is Some ==> s.attempts
            == s.retry_times),
        forall|auth_server: Seq<char>, username: Seq<char>, password: Seq<char>, ip: Seq<char>|
            (#[trigger] Session::fresh(auth_server, username, password, ip)).in_order(),
{
}

/// A login asks the portal only with a token of its own.
///
/// A portal request is sent in two places only: when a challenge with a token comes in
/// while the session waits for one, and then the request is made with that token; and
/// when a pause is over and attempts are left, and then the session is as it was but
/// for the count of its attempts. So between the begin of a login and its first portal
/// request lies a challenge, and every attempt of the login carries the same token and
/// the same time stamp.
pub proof fn portal_follows_challenge(s: Session, event: Event, now: u64)
    requires
        s.login_step(event, now).1 is Portal,
    ensures
        ({
            let (next, action) = s.login_step(event, now);
            &&& action == ActionView::Portal(next.login_request())
            &&& next.phase == Phase::AwaitPortal
            &&& s.phase == Phase::AwaitChallenge || s.phase == Phase::Sleeping
            &&& s.phase == Phase::AwaitChallenge ==> event is Challenge
                && event->Challenge_0.token is Some && next.token
                == event->Challenge_0.token->0@ && next.attempts == 1 && next.time == s.time
            &&& s.phase == Phase::Sleeping ==> event is Slept && s.attempts < s.retry_times
                && next == (Session { phase: Phase::AwaitPortal, attempts: next.attempts, last: None, ..s })
                && next.attempts == s.attempts + 1
        }),
{
}

/// A request that fails ends the login or logout, and is not tried again.
///
/// While a challenge or a portal request is under way, the report that it failed ends
/// the session with `RequestFailed`: no request and no pause follows, whatever the
/// number of attempts that are left. Of all that can come in while a portal request of
/// a login is under way, only an answer without an access token leads to another
/// attempt.
pub proof fn failed_request_is_final(s: Session, event: Event, now: u64)
    requires
        s.phase == Phase::AwaitChallenge || s.phase == Phase::AwaitPortal,
    ensures
        s.login_step(Event::RequestFailed, now) == s.finish(
            Outcome::Failed(SrunError::RequestFailed),
        ),
        s.logout_step(Event::RequestFailed, now) == s.finish(
            Outcome::Failed(SrunError::RequestFailed),
        ),
        s.phase == Phase::AwaitPortal && s.login_step(event, now).1 is Sleep ==> event is Portal
            && event->Portal_0.access_token@.len() == 0,
        s.phase == Phase::AwaitPortal && !(event is Portal && event->Portal_0.access_token@.len()
            == 0) ==> s.login_step(event, now).1 is Done,
{
}

/// A session without an address that is not to detect one sends nothing.
///
/// Asking for the challenge ends the session with `IpUndefinedError` and no request,
/// exactly where detection is off and the address is empty; everywhere else it sends
/// the challenge request. So a login of such a session fails at its first step, or at
/// the step after the probe where that is switched on, and a login of any other
/// session does not fail there.
pub proof fn no_address_no_request(s: Session, now: u64)
    requires
        s.phase == Phase::Idle || s.phase == Phase::Finished,
    ensures
        (!s.detect_ip && s.ip.len() == 0) <==> s.issue_challenge(now).1 == ActionView::Done(
            Outcome::Failed(SrunError::IpUndefinedError),
        ),
        !(!s.detect_ip && s.ip.len() == 0) <==> s.issue_challenge(now).1 is Challenge,
        !s.detect_ip && s.ip.len() == 0 ==> {
            let (begun, first) = s.login_step(Event::Begin, now);
            if s.test_before_login {
                first == ActionView::Probe && begun.login_step(Event::Probe(false), now).1
                    == ActionView::Done(Outcome::Failed(SrunError::IpUndefinedError))
            } else {
                first == ActionView::Done(Outcome::Failed(SrunError::IpUndefinedError))
            }
        },
{
}

/// A logout asks for a challenge exactly where the address is to be detected, and then
/// before it asks the portal.
///
/// With detection on, the first request goes to the challenge endpoint, and the portal
/// request follows the answer that holds a token. With detection off, the first
/// request goes to the portal endpoint, and whatever comes in after it, no request
/// follows.
pub proof fn logout_challenge_order(s: Session, event: Event, now: u64)
    requires
        s.phase == Phase::Idle || s.phase == Phase::Finished,
    ensures
        ({
            let (begun, first) = s.logout_step(Event::Begin, now);
            let (next, second) = begun.logout_step(event, now);
            &&& s.detect_ip ==> first is Challenge && begun.phase == Phase::AwaitChallenge
            &&& s.detect_ip ==> (second is Portal <==> event is Challenge
                && event->Challenge_0.token is Some)
            &&& s.detect_ip ==> (second is Portal || second is Done)
            &&& !s.detect_ip ==> first == ActionView::Portal(
                (Session { attempts: 0, last: None, ..s }).logout_request(now),
            )
            &&& !s.detect_ip ==> second is Done && next.phase == Phase::Finished
        }),
{
}

} // verus!
