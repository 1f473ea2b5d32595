//! A login manager: an account with the switches of its logins.

use crate::srun::{resolve_ip, Session, SrunClient};
use crate::user::User;
use crate::utils::get_ip_by_if_name;
use vstd::prelude::*;

verus! {

/// An account at a server, with the switches that its logins use.
pub struct LoginMng {
    auth_server: String,
    test: bool,
    username: String,
    password: String,
    ip: String,
    detect_ip: bool,
    strict_bind: bool,
}

/// A login manager as plain values.
pub struct LoginPlan {
    pub auth_server: Seq<char>,
    pub test: bool,
    pub username: Seq<char>,
    pub password: Seq<char>,
    pub ip: Seq<char>,
    pub detect_ip: bool,
    pub strict_bind: bool,
}

impl LoginPlan {
    /// The session that a login of this manager runs: the default parameters, with the
    /// manager's switches for detection and strict binding.
    pub open spec fn session(self) -> Session {
        Session {
            detect_ip: self.detect_ip,
            strict_bind: self.strict_bind,
            ..Session::fresh(self.auth_server, self.username, self.password, self.ip)
        }
    }
}

impl View for LoginMng {
    type V = LoginPlan;

    closed spec fn view(&self) -> LoginPlan {
        LoginPlan {
            auth_server: self.auth_server@,
            test: self.test,
            username: self.username@,
            password: self.password@,
            ip: self.ip@,
            detect_ip: self.detect_ip,
            strict_bind: self.strict_bind,
        }
    }
}

impl LoginMng {
    /// A manager for `user` at `auth_server`: the test switch on, detection and strict
    /// binding off. The address is the account's own; an account without one gets the
    /// address of the interface that it names, or the empty address where the host has
    /// no such interface.
    pub fn new(auth_server: String, user: User) -> (mng: Self)
        requires
            user.ip is Some || user.if_name is Some,
        ensures
            mng@ == (LoginPlan {
                auth_server: auth_server@,
                test: true,
                username: user.username@,
                password: user.password@,
                ip: mng@.ip,
                detect_ip: false,
                strict_bind: false,
            }),
            user.ip is Some ==> mng@.ip == user.ip->0@,
    {
        let looked_up = match &user.ip {
            Some(_) => None,
            None => match &user.if_name {
                Some(if_name) => get_ip_by_if_name(if_name.as_str()),
                None => None,
            },
        };
        let ip = resolve_ip(user.ip, looked_up);
        Self {
            auth_server,
            test: true,
            username: user.username,
            password: user.password,
            ip,
            detect_ip: false,
            strict_bind: false,
        }
    }

    /// Switches the detection of the address on or off.
    pub fn set_detect_ip(self, detect_ip: bool) -> (mng: Self)
        ensures
            mng@ == (LoginPlan { detect_ip, ..self@ }),
    {
        let mut mng = self;
        mng.detect_ip = detect_ip;
        mng
    }

    /// Switches the test before a login on or off.
    pub fn set_test_before_login(self, test: bool) -> (mng: Self)
        ensures
            mng@ == (LoginPlan { test, ..self@ }),
    {
        let mut mng = self;
        mng.test = test;
        mng
    }

    /// Switches strict binding on or off.
    pub fn set_strict_bind(self, strict_bind: bool) -> (mng: Self)
        ensures
            mng@ == (LoginPlan { strict_bind, ..self@ }),
    {
        let mut mng = self;
        mng.strict_bind = strict_bind;
        mng
    }

    /// Whether the test before a login is switched on.
    pub fn test_before_login(&self) -> (test: bool)
        ensures
            test == self@.test,
    {
        self.test
    }

    /// The session for one login of this manager.
    pub fn client(&self) -> (client: SrunClient)
        ensures
            client@ == self@.session(),
    {
        SrunClient::new(
            self.auth_server.as_str(),
            self.username.as_str(),
            self.password.as_str(),
            self.ip.as_str(),
        ).set_detect_ip(self.detect_ip).set_strict_bind(self.strict_bind)
    }
}

} // verus!
