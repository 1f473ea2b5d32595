//! The settings of a batch of accounts.

use crate::user::User;
use vstd::prelude::*;

verus! {

/// Settings shared by a batch of accounts, and in `users` the accounts themselves, the
/// next one to be served first. A setting that is `None` leaves the client's default.
#[derive(Clone)]
pub struct Config {
    pub server: Option<String>,
    pub detect_ip: bool,
    pub strict_bind: bool,
    pub double_stack: bool,
    pub n: Option<i32>,
    pub utype: Option<i32>,
    pub acid: Option<i32>,
    pub os: Option<String>,
    pub name: Option<String>,
    pub retry_delay: Option<u32>,
    pub retry_times: Option<u32>,
    pub users: Vec<User>,
}

impl Config {
    /// Whether `self` and `other` agree in every setting; the accounts are left aside.
    pub open spec fn same_settings(&self, other: &Config) -> bool {
        &&& self.server == other.server
        &&& self.detect_ip == other.detect_ip
        &&& self.strict_bind == other.strict_bind
        &&& self.double_stack == other.double_stack
        &&& self.n == other.n
        &&& self.utype == other.utype
        &&& self.acid == other.acid
        &&& self.os == other.os
        &&& self.name == other.name
        &&& self.retry_delay == other.retry_delay
        &&& self.retry_times == other.retry_times
    }

    /// Whether nothing is set: no server, no flag, no parameter.
    pub open spec fn is_blank(&self) -> bool {
        &&& self.server is None
        &&& !self.detect_ip
        &&& !self.strict_bind
        &&& !self.double_stack
        &&& self.n is None
        &&& self.utype is None
        &&& self.acid is None
        &&& self.os is None
        &&& self.name is None
        &&& self.retry_delay is None
        &&& self.retry_times is None
    }

    /// Adds an account behind those already there.
    pub fn push_user(&mut self, user: User)
        ensures
            final(self).users@ == old(self).users@.push(user),
            final(self).same_settings(old(self)),
    {
        self.users.push(user);
    }

    /// The number of accounts still to be served.
    pub fn remaining(&self) -> (count: usize)
        ensures
            count == self.users@.len(),
    {
        self.users.len()
    }

    /// Takes the next account out, or returns `None` when all were served. The
    /// settings stay as they are.
    pub fn next(&mut self) -> (user: Option<User>)
        ensures
            final(self).same_settings(old(self)),
            old(self).users@.len() == 0 ==> user is None && final(self).users@ == old(self).users@,
            old(self).users@.len() > 0 ==> user == Some(old(self).users@[0]) && final(self).users@
                == old(self).users@.drop_first(),
    {
        if self.users.len() == 0 {
            None
        } else {
            let first = self.users.remove(0);
            assert(self.users@ =~= old(self).users@.drop_first());
            Some(first)
        }
    }
}

impl Default for Config {
    /// The blank settings without accounts.
    fn default() -> (config: Self)
        ensures
            config.is_blank(),
            config.users@.len() == 0,
    {
        Self {
            server: None,
            detect_ip: false,
            strict_bind: false,
            double_stack: false,
            n: None,
            utype: None,
            acid: None,
            os: None,
            name: None,
            retry_delay: None,
            retry_times: None,
            users: Vec::new(),
        }
    }
}

} // verus!
