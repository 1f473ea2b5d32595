//! One account and where its address comes from.

use vstd::prelude::*;

verus! {

/// An account: its credentials and either the address to authenticate or the name of
/// the network interface whose address is to be used. The type has no `Debug` form, so
/// that the password is not written out by accident.
#[derive(Clone, PartialEq, Eq)]
pub struct User {
    pub username: String,
    pub password: String,
    pub ip: Option<String>,
    pub if_name: Option<String>,
}

impl User {
    /// An account with a given address.
    pub fn new(username: String, password: String, ip: String) -> (user: Self)
        ensures
            user.username == username,
            user.password == password,
            user.ip == Some(ip),
            user.if_name is None,
    {
        Self { username, password, ip: Some(ip), if_name: None }
    }

    /// An account whose address is that of the network interface `if_name`.
    pub fn new_with_if_name(username: String, password: String, if_name: String) -> (user: Self)
        ensures
            user.username == username,
            user.password == password,
            user.ip is None,
            user.if_name == Some(if_name),
    {
        Self { username, password, ip: None, if_name: Some(if_name) }
    }
}

impl Default for User {
    /// The account with empty credentials and no address.
    fn default() -> (user: Self)
        ensures
            user.username@.len() == 0,
            user.password@.len() == 0,
            user.ip is None,
            user.if_name is None,
    {
        Self { username: String::new(), password: String::new(), ip: None, if_name: None }
    }
}

} // verus!
