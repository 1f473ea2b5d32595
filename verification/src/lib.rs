//! Client for a captive-portal network-authentication protocol.
//!
//! A client proves its identity to an access controller in two steps: it fetches a
//! one-time challenge token, and it submits a login request whose fields are derived
//! from that token. This library holds what is computed on the way and what is decided:
//!
//! - [`xencode`]: the block cipher that obfuscates the credential payload, the payload's
//!   base64 alphabet, and the payload itself;
//! - [`digest`]: the password hash and the request checksum;
//! - [`srun`]: the session, the requests it sends, and the steps of a login and of a
//!   logout as a function from what happened to what is to be done next;
//! - [`user`], [`file`], [`mng`]: accounts, the settings of a batch of accounts, and a
//!   login manager;
//! - [`utils`]: the host's network interfaces and the choice of an address;
//! - [`text`]: decimal and hexadecimal rendering.
//!
//! The library sends nothing and reads no clock: a driver performs the requests and
//! pauses that a session asks for and reports back.

pub mod digest;
pub mod file;
pub mod mng;
pub mod srun;
pub mod text;
pub mod utils;
pub mod user;
pub mod xencode;

pub use file::Config;
pub use mng::LoginMng;
pub use srun::{
    strip_jsonp, Action, Challenge, Event, Outcome, Phase, PortalResult, Request, SrunClient,
    SrunError,
};
pub use user::User;
pub use utils::get_ip_by_if_name;
pub use xencode::param_i;
