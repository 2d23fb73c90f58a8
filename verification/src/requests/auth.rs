//! Login and logout request builders.

use vstd::prelude::*;

use crate::text::dec_rep;
use crate::text::u64_to_dec;

verus! {

/// The time-salted password encoding the login endpoint expects: a
/// structural prefix, the wall-clock timestamp at encode time, and the
/// password itself.
pub open spec fn enc_password_rep(timestamp: nat, password: Seq<char>) -> Seq<char> {
    "#PWD_INSTAGRAM_BROWSER:0:"@ + dec_rep(timestamp) + ":"@ + password
}

/// Request body for username password login
#[derive(Debug)]
pub struct UsernamePasswordLoginRequest {
    pub username: String,
    pub enc_password: String,
    pub query_params: String,
    pub opt_into_one_tap: String,
}

impl UsernamePasswordLoginRequest {
    /// Build the login request, salting the password with the wall clock.
    pub fn new(username: String, password: String) -> (r: Self)
        ensures
            r.username == username,
            exists|ts: u64| r.enc_password@ == enc_password_rep(ts as nat, password@),
            r.query_params@ == "{}"@,
            r.opt_into_one_tap@ == "false"@,
    {
        let timestamp = unix_now_seconds();
        let r = Self::new_at(username, password, timestamp);
        proof {
            assert(r.enc_password@ == enc_password_rep(timestamp as nat, password@));
        }
        r
    }

    /// Build the login request for the given wall-clock timestamp.
    pub fn new_at(username: String, password: String, timestamp: u64) -> (r: Self)
        ensures
            r.username == username,
            r.enc_password@ == enc_password_rep(timestamp as nat, password@),
            r.query_params@ == "{}"@,
            r.opt_into_one_tap@ == "false"@,
    {
        let mut enc_password = String::from_str("#PWD_INSTAGRAM_BROWSER:0:");
        let ts = u64_to_dec(timestamp);
        enc_password.append(ts.as_str());
        enc_password.append(":");
        enc_password.append(password.as_str());
        Self {
            username,
            enc_password,
            query_params: String::from_str("{}"),
            opt_into_one_tap: String::from_str("false"),
        }
    }

    /// The form fields of the login POST, in the order the endpoint expects.
    pub fn form(self) -> (r: Vec<(String, String)>)
        ensures
            r@.len() == 4,
            r@[0].0@ == "username"@,
            r@[0].1 == self.username,
            r@[1].0@ == "enc_password"@,
            r@[1].1 == self.enc_password,
            r@[2].0@ == "queryParams"@,
            r@[2].1 == self.query_params,
            r@[3].0@ == "optIntoOneTap"@,
            r@[3].1 == self.opt_into_one_tap,
    {
        let UsernamePasswordLoginRequest { username, enc_password, query_params, opt_into_one_tap }
            = self;
        let mut r: Vec<(String, String)> = Vec::new();
        r.push((String::from_str("username"), username));
        r.push((String::from_str("enc_password"), enc_password));
        r.push((String::from_str("queryParams"), query_params));
        r.push((String::from_str("optIntoOneTap"), opt_into_one_tap));
        r
    }
}

/// Response for username password login
#[derive(Debug)]
pub struct UsernamePasswordLoginResponse {
    pub authenticated: bool,
    pub status: Option<String>,
    pub message: Option<String>,
}

/// Request to logout
#[derive(Debug)]
pub struct LogoutRequest {
    pub csrfmiddlewaretoken: String,
}

impl LogoutRequest {
    /// Build the logout request around the stored csrf token.
    pub fn new(csrfmiddlewaretoken: String) -> (r: Self)
        ensures
            r.csrfmiddlewaretoken == csrfmiddlewaretoken,
    {
        Self { csrfmiddlewaretoken }
    }

    /// The single form field of the logout POST.
    pub fn form(self) -> (r: Vec<(String, String)>)
        ensures
            r@.len() == 1,
            r@[0].0@ == "csrfmiddlewaretoken"@,
            r@[0].1 == self.csrfmiddlewaretoken,
    {
        let mut r: Vec<(String, String)> = Vec::new();
        r.push((String::from_str("csrfmiddlewaretoken"), self.csrfmiddlewaretoken));
        r
    }
}

/// Relies on std::time::SystemTime::now: the seconds since the Unix epoch
/// as the wall clock reports them, or zero should the clock read earlier
/// than the epoch.
#[verifier::external_body]
fn unix_now_seconds() -> u64 {
    match std::time::SystemTime::now().duration_since(std::time::UNIX_EPOCH) {
        Ok(d) => d.as_secs(),
        Err(_) => 0,
    }
}

} // verus!
