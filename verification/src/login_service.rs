//! The identity service: what it is sent, and how its reply is read.

use vstd::prelude::*;
use vstd::string::*;

verus! {

/// The body of the identity service's reply to a pair that it knows.
#[derive(Debug, Clone, Copy, PartialEq, Eq, Structural)]
pub struct UserId {
    pub id: i32,
}

/// Where the identity service is reached.
#[derive(Debug, Clone, PartialEq, Eq)]
pub struct LoginService {
    pub api_path: String,
}

/// A verification to send: a POST to `url` with the pair as its JSON body.
#[derive(Debug, Clone, PartialEq, Eq)]
pub struct LoginRequest {
    pub url: String,
    pub email: String,
    pub password: String,
}

/// What came back from the identity service.
#[derive(Debug, Clone, PartialEq, Eq)]
pub enum LoginReply {
    /// A response with its HTTP status and, where its body holds one, the
    /// user it names.
    Answered { status: u16, user: Option<UserId> },
    /// No response; the text is the transport's report.
    Unreachable(String),
}

/// The user that a reply names: only a response of status 200 with a user in
/// its body names one.
pub open spec fn user_of(reply: LoginReply) -> Option<i32> {
    match reply {
        LoginReply::Answered { status, user: Some(user) } => if status == 200 {
            Some(user.id)
        } else {
            None
        },
        _ => None,
    }
}

impl LoginService {
    /// The service at `api_address`, a base address that ends in a slash.
    pub fn new(api_address: String) -> (res: Self)
        ensures
            res.api_path@ == api_address@ + "api/v1/"@,
    {
        let api_path = api_address.concat("api/v1/");
        Self { api_path }
    }

    /// The address of the service's endpoint `path`.
    pub fn request_url(&self, path: &str) -> (res: String)
        ensures
            res@ == self.api_path@ + "/"@ + path@,
    {
        let mut url = self.api_path.clone();
        url.append("/");
        url.append(path);
        url
    }

    /// The verification of a pair, to be sent to the service.
    pub fn login_request(&self, email: &str, password: &str) -> (res: LoginRequest)
        ensures
            res.url@ == self.api_path@ + "/"@ + "user/login"@,
            res.email@ == email@,
            res.password@ == password@,
    {
        LoginRequest {
            url: self.request_url("user/login"),
            email: String::from_str(email),
            password: String::from_str(password),
        }
    }

    /// Reads the service's reply: the user it names, or `None` for a pair that
    /// it does not know, for any other status and for a reply that never came.
    pub fn login(reply: &LoginReply) -> (res: Option<i32>)
        ensures
            res == user_of(*reply),
    {
        match reply {
            LoginReply::Answered { status, user: Some(user) } => if *status == 200 {
                Some(user.id)
            } else {
                None
            },
            _ => None,
        }
    }
}

} // verus!
