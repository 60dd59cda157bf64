//! The credential header of a request: from its values to the pair that
//! the identity service is asked about, and from the service's answer to the
//! caller's identity.

use vstd::prelude::*;
use vstd::string::*;
use vstd::utf8::{decode_utf8, valid_utf8};
use crate::text::{lemma_first_index_of, next_word, same_text, split_first, split_once, text_of_bytes, word_at};

verus! {

/// The identity that a request acts under.
#[derive(Debug, Clone, Copy, PartialEq, Eq, Structural)]
pub struct AuthInfo {
    pub user_id: i32,
}

/// Why a request got no identity.
#[derive(Debug, Clone, Copy, PartialEq, Eq, Structural)]
pub enum AuthError {
    /// The request carries no credential header.
    NoHeader,
    /// The header names a scheme other than `Basic`.
    NotSupportedAuth,
    /// The request carries more than one credential header.
    BadCount,
    /// The header is not a scheme and a token, or the token does not hold
    /// an email and a password.
    HeaderFormatInvalid,
    /// The identity service knows no such pair.
    InvalidCredentials,
}

/// The pair that a credential header holds.
#[derive(Debug, Clone, PartialEq, Eq)]
pub struct Credentials {
    pub email: String,
    pub password: String,
}

impl Credentials {
    /// The pair as texts.
    pub open spec fn view(&self) -> (Seq<char>, Seq<char>) {
        (self.email@, self.password@)
    }
}

/// The bytes that `base64::decode` finds in `token`, or `None` where it
/// rejects the token.
pub uninterp spec fn base64_decoded(token: Seq<char>) -> Option<Seq<u8>>;

/// `base64::decode` with the standard alphabet and padding: a function of the
/// token alone, named [`base64_decoded`]; its error is dropped.
#[verifier::external_body]
fn decode_base64(token: &str) -> (res: Option<Vec<u8>>)
    ensures
        match res {
            Some(bytes) => base64_decoded(token@) == Some(bytes@),
            None => base64_decoded(token@).is_none(),
        },
{
    base64::decode(token).ok()
}

/// The HTTP status that goes with each failure.
pub open spec fn status_of(err: AuthError) -> u16 {
    match err {
        AuthError::NoHeader => 401,
        AuthError::NotSupportedAuth => 501,
        AuthError::BadCount => 400,
        AuthError::HeaderFormatInvalid => 400,
        AuthError::InvalidCredentials => 401,
    }
}

/// The token of a header whose first two words are given, as far as it has
/// them. A header that lacks either word is malformed, whatever the other
/// is; one with both words has the second as its token where the first is
/// `Basic`, and names a scheme that is not supported where it is not.
pub open spec fn token_of_words(scheme: Option<Seq<char>>, token: Option<Seq<char>>) -> Result<
    Seq<char>,
    AuthError,
> {
    match (scheme, token) {
        (Some(scheme), Some(token)) => if scheme == "Basic"@ {
            Ok(token)
        } else {
            Err(AuthError::NotSupportedAuth)
        },
        _ => Err(AuthError::HeaderFormatInvalid),
    }
}

/// The first word of `value` at or after `from`, if there is one.
pub open spec fn word_of(value: Seq<char>, from: int) -> Option<Seq<char>> {
    match word_at(value, from) {
        None => None,
        Some((start, end)) => Some(value.subrange(start, end)),
    }
}

/// The token of one header value, decided on its first two words as
/// [`token_of_words`] says. Words are separated by white space; what follows
/// the second word is not read.
pub open spec fn token_of(value: Seq<char>) -> Result<Seq<char>, AuthError> {
    match word_at(value, 0) {
        None => token_of_words(None, None),
        Some((start, end)) => token_of_words(Some(value.subrange(start, end)), word_of(value, end)),
    }
}

/// The pair in what a token decoded to: the bytes are UTF-8 text, the email
/// is what stands before its first colon, the password what follows it.
pub open spec fn credentials_of_decoded(decoded: Option<Seq<u8>>) -> Result<
    (Seq<char>, Seq<char>),
    AuthError,
> {
    match decoded {
        None => Err(AuthError::HeaderFormatInvalid),
        Some(bytes) => if !valid_utf8(bytes) {
            Err(AuthError::HeaderFormatInvalid)
        } else {
            match split_first(decode_utf8(bytes), ':') {
                None => Err(AuthError::HeaderFormatInvalid),
                Some(pair) => Ok(pair),
            }
        },
    }
}

/// The pair that one header value holds.
pub open spec fn credentials_of_value(value: Seq<char>) -> Result<
    (Seq<char>, Seq<char>),
    AuthError,
> {
    match token_of(value) {
        Err(err) => Err(err),
        Ok(token) => credentials_of_decoded(base64_decoded(token)),
    }
}

/// The pair that a request's credential headers hold: there must be exactly
/// one header.
pub open spec fn credentials_of_headers(values: Seq<Seq<char>>) -> Result<
    (Seq<char>, Seq<char>),
    AuthError,
> {
    if values.len() == 0 {
        Err(AuthError::NoHeader)
    } else if values.len() > 1 {
        Err(AuthError::BadCount)
    } else {
        credentials_of_value(values[0])
    }
}

/// An optional word as a sequence.
pub open spec fn text_of_word(word: Option<&str>) -> Option<Seq<char>> {
    match word {
        Some(w) => Some(w@),
        None => None,
    }
}

/// Whether an executable outcome is the one that the model gives.
pub open spec fn same_outcome(
    res: Result<Credentials, AuthError>,
    model: Result<(Seq<char>, Seq<char>), AuthError>,
) -> bool {
    match res {
        Ok(pair) => model == Ok::<(Seq<char>, Seq<char>), AuthError>(pair@),
        Err(err) => model == Err::<(Seq<char>, Seq<char>), AuthError>(err),
    }
}

impl AuthError {
    /// The HTTP status of the response that reports this failure.
    pub fn status(&self) -> (code: u16)
        ensures
            code == status_of(*self),
    {
        match self {
            AuthError::NoHeader => 401,
            AuthError::NotSupportedAuth => 501,
            AuthError::BadCount => 400,
            AuthError::HeaderFormatInvalid => 400,
            AuthError::InvalidCredentials => 401,
        }
    }
}

/// Decides on the first two words of a header value, as far as it has them:
/// `HeaderFormatInvalid` where a word is missing, else the token of a `Basic`
/// header and `NotSupportedAuth` for another scheme.
pub fn scheme_token(scheme: Option<&str>, token: Option<&str>) -> (res: Result<String, AuthError>)
    ensures
        match res {
            Ok(found) => token_of_words(text_of_word(scheme), text_of_word(token)) == Ok::<
                Seq<char>,
                AuthError,
            >(found@),
            Err(err) => token_of_words(text_of_word(scheme), text_of_word(token)) == Err::<
                Seq<char>,
                AuthError,
            >(err),
        },
{
    let Some(scheme) = scheme else {
        return Err(AuthError::HeaderFormatInvalid);
    };
    let Some(token) = token else {
        return Err(AuthError::HeaderFormatInvalid);
    };
    if !same_text(scheme, "Basic") {
        return Err(AuthError::NotSupportedAuth);
    }
    Ok(String::from_str(token))
}

/// Splits a header value into scheme and token and hands out the token of a
/// `Basic` header. A value with fewer than two words is malformed; only a
/// value with both is judged by its scheme.
pub fn header_token(value: &str) -> (res: Result<String, AuthError>)
    ensures
        match res {
            Ok(token) => token_of(value@) == Ok::<Seq<char>, AuthError>(token@),
            Err(err) => token_of(value@) == Err::<Seq<char>, AuthError>(err),
        },
{
    match next_word(value, 0) {
        None => scheme_token(None, None),
        Some((start, end)) => {
            let scheme = value.substring_char(start, end);
            match next_word(value, end) {
                None => scheme_token(Some(scheme), None),
                Some((from, to)) => scheme_token(Some(scheme), Some(value.substring_char(from, to))),
            }
        },
    }
}

/// Reads the email and the password out of what a token decoded to.
pub fn decoded_credentials(decoded: Option<Vec<u8>>) -> (res: Result<Credentials, AuthError>)
    ensures
        same_outcome(
            res,
            credentials_of_decoded(
                match decoded {
                    Some(bytes) => Some(bytes@),
                    None => None,
                },
            ),
        ),
        res.is_err() ==> res == Err::<Credentials, AuthError>(AuthError::HeaderFormatInvalid),
{
    let Some(bytes) = decoded else {
        return Err(AuthError::HeaderFormatInvalid);
    };
    let Some(text) = text_of_bytes(bytes) else {
        return Err(AuthError::HeaderFormatInvalid);
    };
    let Some((email, password)) = split_once(text.as_str(), ':') else {
        return Err(AuthError::HeaderFormatInvalid);
    };
    Ok(Credentials { email, password })
}

/// The texts of a request's header values.
pub open spec fn texts(values: Seq<String>) -> Seq<Seq<char>> {
    values.map_values(|value: String| value@)
}

impl AuthInfo {
    /// Reads the credentials out of the values of a request's `Authorization`
    /// headers. `Ok` is the pair to ask the identity service about; on `Err`
    /// the request fails and the service is not asked.
    pub fn credentials(values: &Vec<String>) -> (res: Result<Credentials, AuthError>)
        ensures
            same_outcome(res, credentials_of_headers(texts(values@))),
            values.len() == 0 ==> res == Err::<Credentials, AuthError>(AuthError::NoHeader),
            values.len() > 1 ==> res == Err::<Credentials, AuthError>(AuthError::BadCount),
    {
        if values.len() == 0 {
            return Err(AuthError::NoHeader);
        }
        if 1 < values.len() {
            return Err(AuthError::BadCount);
        }
        let token = match header_token(values[0].as_str()) {
            Ok(token) => token,
            Err(err) => {
                return Err(err);
            },
        };
        decoded_credentials(decode_base64(token.as_str()))
    }

    /// The outcome of the request once the identity service has answered:
    /// the user it named, or `InvalidCredentials` where it named none.
    pub fn from_login(answer: Option<i32>) -> (res: Result<AuthInfo, AuthError>)
        ensures
            res == match answer {
                Some(user_id) => Ok::<AuthInfo, AuthError>(AuthInfo { user_id }),
                None => Err::<AuthInfo, AuthError>(AuthError::InvalidCredentials),
            },
    {
        match answer {
            Some(user_id) => Ok(AuthInfo { user_id }),
            None => Err(AuthError::InvalidCredentials),
        }
    }
}

} // verus!

verus! {

/// A request with no credential header, or with more than one, fails before
/// any header is read: no pair comes out to ask the identity service about.
pub proof fn lemma_header_count(values: Seq<Seq<char>>)
    ensures
        values.len() == 0 ==> credentials_of_headers(values) == Err::<
            (Seq<char>, Seq<char>),
            AuthError,
        >(AuthError::NoHeader),
        values.len() > 1 ==> credentials_of_headers(values) == Err::<
            (Seq<char>, Seq<char>),
            AuthError,
        >(AuthError::BadCount),
{
}

/// A `Basic` header whose token is no base64, or decodes to bytes that are
/// no UTF-8 text, or to a text without a colon, fails with
/// `HeaderFormatInvalid`.
pub proof fn lemma_malformed_token(value: Seq<char>, token: Seq<char>)
    requires
        token_of(value) == Ok::<Seq<char>, AuthError>(token),
        match base64_decoded(token) {
            None => true,
            Some(bytes) => !valid_utf8(bytes) || !decode_utf8(bytes).contains(':'),
        },
    ensures
        credentials_of_value(value) == Err::<(Seq<char>, Seq<char>), AuthError>(
            AuthError::HeaderFormatInvalid,
        ),
        credentials_of_headers(seq![value]) == Err::<(Seq<char>, Seq<char>), AuthError>(
            AuthError::HeaderFormatInvalid,
        ),
{
    if let Some(bytes) = base64_decoded(token) {
        lemma_first_index_of(decode_utf8(bytes), ':');
    }
}

} // verus!
