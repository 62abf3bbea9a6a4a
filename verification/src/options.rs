//! Options of an outbound fetch, as guest code passes them.

use vstd::prelude::*;
use crate::error::ShapeError;
use crate::shape::{field, get_field, read_text};
use crate::value::{str_eq, GuestValue};

verus! {

/// Seconds an outbound fetch may take where the guest names no timeout.
pub const DEFAULT_TIMEOUT: u32 = 30;

/// What an outbound fetch does with a redirect.
#[derive(Clone, Copy, Debug, PartialEq, Eq, Structural)]
pub enum RedirectPolicy {
    Follow,
    Error,
    Manual,
}

/// Fetch options as read from the guest.
#[derive(Debug)]
pub struct JsFetchOptions {
    /// Timeout in seconds.
    pub timeout: u32,
    /// Name of the redirect policy, as the guest wrote it.
    pub redirect: String,
}

/// The timeout that a `timeout` property denotes: the integer's 32 bits read as unsigned,
/// and the default for anything else.
pub open spec fn read_timeout(v: GuestValue) -> u32 {
    match v {
        GuestValue::Int(n) => n as u32,
        _ => DEFAULT_TIMEOUT,
    }
}

/// The options that a guest value denotes: `(timeout, redirect)`.
pub open spec fn decode_fetch_options(v: GuestValue) -> Result<(u32, Seq<char>), ShapeError> {
    match v {
        GuestValue::Object(props) => match read_text(field(props@, "redirect"@), "follow"@) {
            Some(redirect) => Ok((read_timeout(field(props@, "timeout"@)), redirect)),
            None => Err(ShapeError::RedirectNotText),
        },
        _ => Err(ShapeError::OptionsNotObject),
    }
}

/// The policy that a redirect name selects; an unknown name selects `Follow`.
pub open spec fn policy_of(redirect: Seq<char>) -> RedirectPolicy {
    if redirect == "error"@ {
        RedirectPolicy::Error
    } else if redirect == "manual"@ {
        RedirectPolicy::Manual
    } else {
        RedirectPolicy::Follow
    }
}

impl Default for JsFetchOptions {
    /// The options used where the guest names none: a timeout of 30 seconds, and redirects
    /// followed.
    fn default() -> (r: JsFetchOptions)
        ensures
            r.timeout == DEFAULT_TIMEOUT,
            r.redirect@ == "follow"@,
    {
        JsFetchOptions::new()
    }
}

impl JsFetchOptions {
    /// The options used where the guest passes an empty object.
    pub fn new() -> (r: JsFetchOptions)
        ensures
            r.timeout == DEFAULT_TIMEOUT,
            r.redirect@ == "follow"@,
    {
        JsFetchOptions { timeout: DEFAULT_TIMEOUT, redirect: "follow".to_owned() }
    }

    /// Reads fetch options out of a guest value.
    pub fn from_js(value: &GuestValue) -> (r: Result<JsFetchOptions, ShapeError>)
        ensures
            match r {
                Ok(o) => decode_fetch_options(*value) == Ok::<(u32, Seq<char>), ShapeError>(
                    (o.timeout, o.redirect@),
                ),
                Err(e) => decode_fetch_options(*value) == Err::<(u32, Seq<char>), ShapeError>(e),
            },
    {
        let props = match value {
            GuestValue::Object(props) => props,
            _ => {
                return Err(ShapeError::OptionsNotObject);
            },
        };
        let timeout: u32 = match get_field(props, "timeout") {
            GuestValue::Int(n) => #[verifier::truncate]
            (*n as u32),
            _ => DEFAULT_TIMEOUT,
        };
        let redirect = match get_field(props, "redirect") {
            GuestValue::Undefined => "follow".to_owned(),
            GuestValue::Text(s) => s.clone(),
            _ => {
                return Err(ShapeError::RedirectNotText);
            },
        };
        Ok(JsFetchOptions { timeout, redirect })
    }

    /// The redirect policy that these options select.
    pub fn policy(&self) -> (r: RedirectPolicy)
        ensures
            r == policy_of(self.redirect@),
    {
        if str_eq(self.redirect.as_str(), "error") {
            RedirectPolicy::Error
        } else if str_eq(self.redirect.as_str(), "manual") {
            RedirectPolicy::Manual
        } else {
            RedirectPolicy::Follow
        }
    }
}

} // verus!
