//! Configuration of the auth client, made from its environment variables.
use vstd::prelude::*;

use crate::text::{owned, str_eq};

verus! {

/// Configuration of the auth client.
pub struct OcasConfig {
    pub url: String,
    pub clientid: String,
    pub clientsecret: String,
    pub callbackurl: String,
    pub blocklist: bool,
    pub afterlogin: String,
    pub afterlogout: String,
}

/// The values of the client's environment variables (`None` when unset):
/// `OCAS_URL`, `OCAS_CLIENT_ID`, `OCAS_CLIENT_SECRET`, `OCAS_CALLBACK_URL`,
/// `OCAS_BLOCKLIST`, `OCAS_AFTER_LOGIN`, `OCAS_AFTER_LOGOUT`.
pub struct OcasEnv {
    pub url: Option<String>,
    pub client_id: Option<String>,
    pub client_secret: Option<String>,
    pub callback_url: Option<String>,
    pub blocklist: Option<String>,
    pub after_login: Option<String>,
    pub after_logout: Option<String>,
}

/// A required variable that is unset.
#[derive(PartialEq, Eq, Structural, Clone, Copy, Debug)]
pub enum OcasConfigError {
    MissingUrl,
    MissingClientId,
    MissingClientSecret,
    MissingCallbackUrl,
}

impl OcasConfigError {
    /// The message the application stops with.
    pub fn message(&self) -> (r: &'static str)
        ensures
            r@ == (match self {
                OcasConfigError::MissingUrl => "OCAS_URL must be set"@,
                OcasConfigError::MissingClientId => "OCAS_CLIENT_ID must be set"@,
                OcasConfigError::MissingClientSecret => "OCAS_CLIENT_SECRET must be set"@,
                OcasConfigError::MissingCallbackUrl => "OCAS_CALLBACK_URL must be set"@,
            }),
    {
        match self {
            OcasConfigError::MissingUrl => "OCAS_URL must be set",
            OcasConfigError::MissingClientId => "OCAS_CLIENT_ID must be set",
            OcasConfigError::MissingClientSecret => "OCAS_CLIENT_SECRET must be set",
            OcasConfigError::MissingCallbackUrl => "OCAS_CALLBACK_URL must be set",
        }
    }
}

/// A redirect target: the variable's value, or `/` when unset.
pub open spec fn or_root(v: Option<String>) -> Seq<char> {
    match v {
        Some(s) => s@,
        None => "/"@,
    }
}

fn take_or_root(v: Option<String>) -> (r: String)
    ensures
        r@ == or_root(v),
{
    match v {
        Some(s) => s,
        None => owned("/"),
    }
}

impl OcasConfig {
    /// The configuration from the variables' values: the URL, client id,
    /// secret and callback URL are required (checked in that order); the
    /// blocklist is on unless `OCAS_BLOCKLIST` is exactly `false`; the
    /// after-login and after-logout targets default to `/`.
    pub fn from_vars(e: OcasEnv) -> (r: Result<OcasConfig, OcasConfigError>)
        ensures
            e.url is None ==> r == Err::<OcasConfig, OcasConfigError>(OcasConfigError::MissingUrl),
            e.url is Some && e.client_id is None ==> r == Err::<OcasConfig, OcasConfigError>(
                OcasConfigError::MissingClientId,
            ),
            e.url is Some && e.client_id is Some && e.client_secret is None ==> r == Err::<
                OcasConfig,
                OcasConfigError,
            >(OcasConfigError::MissingClientSecret),
            e.url is Some && e.client_id is Some && e.client_secret is Some && e.callback_url is None
                ==> r == Err::<OcasConfig, OcasConfigError>(OcasConfigError::MissingCallbackUrl),
            e.url is Some && e.client_id is Some && e.client_secret is Some && e.callback_url is Some
                ==> (r matches Ok(c) && {
                &&& c.url@ == e.url->0@
                &&& c.clientid@ == e.client_id->0@
                &&& c.clientsecret@ == e.client_secret->0@
                &&& c.callbackurl@ == e.callback_url->0@
                &&& c.blocklist == (match e.blocklist {
                    Some(v) => v@ != "false"@,
                    None => true,
                })
                &&& c.afterlogin@ == or_root(e.after_login)
                &&& c.afterlogout@ == or_root(e.after_logout)
            }),
    {
        let url = match e.url {
            Some(v) => v,
            None => {
                return Err(OcasConfigError::MissingUrl);
            },
        };
        let clientid = match e.client_id {
            Some(v) => v,
            None => {
                return Err(OcasConfigError::MissingClientId);
            },
        };
        let clientsecret = match e.client_secret {
            Some(v) => v,
            None => {
                return Err(OcasConfigError::MissingClientSecret);
            },
        };
        let callbackurl = match e.callback_url {
            Some(v) => v,
            None => {
                return Err(OcasConfigError::MissingCallbackUrl);
            },
        };
        let blocklist = match &e.blocklist {
            Some(v) => !str_eq(v.as_str(), "false"),
            None => true,
        };
        let afterlogin = take_or_root(e.after_login);
        let afterlogout = take_or_root(e.after_logout);
        Ok(OcasConfig { url, clientid, clientsecret, callbackurl, blocklist, afterlogin, afterlogout })
    }
}

} // verus!
