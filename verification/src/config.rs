//! The user's Warpgate settings, and what they are needed for.
use vstd::prelude::*;
use std::path::PathBuf;
use crate::utils::{domain_spec, get_domain_from_warpgate_url};

verus! {

#[verifier::external_type_specification]
#[verifier::external_body]
pub struct ExPathBuf(PathBuf);

pub const DEFAULT_WARPGATE_PORT: u16 = 2222;

/// The settings stored in `config.toml`. `path` is where they were read from and are saved to;
/// it is not part of the file.
#[derive(Debug, Default)]
pub struct AppConfig {
    pub warpgate_api_url: Option<String>,
    pub warpgate_token: Option<String>,
    pub warpgate_username: Option<String>,
    pub warpgate_port: Option<u16>,
    pub path: PathBuf,
}

/// A value an HTTP header can carry: every byte visible ASCII, a space, a tab, or part of a
/// non-ASCII character. In characters: a tab, or anything from the space upwards but DEL.
pub open spec fn is_header_value_spec(s: Seq<char>) -> bool {
    forall|i: int| 0 <= i < s.len() ==> {
        let c = #[trigger] s[i];
        c == '\t' || ((c as u32) >= 32 && (c as u32) != 127)
    }
}

/// Calls `HeaderValue::from_str` (re-exported by `reqwest`) and reports whether it accepted the
/// text. It accepts exactly the strings whose bytes are all at least 32 and not 127, or tabs.
#[verifier::external_body]
fn header_value_accepts(value: &str) -> (ok: bool)
    ensures
        ok == is_header_value_spec(value@),
{
    reqwest::header::HeaderValue::from_str(value).is_ok()
}

/// Why the target list cannot be requested with the current settings.
#[derive(Debug, Clone, Copy, PartialEq, Eq)]
pub enum FetchError {
    MissingUrl,
    MissingToken,
    InvalidToken,
}

/// The message shown for each reason a fetch cannot start.
pub open spec fn fetch_error_message_spec(e: FetchError) -> Seq<char> {
    match e {
        FetchError::MissingUrl => "Warpgate API URL is not configured"@,
        FetchError::MissingToken => "Warpgate token is not configured"@,
        FetchError::InvalidToken => "Warpgate token is not a valid HTTP header value"@,
    }
}

impl FetchError {
    pub fn message(&self) -> (s: String)
        ensures
            s@ == fetch_error_message_spec(*self),
    {
        proof {
            reveal_strlit("Warpgate API URL is not configured");
            reveal_strlit("Warpgate token is not configured");
            reveal_strlit("Warpgate token is not a valid HTTP header value");
        }
        match self {
            FetchError::MissingUrl => String::from_str("Warpgate API URL is not configured"),
            FetchError::MissingToken => String::from_str("Warpgate token is not configured"),
            FetchError::InvalidToken => String::from_str(
                "Warpgate token is not a valid HTTP header value",
            ),
        }
    }
}

/// The URL to ask for targets and the token to send along, both as configured.
#[derive(Debug, Clone)]
pub struct FetchRequest {
    pub url: String,
    pub token: String,
}

/// Why `list` cannot print the targets with the current settings.
#[derive(Debug, Clone, PartialEq, Eq)]
pub enum ListError {
    MissingUrl,
    MissingUsername,
    NoHost(String),
}

/// The message `list` fails with, naming the settings file that lacks the value.
pub open spec fn list_error_message_spec(e: ListError, config_path: Seq<char>) -> Seq<char> {
    match e {
        ListError::MissingUrl => "Warpgate API URL is not configured in "@ + config_path,
        ListError::MissingUsername => "Warpgate username is not configured in "@ + config_path,
        ListError::NoHost(url) => "Could not derive a hostname from "@ + url@,
    }
}

impl ListError {
    pub fn message(&self, config_path: &str) -> (s: String)
        ensures
            s@ == list_error_message_spec(*self, config_path@),
    {
        proof {
            reveal_strlit("Warpgate API URL is not configured in ");
            reveal_strlit("Warpgate username is not configured in ");
            reveal_strlit("Could not derive a hostname from ");
        }
        let mut s = match self {
            ListError::MissingUrl => String::from_str("Warpgate API URL is not configured in "),
            ListError::MissingUsername => String::from_str("Warpgate username is not configured in "),
            ListError::NoHost(_) => String::from_str("Could not derive a hostname from "),
        };
        match self {
            ListError::NoHost(url) => s.append(url.as_str()),
            _ => s.append(config_path),
        }
        s
    }
}

/// What `list` prints each row with: the account, the bastion host and its SSH port.
#[derive(Debug, Clone)]
pub struct ListRequest {
    pub username: String,
    pub host: String,
    pub port: u16,
}

pub open spec fn unwrap_port(port: Option<u16>) -> u16 {
    match port {
        Some(p) => p,
        None => DEFAULT_WARPGATE_PORT,
    }
}

/// The URL and token a fetch is made with, or why it cannot be made: the URL and the token must
/// be configured, in that order, and the token must be usable as a header value.
pub open spec fn fetch_request_spec(c: AppConfig) -> Result<(String, String), FetchError> {
    match c.warpgate_api_url {
        None => Err(FetchError::MissingUrl),
        Some(url) => match c.warpgate_token {
            None => Err(FetchError::MissingToken),
            Some(token) => if is_header_value_spec(token@) {
                Ok((url, token))
            } else {
                Err(FetchError::InvalidToken)
            },
        },
    }
}

impl AppConfig {
    pub open spec fn all_required_fields_set_spec(&self) -> bool {
        &&& self.warpgate_api_url is Some
        &&& self.warpgate_token is Some
        &&& self.warpgate_username is Some
        &&& self.warpgate_port is Some
    }

    pub fn are_all_required_fields_set(&self) -> (b: bool)
        ensures
            b == self.all_required_fields_set_spec(),
    {
        self.warpgate_api_url.is_some() && self.warpgate_token.is_some()
            && self.warpgate_username.is_some() && self.warpgate_port.is_some()
    }

    /// What loading does once the file is parsed: a missing port becomes the default one. The
    /// result says whether the settings still lack a required field, which is when loading
    /// writes them back so that the user finds every field in the file.
    pub fn settle_loaded(&mut self) -> (needs_save: bool)
        ensures
            final(self).warpgate_port == Some(unwrap_port(old(self).warpgate_port)),
            final(self).warpgate_api_url == old(self).warpgate_api_url,
            final(self).warpgate_token == old(self).warpgate_token,
            final(self).warpgate_username == old(self).warpgate_username,
            final(self).path == old(self).path,
            needs_save == !final(self).all_required_fields_set_spec(),
    {
        let port = match self.warpgate_port {
            Some(p) => p,
            None => DEFAULT_WARPGATE_PORT,
        };
        self.warpgate_port = Some(port);
        !self.are_all_required_fields_set()
    }

    /// The request for the target list, or why it cannot be made: the URL and the token must be
    /// configured, in that order, and the token must be usable as a header value.
    pub fn fetch_request(&self) -> (r: Result<FetchRequest, FetchError>)
        ensures
            match r {
                Ok(req) => fetch_request_spec(*self) == Ok::<(String, String), FetchError>((req.url, req.token)),
                Err(e) => fetch_request_spec(*self) == Err::<(String, String), FetchError>(e),
            },
    {
        let url = match &self.warpgate_api_url {
            Some(url) => url.clone(),
            None => return Err(FetchError::MissingUrl),
        };
        let token = match &self.warpgate_token {
            Some(token) => token.clone(),
            None => return Err(FetchError::MissingToken),
        };
        if !header_value_accepts(token.as_str()) {
            return Err(FetchError::InvalidToken);
        }
        Ok(FetchRequest { url, token })
    }

    /// What `list` needs from the settings, or why they do not provide it: the URL, then the
    /// username must be configured, and the URL must name a host. A missing port is the default.
    pub fn list_request(&self) -> (r: Result<ListRequest, ListError>)
        ensures
            self.warpgate_api_url is None ==> r == Err::<ListRequest, ListError>(ListError::MissingUrl),
            self.warpgate_api_url matches Some(url) ==> {
                &&& self.warpgate_username is None ==> r == Err::<ListRequest, ListError>(ListError::MissingUsername)
                &&& self.warpgate_username matches Some(user) ==> {
                    &&& domain_spec(url@) is None ==> (r matches Err(ListError::NoHost(u)) && u == url)
                    &&& domain_spec(url@) matches Some(host) ==> (r matches Ok(req)
                        && req.username == user && req.host@ == host
                        && req.port == unwrap_port(self.warpgate_port))
                }
            },
    {
        let url = match &self.warpgate_api_url {
            Some(url) => url,
            None => return Err(ListError::MissingUrl),
        };
        let username = match &self.warpgate_username {
            Some(user) => user.clone(),
            None => return Err(ListError::MissingUsername),
        };
        let host = match get_domain_from_warpgate_url(url.as_str()) {
            Some(host) => host,
            None => return Err(ListError::NoHost(url.clone())),
        };
        let port = match self.warpgate_port {
            Some(p) => p,
            None => DEFAULT_WARPGATE_PORT,
        };
        Ok(ListRequest { username, host, port })
    }
}

} // verus!
