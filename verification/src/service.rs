//! The polish service: the validated configuration and the conclusion of
//! one attempt, turning what the transport observed into the single
//! success-or-message result delivered to the driving loop.

use vstd::prelude::*;
use crate::error::{spec_dec_rep, spec_malformed_text, PolishError, format_error};
use crate::extract::{evaluate_response, spec_extract, spec_is_success, spec_status_message};
use crate::json::JsonValue;
use crate::request::DEFAULT_MODEL;

verus! {

/// Why the configuration could not be built; fatal at startup.
#[derive(Debug, Clone, Copy, PartialEq, Eq, Structural)]
pub enum ConfigError {
    /// No API key was supplied.
    MissingApiKey,
}

impl ConfigError {
    /// The startup-fatal message shown to the user.
    pub fn message(&self) -> (r: String)
        ensures
            r@ == "Missing GEMINI_API_KEY. Set it in your shell before starting the app."@,
    {
        String::from_str("Missing GEMINI_API_KEY. Set it in your shell before starting the app.")
    }
}

/// The immutable configuration of the service.
#[derive(Debug)]
pub struct Config {
    pub api_key: String,
    pub model: String,
}

impl Config {
    /// Both fields are non-empty once the configuration is built.
    pub open spec fn wf(self) -> bool {
        self.api_key@.len() > 0 && self.model@.len() > 0
    }

    /// Builds the configuration from the two environment values: the
    /// key is required and must be non-empty, an absent or empty model
    /// name falls back to the built-in default.
    pub fn from_env_values(api_key: Option<String>, model: Option<String>) -> (r: Result<
        Config,
        ConfigError,
    >)
        ensures
            r is Ok <==> (api_key matches Some(k) && k@.len() > 0),
            r matches Ok(c) ==> {
                &&& api_key matches Some(k) && c.api_key == k
                &&& c.model@ == (match model {
                    Some(m) => if m@.len() > 0 {
                        m@
                    } else {
                        DEFAULT_MODEL@
                    },
                    None => DEFAULT_MODEL@,
                })
                &&& c.wf()
            },
            r is Err ==> r == Err::<Config, ConfigError>(ConfigError::MissingApiKey),
    {
        proof {
            reveal_strlit("gemini-3-flash-preview");
        }
        let key = match api_key {
            Some(k) => k,
            None => {
                return Err(ConfigError::MissingApiKey);
            },
        };
        if key.as_str().unicode_len() == 0 {
            return Err(ConfigError::MissingApiKey);
        }
        let model_name = match model {
            Some(m) => {
                if m.as_str().unicode_len() > 0 {
                    m
                } else {
                    String::from_str(DEFAULT_MODEL)
                }
            },
            None => String::from_str(DEFAULT_MODEL),
        };
        Ok(Config { api_key: key, model: model_name })
    }
}

/// What one blocking transport attempt observed, handed back by the
/// boundary that performs the HTTP call.
#[derive(Debug)]
pub enum FetchOutcome {
    /// The call completed: an HTTP status and the parsed body.
    Response { status: u16, body: JsonValue },
    /// The call itself failed: DNS, connection, timeout, TLS.
    NetworkError { cause: String },
    /// The call completed but the body was not valid JSON.
    DecodeError { cause: String },
}

/// Concludes one polish attempt: validates and extracts from a completed
/// response, or renders the transport failure — yielding exactly the
/// value sent once over the one-shot channel.
pub fn polish_outcome(fetched: FetchOutcome) -> (r: Result<String, String>)
    ensures
        fetched matches FetchOutcome::NetworkError { cause } ==> (r matches Err(m) && m@
            == "Request failed: "@ + cause@),
        fetched matches FetchOutcome::DecodeError { cause } ==> (r matches Err(m) && m@
            == "Invalid API response JSON: "@ + cause@),
        fetched matches FetchOutcome::Response { status, body } ==> match r {
            Ok(s) => spec_is_success(status) && spec_extract(body) == Ok::<_, crate::error::MalformedKind>(s@),
            Err(m) => (spec_is_success(status) && (spec_extract(body) matches Err(kind) && m@
                == spec_malformed_text(kind))) || (!spec_is_success(status) && m@
                == "Gemini API error ("@ + spec_dec_rep(status as nat) + "): "@
                + spec_status_message(body)),
        },
{
    match fetched {
        FetchOutcome::Response { status, body } => {
            match evaluate_response(status, &body) {
                Ok(s) => Ok(s),
                Err(e) => Err(format_error(&e)),
            }
        },
        FetchOutcome::NetworkError { cause } => {
            let e = PolishError::Transport { cause };
            Err(format_error(&e))
        },
        FetchOutcome::DecodeError { cause } => {
            let e = PolishError::InvalidJson { cause };
            Err(format_error(&e))
        },
    }
}

} // verus!
