//! Application configuration.

use vstd::prelude::*;
use vstd::string::*;
use crate::text::{
    decimal_u16, parse_u16, split, split_text, trim, trim_end_matches, trimmed, trimmed_end,
};

verus! {

/// The audience that every access token must name.
pub const EXPECTED_AUDIENCE: &'static str = "authenticated";

/// Application configuration, as read from the environment.
#[derive(Debug)]
pub struct Config {
    pub host: String,
    pub port: u16,
    /// Origins allowed by CORS.
    pub allowed_origins: Vec<String>,
    /// Base address of the identity provider.
    pub supabase_url: String,
    pub supabase_anon_key: String,
    /// Shared secret of the symmetric family; empty where none is configured.
    pub supabase_jwt_secret: String,
    /// Address of the published key set.
    pub supabase_jwks_url: String,
    pub gemini_api_key: String,
    pub gemini_model: String,
}

/// The issuer that tokens of a provider carry: the provider's base address
/// without trailing slashes, followed by `/auth/v1`.
pub open spec fn issuer_of(base_url: Seq<char>) -> Seq<char> {
    trimmed_end(base_url, '/') + "/auth/v1"@
}

/// The address at which a provider publishes its key set, unless another
/// one is configured.
pub open spec fn default_jwks_url_of(base_url: Seq<char>) -> Seq<char> {
    trimmed_end(base_url, '/') + "/auth/v1/.well-known/jwks.json"@
}

/// The issuer expected of tokens of the provider at `base_url`.
pub fn expected_issuer(base_url: &str) -> (issuer: String)
    ensures
        issuer@ == issuer_of(base_url@),
{
    trim_end_matches(base_url, '/').to_owned().concat("/auth/v1")
}

/// The key-set address of the provider at `base_url`.
pub fn default_jwks_url(base_url: &str) -> (url: String)
    ensures
        url@ == default_jwks_url_of(base_url@),
{
    trim_end_matches(base_url, '/').to_owned().concat("/auth/v1/.well-known/jwks.json")
}

/// The variables that the configuration is made of, each as the
/// environment holds it or `None` where it is not set.
#[derive(Debug)]
pub struct ConfigVars {
    pub host: Option<String>,
    pub port: Option<String>,
    pub allowed_origins: Option<String>,
    pub supabase_url: Option<String>,
    pub supabase_anon_key: Option<String>,
    pub supabase_jwt_secret: Option<String>,
    pub supabase_jwks_url: Option<String>,
    pub gemini_api_key: Option<String>,
    pub gemini_model: Option<String>,
}

/// Why no configuration could be made.
#[derive(Debug, Clone, Copy, PartialEq, Eq, Structural)]
pub enum ConfigError {
    MissingSupabaseUrl,
    InvalidPort,
    MissingSupabaseAnonKey,
    MissingGeminiApiKey,
}

impl ConfigError {
    /// What the error says.
    pub fn message(&self) -> (text: &'static str)
        ensures
            text@ == match self {
                ConfigError::MissingSupabaseUrl => "SUPABASE_URL is required"@,
                ConfigError::InvalidPort => "PORT is not a port number"@,
                ConfigError::MissingSupabaseAnonKey => "SUPABASE_ANON_KEY is required"@,
                ConfigError::MissingGeminiApiKey => "GEMINI_API_KEY is required"@,
            },
    {
        match self {
            ConfigError::MissingSupabaseUrl => "SUPABASE_URL is required",
            ConfigError::InvalidPort => "PORT is not a port number",
            ConfigError::MissingSupabaseAnonKey => "SUPABASE_ANON_KEY is required",
            ConfigError::MissingGeminiApiKey => "GEMINI_API_KEY is required",
        }
    }
}

/// The pieces of a list, each trimmed, without those that are empty then.
pub open spec fn trimmed_pieces(pieces: Seq<Seq<char>>) -> Seq<Seq<char>>
    decreases pieces.len(),
{
    if pieces.len() == 0 {
        Seq::empty()
    } else {
        let before = trimmed_pieces(pieces.drop_last());
        let piece = trimmed(pieces.last());
        if piece.len() > 0 {
            before.push(piece)
        } else {
            before
        }
    }
}

/// The origins that a comma-separated list names.
pub open spec fn origins_of(list: Seq<char>) -> Seq<Seq<char>> {
    trimmed_pieces(split(list, ','))
}

/// Reads the allowed origins from a comma-separated list: each entry is
/// trimmed, and empty entries are left out.
pub fn parse_allowed_origins(list: &str) -> (origins: Vec<String>)
    ensures
        origins.deep_view() == origins_of(list@),
{
    let pieces = split_text(list, ',');
    let mut origins: Vec<String> = Vec::new();
    let n = pieces.len();
    let mut i: usize = 0;
    while i < n
        invariant
            i <= n,
            n == pieces@.len(),
            pieces.deep_view() == split(list@, ','),
            origins.deep_view() == trimmed_pieces(pieces.deep_view().take(i as int)),
        decreases n - i,
    {
        let piece = trim(pieces[i]);
        proof {
            let upto = pieces.deep_view().take(i + 1);
            assert(upto.drop_last() =~= pieces.deep_view().take(i as int));
        }
        if !piece.is_empty() {
            origins.push(piece.to_owned());
        }
        i += 1;
    }
    assert(pieces.deep_view().take(n as int) =~= pieces.deep_view());
    origins
}

/// A variable's text, or a default where it is not set.
pub open spec fn or_default(var: Option<Seq<char>>, default: Seq<char>) -> Seq<char> {
    match var {
        Some(text) => text,
        None => default,
    }
}

/// A variable's text, or a default where it is not set.
fn value_or(var: Option<String>, default: &str) -> (r: String)
    ensures
        r@ == or_default(var.deep_view(), default@),
{
    match var {
        Some(text) => text,
        None => default.to_owned(),
    }
}

/// The error for which no configuration is made from the variables, if
/// there is one: the first of a missing provider address, a port that is no
/// number, a missing anonymous key and a missing model key.
pub open spec fn config_error(
    port: Option<Seq<char>>,
    supabase_url: Option<Seq<char>>,
    supabase_anon_key: Option<Seq<char>>,
    gemini_api_key: Option<Seq<char>>,
) -> Option<ConfigError> {
    if supabase_url is None {
        Some(ConfigError::MissingSupabaseUrl)
    } else if decimal_u16(or_default(port, "8080"@)) is None {
        Some(ConfigError::InvalidPort)
    } else if supabase_anon_key is None {
        Some(ConfigError::MissingSupabaseAnonKey)
    } else if gemini_api_key is None {
        Some(ConfigError::MissingGeminiApiKey)
    } else {
        None
    }
}

impl Config {
    /// Makes the configuration from the variables of the environment.
    /// Host, port, allowed origins, shared secret and model name have
    /// defaults; the key-set address defaults to the one derived from the
    /// provider's address.
    pub fn from_vars(vars: ConfigVars) -> (r: Result<Config, ConfigError>)
        ensures
            match r {
                Err(e) => config_error(
                    vars.port.deep_view(),
                    vars.supabase_url.deep_view(),
                    vars.supabase_anon_key.deep_view(),
                    vars.gemini_api_key.deep_view(),
                ) == Some(e),
                Ok(c) => {
                    &&& config_error(
                        vars.port.deep_view(),
                        vars.supabase_url.deep_view(),
                        vars.supabase_anon_key.deep_view(),
                        vars.gemini_api_key.deep_view(),
                    ) is None
                    &&& c.host@ == or_default(vars.host.deep_view(), "0.0.0.0"@)
                    &&& Some(c.port) == decimal_u16(or_default(vars.port.deep_view(), "8080"@))
                    &&& c.allowed_origins.deep_view() == origins_of(
                        or_default(vars.allowed_origins.deep_view(), "http://localhost:3000"@),
                    )
                    &&& Some(c.supabase_url@) == vars.supabase_url.deep_view()
                    &&& Some(c.supabase_anon_key@) == vars.supabase_anon_key.deep_view()
                    &&& c.supabase_jwt_secret@ == or_default(vars.supabase_jwt_secret.deep_view(), ""@)
                    &&& c.supabase_jwks_url@ == or_default(
                        vars.supabase_jwks_url.deep_view(),
                        default_jwks_url_of(c.supabase_url@),
                    )
                    &&& Some(c.gemini_api_key@) == vars.gemini_api_key.deep_view()
                    &&& c.gemini_model@ == or_default(
                        vars.gemini_model.deep_view(),
                        "gemini-1.5-flash"@,
                    )
                },
            },
    {
        let origins_list = value_or(vars.allowed_origins, "http://localhost:3000");
        let allowed_origins = parse_allowed_origins(origins_list.as_str());
        let supabase_url = match vars.supabase_url {
            Some(url) => url,
            None => { return Err(ConfigError::MissingSupabaseUrl); },
        };
        let supabase_jwks_url = match vars.supabase_jwks_url {
            Some(url) => url,
            None => default_jwks_url(supabase_url.as_str()),
        };
        let host = value_or(vars.host, "0.0.0.0");
        let port_text = value_or(vars.port, "8080");
        let port = match parse_u16(port_text.as_str()) {
            Some(port) => port,
            None => { return Err(ConfigError::InvalidPort); },
        };
        let supabase_anon_key = match vars.supabase_anon_key {
            Some(key) => key,
            None => { return Err(ConfigError::MissingSupabaseAnonKey); },
        };
        let supabase_jwt_secret = value_or(vars.supabase_jwt_secret, "");
        let gemini_api_key = match vars.gemini_api_key {
            Some(key) => key,
            None => { return Err(ConfigError::MissingGeminiApiKey); },
        };
        let gemini_model = value_or(vars.gemini_model, "gemini-1.5-flash");
        Ok(
            Config {
                host,
                port,
                allowed_origins,
                supabase_url,
                supabase_anon_key,
                supabase_jwt_secret,
                supabase_jwks_url,
                gemini_api_key,
                gemini_model,
            },
        )
    }

    /// The issuer expected of access tokens.
    pub fn issuer(&self) -> (issuer: String)
        ensures
            issuer@ == issuer_of(self.supabase_url@),
    {
        expected_issuer(self.supabase_url.as_str())
    }
}

} // verus!
