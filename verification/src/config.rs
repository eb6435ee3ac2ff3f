//! The connection settings, the store that holds the current ones, and the
//! rule by which settings found at startup are chosen.

use vstd::prelude::*;
use vstd::string::*;

verus! {

/// Where the server is and how the client proves who it is.
#[derive(Debug, PartialEq, Eq)]
pub struct ConnectionConfig {
    /// Base address of the server, an `http` or `https` URL.
    pub server_address: String,
    /// Access token, passed on as it is.
    pub credential: String,
}

/// A `ConnectionConfig` as two sequences of characters.
pub ghost struct ConfigView {
    pub server_address: Seq<char>,
    pub credential: Seq<char>,
}

impl View for ConnectionConfig {
    type V = ConfigView;

    open spec fn view(&self) -> ConfigView {
        ConfigView { server_address: self.server_address@, credential: self.credential@ }
    }
}

impl Clone for ConnectionConfig {
    fn clone(&self) -> (r: Self)
        ensures
            r == *self,
    {
        ConnectionConfig {
            server_address: self.server_address.clone(),
            credential: self.credential.clone(),
        }
    }
}

impl ConnectionConfig {
    /// Settings from an address and a token. Neither is examined here: an
    /// address is judged only when an endpoint is derived from it.
    pub fn new(server_address: String, credential: String) -> (r: Self)
        ensures
            r.server_address == server_address,
            r.credential == credential,
    {
        ConnectionConfig { server_address, credential }
    }
}

/// The view of settings that may be absent.
pub open spec fn view_of(config: Option<ConnectionConfig>) -> Option<ConfigView> {
    match config {
        Some(c) => Some(c@),
        None => None,
    }
}

/// Holds the settings in force. They are replaced whole, never edited.
pub struct ConfigStore {
    current: Option<ConnectionConfig>,
}

impl View for ConfigStore {
    type V = Option<ConfigView>;

    closed spec fn view(&self) -> Option<ConfigView> {
        view_of(self.current)
    }
}

impl ConfigStore {
    /// A store that holds `initial`.
    pub fn new(initial: Option<ConnectionConfig>) -> (r: Self)
        ensures
            r@ == view_of(initial),
    {
        ConfigStore { current: initial }
    }

    /// Replaces the settings. What `get` returns from now on is `config`,
    /// whether or not the caller manages to persist it afterwards.
    pub fn set(&mut self, config: ConnectionConfig)
        ensures
            final(self)@ == Some(config@),
    {
        self.current = Some(config);
    }

    /// A copy of the settings in force, if there are any.
    pub fn get(&self) -> (r: Option<ConnectionConfig>)
        ensures
            view_of(r) == self@,
    {
        match &self.current {
            Some(c) => Some(c.clone()),
            None => None,
        }
    }
}

/// The text of an optional string.
pub open spec fn text_of(value: Option<String>) -> Option<Seq<char>> {
    match value {
        Some(s) => Some(s@),
        None => None,
    }
}

/// The first of two optional texts that is present, else `fallback`.
pub open spec fn first_present(
    first: Option<Seq<char>>,
    second: Option<Seq<char>>,
    fallback: Seq<char>,
) -> Seq<char> {
    match first {
        Some(s) => s,
        None => match second {
            Some(s) => s,
            None => fallback,
        },
    }
}

/// The address assumed where the environment names none.
pub open spec fn default_address() -> Seq<char> {
    "http://localhost:8080"@
}

/// The settings that four environment values amount to: none unless a token
/// is found and is not empty; the address falls back to `default_address`.
pub open spec fn environment_config(
    address: Option<Seq<char>>,
    address_alias: Option<Seq<char>>,
    token: Option<Seq<char>>,
    token_alias: Option<Seq<char>>,
) -> Option<ConfigView> {
    let credential = first_present(token, token_alias, Seq::empty());
    if credential.len() == 0 {
        None
    } else {
        Some(
            ConfigView {
                server_address: first_present(address, address_alias, default_address()),
                credential,
            },
        )
    }
}

fn pick(first: Option<String>, second: Option<String>, fallback: &str) -> (r: String)
    ensures
        r@ == first_present(text_of(first), text_of(second), fallback@),
{
    match first {
        Some(s) => s,
        None => match second {
            Some(s) => s,
            None => String::from_str(fallback),
        },
    }
}

/// Settings from the environment. Each pair is a variable and its older
/// alias; the alias counts only where the variable itself is absent.
pub fn config_from_environment(
    address: Option<String>,
    address_alias: Option<String>,
    token: Option<String>,
    token_alias: Option<String>,
) -> (r: Option<ConnectionConfig>)
    ensures
        view_of(r) == environment_config(
            text_of(address),
            text_of(address_alias),
            text_of(token),
            text_of(token_alias),
        ),
{
    let server_address = pick(address, address_alias, "http://localhost:8080");
    let credential = pick(token, token_alias, "");
    proof {
        reveal_strlit("");
    }
    if credential.as_str().is_empty() {
        None
    } else {
        Some(ConnectionConfig { server_address, credential })
    }
}

/// The settings to start with: those read from the settings file where it
/// gave any, else those of the environment.
pub fn startup_config(
    stored: Option<ConnectionConfig>,
    from_environment: Option<ConnectionConfig>,
) -> (r: Option<ConnectionConfig>)
    ensures
        r == (if stored.is_some() {
            stored
        } else {
            from_environment
        }),
{
    match stored {
        Some(c) => Some(c),
        None => from_environment,
    }
}

} // verus!
