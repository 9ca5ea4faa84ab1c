//! Startup configuration.
//!
//! Every setting comes from the environment of the process as an optional
//! text. These functions apply the defaults and put the addresses together;
//! reading the environment is left to the caller.

use vstd::prelude::*;
use vstd::string::StringExecFns;
use crate::error::RelayError;

verus! {

/// The address the relay listens on when none is given.
pub const DEFAULT_BIND_ADDRESS: &'static str = "0.0.0.0:8080";

/// The broker node the relay talks to when none is given.
pub const DEFAULT_BROKER_NODE: &'static str = "localhost:7001";

/// The history database's host when none is given.
pub const DEFAULT_DATABASE_HOST: &'static str = "localhost";

/// The history database's port when none is given.
pub const DEFAULT_DATABASE_PORT: &'static str = "5432";

/// The history database's name when none is given.
pub const DEFAULT_DATABASE_NAME: &'static str = "tuidb";

/// The text of a setting: what was given, or the default.
pub open spec fn setting(given: Option<String>, default: &str) -> Seq<char> {
    match given {
        Some(text) => text@,
        None => default@,
    }
}

fn or_default(given: Option<String>, default: &str) -> (text: String)
    ensures
        text@ == setting(given, default),
{
    match given {
        Some(text) => text,
        None => String::from_str(default),
    }
}

/// The address to listen on: the one given, or `0.0.0.0:8080`.
pub fn bind_address(given: Option<String>) -> (address: String)
    ensures
        address@ == setting(given, DEFAULT_BIND_ADDRESS),
{
    or_default(given, DEFAULT_BIND_ADDRESS)
}

/// The URL of a broker node.
pub open spec fn broker_url_of(node: Seq<char>, push_protocol: bool) -> Seq<char> {
    if push_protocol {
        "redis://"@ + node + "/?protocol=3"@
    } else {
        "redis://"@ + node
    }
}

/// The URL of the broker node to connect to: the node given, or
/// `localhost:7001`. A connection that is to receive pushed deliveries asks
/// for the protocol that has them.
pub fn broker_url(node: Option<String>, push_protocol: bool) -> (url: String)
    ensures
        url@ == broker_url_of(setting(node, DEFAULT_BROKER_NODE), push_protocol),
{
    let node = or_default(node, DEFAULT_BROKER_NODE);
    let mut url = String::from_str("redis://");
    url.append(node.as_str());
    if push_protocol {
        url.append("/?protocol=3");
    }
    url
}

/// The URL of the history database.
pub open spec fn database_url_of(
    host: Seq<char>,
    port: Seq<char>,
    user: Seq<char>,
    password: Seq<char>,
    name: Seq<char>,
) -> Seq<char> {
    "postgres://"@ + user + ":"@ + password + "@"@ + host + ":"@ + port + "/"@ + name
}

/// The URL of the history database. Host, port and database name have
/// defaults; user and password are required, and the lack of either is a
/// configuration error.
pub fn database_url(
    host: Option<String>,
    port: Option<String>,
    user: Option<String>,
    password: Option<String>,
    name: Option<String>,
) -> (url: Result<String, RelayError>)
    ensures
        match url {
            Ok(text) => user is Some && password is Some && text@ == database_url_of(
                setting(host, DEFAULT_DATABASE_HOST),
                setting(port, DEFAULT_DATABASE_PORT),
                user->0@,
                password->0@,
                setting(name, DEFAULT_DATABASE_NAME),
            ),
            Err(error) => error == RelayError::Config && (user is None || password is None),
        },
{
    let host = or_default(host, DEFAULT_DATABASE_HOST);
    let port = or_default(port, DEFAULT_DATABASE_PORT);
    let name = or_default(name, DEFAULT_DATABASE_NAME);
    match (user, password) {
        (Some(user), Some(password)) => {
            let mut url = String::from_str("postgres://");
            url.append(user.as_str());
            url.append(":");
            url.append(password.as_str());
            url.append("@");
            url.append(host.as_str());
            url.append(":");
            url.append(port.as_str());
            url.append("/");
            url.append(name.as_str());
            Ok(url)
        },
        _ => Err(RelayError::Config),
    }
}

} // verus!
