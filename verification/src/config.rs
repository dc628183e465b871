//! Connection settings of the store and of the service.

use crate::text::{decimal, push_decimal};
use vstd::prelude::*;
use vstd::string::StringExecFns;

verus! {

/// Settings of the whole service: where the store is and where to listen.
#[derive(Debug, Clone, PartialEq, Eq)]
pub struct Config {
    pub db: DbConfig,
    pub server: ServerConfig,
}

/// Where the backing store is and how many connections the pool may hold.
#[derive(Debug, Clone, PartialEq, Eq)]
pub struct DbConfig {
    pub host: String,
    pub port: u16,
    pub user: String,
    pub password: String,
    pub dbname: String,
    pub max_connections: u32,
}

/// Address the service binds to.
#[derive(Debug, Clone, PartialEq, Eq)]
pub struct ServerConfig {
    pub host: String,
    pub port: u16,
}

/// Number of pooled connections used when the configuration names none.
pub fn default_pool_size() -> (n: u32)
    ensures
        n == 5,
{
    5
}

impl DbConfig {
    /// Text of the server URL: the scheme, the user, the password where one
    /// is set, then host and port.
    pub open spec fn server_url_text(self) -> Seq<char> {
        if self.password@.len() == 0 {
            "postgres://"@ + self.user@ + "@"@ + self.host@ + ":"@ + decimal(self.port as nat)
        } else {
            "postgres://"@ + self.user@ + ":"@ + self.password@ + "@"@ + self.host@ + ":"@
                + decimal(self.port as nat)
        }
    }

    /// Text of the database URL: the server URL, a slash, the database name.
    pub open spec fn url_text(self) -> Seq<char> {
        self.server_url_text() + "/"@ + self.dbname@
    }

    /// URL of the database server, without a database name.
    pub fn server_url(&self) -> (url: String)
        ensures
            url@ == self.server_url_text(),
    {
        let mut url = String::from_str("postgres://");
        url.append(self.user.as_str());
        if self.password.as_str().unicode_len() != 0 {
            url.append(":");
            url.append(self.password.as_str());
        }
        url.append("@");
        url.append(self.host.as_str());
        url.append(":");
        push_decimal(&mut url, self.port);
        url
    }

    /// URL of the database itself.
    pub fn url(&self) -> (url: String)
        ensures
            url@ == self.url_text(),
    {
        let mut url = self.server_url();
        url.append("/");
        url.append(self.dbname.as_str());
        url
    }
}

impl ServerConfig {
    /// Text of the service URL under the chosen scheme.
    pub open spec fn url_text(self, https: bool) -> Seq<char> {
        (if https {
            "https://"@
        } else {
            "http://"@
        }) + self.host@ + ":"@ + decimal(self.port as nat)
    }

    /// URL of the service, with `https` or `http` as its scheme.
    pub fn url(&self, https: bool) -> (url: String)
        ensures
            url@ == self.url_text(https),
    {
        let mut url = if https {
            String::from_str("https://")
        } else {
            String::from_str("http://")
        };
        url.append(self.host.as_str());
        url.append(":");
        push_decimal(&mut url, self.port);
        url
    }
}

} // verus!
