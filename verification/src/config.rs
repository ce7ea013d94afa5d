//! Application settings and the database connection strings built from them.

use vstd::prelude::*;

use crate::text::{decimal, decimal_string};

verus! {

/// Everything the service reads from its configuration file.
pub struct Settings {
    pub database: DatabaseSettings,
    pub application_port: u16,
}

/// Where and as whom to reach the Postgres database.
pub struct DatabaseSettings {
    pub username: String,
    pub password: String,
    pub port: u16,
    pub host: String,
    pub database_name: String,
}

impl DatabaseSettings {
    /// `postgres://{username}:{password}@{host}:{port}`: the server,
    /// without choosing a database on it.
    pub open spec fn server_url(&self) -> Seq<char> {
        "postgres://"@ + self.username@ + ":"@ + self.password@ + "@"@ + self.host@ + ":"@
            + decimal(self.port as nat)
    }

    /// `postgres://{username}:{password}@{host}:{port}/{database_name}`.
    pub open spec fn database_url(&self) -> Seq<char> {
        self.server_url() + "/"@ + self.database_name@
    }

    /// The URL of the configured database on the configured server.
    pub fn connection_string(&self) -> (s: String)
        ensures
            s@ == self.database_url(),
            s@ == "postgres://"@ + self.username@ + ":"@ + self.password@ + "@"@ + self.host@ + ":"@
                + decimal(self.port as nat) + "/"@ + self.database_name@,
    {
        let mut s = self.connection_string_without_db();
        s.append("/");
        s.append(self.database_name.as_str());
        s
    }

    /// The URL of the configured server, naming no database (for creating one).
    pub fn connection_string_without_db(&self) -> (s: String)
        ensures
            s@ == self.server_url(),
            s@ == "postgres://"@ + self.username@ + ":"@ + self.password@ + "@"@ + self.host@ + ":"@
                + decimal(self.port as nat),
    {
        let mut s = String::from_str("postgres://");
        s.append(self.username.as_str());
        s.append(":");
        s.append(self.password.as_str());
        s.append("@");
        s.append(self.host.as_str());
        s.append(":");
        let port = decimal_string(self.port as u128);
        s.append(port.as_str());
        s
    }
}

/// The URL with a database is the URL without one, then `/` and the
/// database's name: both connect to the same server as the same user.
pub proof fn connection_string_extends_server_url(settings: DatabaseSettings)
    ensures
        settings.database_url() == settings.server_url() + "/"@ + settings.database_name@,
        settings.server_url().is_prefix_of(settings.database_url()),
{
    let with_db = settings.database_url();
    let without = settings.server_url();
    assert(with_db.subrange(0, without.len() as int) =~= without);
}

} // verus!
