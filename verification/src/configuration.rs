//! The settings of the service.

use crate::secret::Secret;
use crate::text::decimal;
use crate::text::decimal_string;
use vstd::prelude::*;

verus! {

/// All settings.
pub struct Settings {
    pub database: DatabaseSettings,
    pub application_port: u16,
}

/// Where the database is and how to log in.
pub struct DatabaseSettings {
    pub username: String,
    pub password: Secret,
    pub port: u16,
    pub host: String,
    pub database_name: String,
}

/// The address of a database:
/// `postgres://<username>:<password>@<host>:<port>/<database_name>`, the port
/// in decimal and every other part as it is.
pub open spec fn connection_text(
    username: Seq<char>,
    password: Seq<char>,
    host: Seq<char>,
    port: u16,
    database_name: Seq<char>,
) -> Seq<char> {
    "postgres://"@ + username + ":"@ + password + "@"@ + host + ":"@ + decimal(port as nat) + "/"@
        + database_name
}

impl DatabaseSettings {
    /// The address to connect to. It holds the password, so it is a secret
    /// too.
    pub fn connection_string(&self) -> (address: Secret)
        ensures
            address@ == connection_text(
                self.username@,
                self.password@,
                self.host@,
                self.port,
                self.database_name@,
            ),
    {
        let port = decimal_string(self.port);
        let mut text = "postgres://".to_owned();
        text.append(self.username.as_str());
        text.append(":");
        text.append(self.password.expose_secret());
        text.append("@");
        text.append(self.host.as_str());
        text.append(":");
        text.append(port.as_str());
        text.append("/");
        text.append(self.database_name.as_str());
        Secret::new(text)
    }
}

} // verus!
