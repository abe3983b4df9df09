use vstd::prelude::*;
use vstd::string::*;

use crate::randoms::{is_uuid_v4_text, uuid_v4_string};
use crate::text::{decimal, decimal_string};

verus! {

/// The server's settings: where it listens and the administrator's key.
pub struct Configuration {
    pub ip: String,
    pub port: u16,
    pub admin: AdminConfiguration,
}

/// The administrator's settings.
pub struct AdminConfiguration {
    pub key: String,
}

impl Configuration {
    /// The settings written when no settings file exists: listen on every
    /// interface at port 8080, with a fresh random administrator key.
    pub fn new() -> (config: Configuration)
        ensures
            config.ip@ == "0.0.0.0"@,
            config.port == 8080,
            is_uuid_v4_text(config.admin.key@),
    {
        Configuration { ip: "0.0.0.0".to_owned(), port: 8080, admin: AdminConfiguration::new() }
    }

    /// What the settings look like when printed.
    pub open spec fn display_text(&self) -> Seq<char> {
        "\n- ip: "@ + self.ip@ + "\n- port: "@ + decimal(self.port as nat) + "\n- admin: "@
            + self.admin.display_text() + "\n"@
    }

    /// The printed form of the settings.
    pub fn to_string(&self) -> (s: String)
        ensures
            s@ == self.display_text(),
    {
        let mut s = "\n- ip: ".to_owned();
        s.append(self.ip.as_str());
        s.append("\n- port: ");
        let port = decimal_string(self.port);
        s.append(port.as_str());
        s.append("\n- admin: ");
        let admin = self.admin.to_string();
        s.append(admin.as_str());
        s.append("\n");
        s
    }
}

impl AdminConfiguration {
    /// Administrator settings with a fresh random key.
    pub fn new() -> (admin: AdminConfiguration)
        ensures
            is_uuid_v4_text(admin.key@),
    {
        AdminConfiguration { key: uuid_v4_string() }
    }

    /// Accepts exactly the configured key.
    pub fn check(&self, to_check: &String) -> (res: Result<(), ()>)
        ensures
            res is Ok <==> self.key@ == to_check@,
    {
        if self.key.eq(to_check) {
            return Ok(());
        }
        Err(())
    }

    /// What the administrator settings look like when printed.
    pub open spec fn display_text(&self) -> Seq<char> {
        "\n\t- key: "@ + self.key@ + "\n"@
    }

    /// The printed form of the administrator settings.
    pub fn to_string(&self) -> (s: String)
        ensures
            s@ == self.display_text(),
    {
        let mut s = "\n\t- key: ".to_owned();
        s.append(self.key.as_str());
        s.append("\n");
        s
    }
}

} // verus!
