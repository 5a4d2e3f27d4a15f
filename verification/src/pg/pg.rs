//! The PostgreSQL connection settings and how they are read.
use vstd::prelude::*;
use crate::error::BotError;
use crate::text::{int_decimal, parse_integer, parse_u16, u64_to_decimal};

verus! {

/// Where and as whom to connect to PostgreSQL.
#[derive(Debug)]
pub struct PgConnect {
    host: String,
    user: String,
    password: String,
    dbname: String,
    port: u16,
}

/// The settings as plain values: host, user, password, database, port.
pub type PgSettings = (Seq<char>, Seq<char>, Seq<char>, Seq<char>, u16);

impl View for PgConnect {
    type V = PgSettings;

    closed spec fn view(&self) -> PgSettings {
        (self.host@, self.user@, self.password@, self.dbname@, self.port)
    }
}

impl PgConnect {
    /// Sets the host.
    pub fn host(&mut self, host: String) -> (r: &mut Self)
        ensures
            (*r)@ == (host@, old(self)@.1, old(self)@.2, old(self)@.3, old(self)@.4),
            *final(self) == *final(r),
    {
        self.host = host;
        self
    }

    /// Sets the user.
    pub fn user(&mut self, user: String) -> (r: &mut Self)
        ensures
            (*r)@ == (old(self)@.0, user@, old(self)@.2, old(self)@.3, old(self)@.4),
            *final(self) == *final(r),
    {
        self.user = user;
        self
    }

    /// Sets the password.
    pub fn password(&mut self, password: String) -> (r: &mut Self)
        ensures
            (*r)@ == (old(self)@.0, old(self)@.1, password@, old(self)@.3, old(self)@.4),
            *final(self) == *final(r),
    {
        self.password = password;
        self
    }

    /// Sets the database.
    pub fn dbname(&mut self, dbname: String) -> (r: &mut Self)
        ensures
            (*r)@ == (old(self)@.0, old(self)@.1, old(self)@.2, dbname@, old(self)@.4),
            *final(self) == *final(r),
    {
        self.dbname = dbname;
        self
    }

    /// Sets the port from its text; an error where the text is not a
    /// `u16`, and the settings are then unchanged.
    pub fn port(&mut self, port: String) -> (r: Result<&mut Self, BotError>)
        ensures
            match parse_integer(port@, false, 0, u16::MAX as int) {
                Some(p) => r matches Ok(s) && (*s)@ == (
                    old(self)@.0,
                    old(self)@.1,
                    old(self)@.2,
                    old(self)@.3,
                    p as u16,
                ) && *final(self) == *final(s),
                None => r == Err::<&mut Self, BotError>(BotError::InvalidInteger) && *final(self)
                    == *old(self),
            },
    {
        match parse_u16(port.as_str()) {
            Some(p) => {
                self.port = p;
                Ok(self)
            },
            None => Err(BotError::InvalidInteger),
        }
    }

    /// The settings read from the values of `PG_DB`, `PG_PASS`, `PG_HOST`,
    /// `PG_USER` and `PG_PORT`; an error where the port is not a `u16`.
    pub fn from_env_values(dbname: String, password: String, host: String, user: String, port: String) -> (r:
        Result<PgConnect, BotError>)
        ensures
            match parse_integer(port@, false, 0, u16::MAX as int) {
                Some(p) => r matches Ok(pg) && pg@ == (host@, user@, password@, dbname@, p as u16),
                None => r == Err::<PgConnect, BotError>(BotError::InvalidInteger),
            },
    {
        let mut pg = PgConnect { dbname, password, host, user, port: 0 };
        match parse_u16(port.as_str()) {
            Some(p) => {
                pg.port = p;
                Ok(pg)
            },
            None => Err(BotError::InvalidInteger),
        }
    }

    /// The connection string of these settings.
    pub fn connection_string(&self) -> (r: String)
        ensures
            r@ == "host="@ + self@.0 + " user="@ + self@.1 + " password="@ + self@.2 + " dbname="@
                + self@.3 + " port="@ + int_decimal(self@.4 as int),
    {
        let mut r = String::from_str("host=");
        r.append(self.host.as_str());
        r.append(" user=");
        r.append(self.user.as_str());
        r.append(" password=");
        r.append(self.password.as_str());
        r.append(" dbname=");
        r.append(self.dbname.as_str());
        r.append(" port=");
        r.append(u64_to_decimal(self.port as u64).as_str());
        r
    }

    /// The host.
    pub fn get_host(&self) -> (r: &str)
        ensures
            r@ == self@.0,
    {
        self.host.as_str()
    }

    /// The user.
    pub fn get_user(&self) -> (r: &str)
        ensures
            r@ == self@.1,
    {
        self.user.as_str()
    }

    /// The password.
    pub fn get_password(&self) -> (r: &str)
        ensures
            r@ == self@.2,
    {
        self.password.as_str()
    }

    /// The database.
    pub fn get_dbname(&self) -> (r: &str)
        ensures
            r@ == self@.3,
    {
        self.dbname.as_str()
    }

    /// The port.
    pub fn get_port(&self) -> (r: u16)
        ensures
            r == self@.4,
    {
        self.port
    }
}

} // verus!
