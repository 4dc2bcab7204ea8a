//! Database settings: where the database is, and the pragmas each new
//! connection runs.

use vstd::string::*;
use crate::token::decimal;
use vstd::prelude::*;

verus! {

pub const DEFAULT_DATABASE_URL: &'static str = "./photos.db";

/// The database to open: the one given, else the one the environment names,
/// else the default file.
pub fn get_database_url(url: Option<String>, from_env: Option<String>) -> (r: String)
    ensures
        r@ == match (url, from_env) {
            (Some(u), _) => u@,
            (None, Some(e)) => e@,
            (None, None) => DEFAULT_DATABASE_URL@,
        },
{
    match url {
        Some(u) => u,
        None => match from_env {
            Some(e) => e,
            None => String::from_str(DEFAULT_DATABASE_URL),
        },
    }
}

/// Settings applied to each new connection.
#[derive(Debug, Clone, Copy, PartialEq, Eq, Structural)]
pub struct ConnectionOptions {
    pub enable_foreign_keys: bool,
    /// How long to wait on a locked database, in milliseconds.
    pub busy_timeout: Option<u64>,
}

/// The statements that apply the options, in order.
pub open spec fn pragmas_of(o: ConnectionOptions) -> Seq<Seq<char>> {
    let fk: Seq<Seq<char>> = if o.enable_foreign_keys {
        seq!["PRAGMA foreign_keys = ON;"@]
    } else {
        Seq::empty()
    };
    match o.busy_timeout {
        Some(ms) => fk.push("PRAGMA busy_timeout = "@ + decimal(ms as nat) + seq![';']),
        None => fk,
    }
}

impl ConnectionOptions {
    /// Foreign keys on, and a wait of 100 ms on a locked database.
    pub fn default() -> (r: ConnectionOptions)
        ensures
            r.enable_foreign_keys,
            r.busy_timeout == Some(100u64),
    {
        ConnectionOptions { enable_foreign_keys: true, busy_timeout: Some(100) }
    }

    /// The SQL statements to run on a new connection.
    pub fn pragmas(&self) -> (r: Vec<String>)
        ensures
            r@.map_values(|s: String| s@) == pragmas_of(*self),
    {
        let mut r: Vec<String> = Vec::new();
        if self.enable_foreign_keys {
            r.push(String::from_str("PRAGMA foreign_keys = ON;"));
        }
        let ghost fk = r@;
        assert(fk.map_values(|s: String| s@) =~= (if self.enable_foreign_keys {
            seq!["PRAGMA foreign_keys = ON;"@]
        } else {
            Seq::<Seq<char>>::empty()
        }));
        match self.busy_timeout {
            Some(ms) => {
                let mut s = String::from_str("PRAGMA busy_timeout = ");
                crate::token::push_decimal(&mut s, ms);
                crate::text::push_char(&mut s, ';');
                assert(s@ =~= "PRAGMA busy_timeout = "@ + decimal(ms as nat) + seq![';']);
                r.push(s);
                assert(r@.map_values(|s: String| s@) =~= fk.map_values(|s: String| s@).push(
                    "PRAGMA busy_timeout = "@ + decimal(ms as nat) + seq![';'],
                ));
            },
            None => {},
        }
        r
    }
}

} // verus!
