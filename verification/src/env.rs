//! Environment-driven construction of a [`BootstrapConfig`].
//!
//! Reading the process environment is the caller's business; this module
//! takes the raw values that were (or were not) found and builds the
//! configuration, reporting exactly which variable was missing or
//! malformed. The port value is the one field that must parse, as a
//! decimal 16-bit unsigned integer.

use vstd::prelude::*;
use crate::config::{ApplicationConfig, BootstrapConfig, ConnectionConfig, RootConfig};
use crate::error::BootstrapFromEnvironmentError;

verus! {

/// The fixed set of environment variables that drive construction.
#[derive(Clone, Copy, Debug, PartialEq, Eq, Structural)]
pub enum EnvVar {
    RootUsername,
    RootPassword,
    RootDatabase,
    AppUsername,
    AppPassword,
    AppDatabase,
    DatabaseHost,
    DatabasePort,
}

impl EnvVar {
    /// The name under which the variable is looked up in the environment.
    pub open spec fn spec_name(self) -> Seq<char> {
        match self {
            EnvVar::RootUsername => "ROOT_USERNAME"@,
            EnvVar::RootPassword => "ROOT_PASSWORD"@,
            EnvVar::RootDatabase => "ROOT_DATABASE"@,
            EnvVar::AppUsername => "APP_USERNAME"@,
            EnvVar::AppPassword => "APP_PASSWORD"@,
            EnvVar::AppDatabase => "APP_DATABASE"@,
            EnvVar::DatabaseHost => "DATABASE_HOST"@,
            EnvVar::DatabasePort => "DATABASE_PORT"@,
        }
    }

    /// The name under which the variable is looked up in the environment.
    pub fn name(&self) -> (r: &'static str)
        ensures
            r@ == self.spec_name(),
    {
        match self {
            EnvVar::RootUsername => "ROOT_USERNAME",
            EnvVar::RootPassword => "ROOT_PASSWORD",
            EnvVar::RootDatabase => "ROOT_DATABASE",
            EnvVar::AppUsername => "APP_USERNAME",
            EnvVar::AppPassword => "APP_PASSWORD",
            EnvVar::AppDatabase => "APP_DATABASE",
            EnvVar::DatabaseHost => "DATABASE_HOST",
            EnvVar::DatabasePort => "DATABASE_PORT",
        }
    }
}

pub open spec fn is_decimal_digit(c: char) -> bool {
    48 <= c as u32 && c as u32 <= 57
}

pub open spec fn decimal_digit_value(c: char) -> int {
    c as u32 - 48
}

pub open spec fn all_decimal_digits(s: Seq<char>) -> bool {
    forall|i: int| 0 <= i < s.len() ==> is_decimal_digit(#[trigger] s[i])
}

/// The number a string of decimal digits denotes, most significant first.
pub open spec fn decimal_value(s: Seq<char>) -> int
    decreases s.len(),
{
    if s.len() == 0 {
        0
    } else {
        decimal_value(s.drop_last()) * 10 + decimal_digit_value(s.last())
    }
}

/// Exactly the strings accepted as a port: nonempty, decimal digits only,
/// denoting a value that fits in sixteen bits.
pub open spec fn valid_port_text(s: Seq<char>) -> bool {
    s.len() > 0 && all_decimal_digits(s) && decimal_value(s) <= 65535
}

proof fn lemma_decimal_value_nonneg(s: Seq<char>)
    requires
        all_decimal_digits(s),
    ensures
        decimal_value(s) >= 0,
    decreases s.len(),
{
    if s.len() > 0 {
        assert(all_decimal_digits(s.drop_last())) by {
            assert forall|i: int| 0 <= i < s.drop_last().len() implies is_decimal_digit(
                #[trigger] s.drop_last()[i],
            ) by {
                assert(s.drop_last()[i] == s[i]);
            }
        }
        lemma_decimal_value_nonneg(s.drop_last());
    }
}

proof fn lemma_decimal_value_prefix_le(s: Seq<char>, n: int)
    requires
        all_decimal_digits(s),
        0 <= n <= s.len(),
    ensures
        decimal_value(s.subrange(0, n)) <= decimal_value(s),
    decreases s.len() - n,
{
    if n == s.len() {
        assert(s.subrange(0, n) =~= s);
    } else {
        let shorter = s.subrange(0, n);
        let longer = s.subrange(0, n + 1);
        assert(longer.drop_last() =~= shorter);
        assert(all_decimal_digits(shorter)) by {
            assert forall|i: int| 0 <= i < shorter.len() implies is_decimal_digit(
                #[trigger] shorter[i],
            ) by {
                assert(shorter[i] == s[i]);
            }
        }
        lemma_decimal_value_nonneg(shorter);
        assert(longer.last() == s[n]);
        assert(decimal_value(longer) >= decimal_value(shorter));
        lemma_decimal_value_prefix_le(s, n + 1);
    }
}

/// Parses a decimal port number, accepting a string exactly when it is a
/// nonempty run of digits whose value fits in a 16-bit unsigned integer.
pub fn parse_port(s: &str) -> (r: Option<u16>)
    ensures
        r is Some <==> valid_port_text(s@),
        r matches Some(p) ==> p == decimal_value(s@),
{
    let n = s.unicode_len();
    if n == 0 {
        return None;
    }
    let mut i: usize = 0;
    let mut acc: u32 = 0;
    while i < n
        invariant
            0 < n,
            n == s@.len(),
            i <= n,
            all_decimal_digits(s@.subrange(0, i as int)),
            acc == decimal_value(s@.subrange(0, i as int)),
            acc <= 65535,
        decreases n - i,
    {
        let c = s.get_char(i);
        let v = c as u32;
        if v < 48 || v > 57 {
            proof {
                assert(!is_decimal_digit(s@[i as int]));
            }
            return None;
        }
        let next = acc * 10 + (v - 48);
        if next > 65535 {
            proof {
                if all_decimal_digits(s@) {
                    let longer = s@.subrange(0, i + 1);
                    assert(longer.drop_last() =~= s@.subrange(0, i as int));
                    assert(longer.last() == s@[i as int]);
                    assert(decimal_value(longer) == next);
                    lemma_decimal_value_prefix_le(s@, i + 1);
                }
            }
            return None;
        }
        acc = next;
        i = i + 1;
        proof {
            let prefix = s@.subrange(0, i as int);
            assert(prefix.drop_last() =~= s@.subrange(0, i - 1));
            assert(prefix.last() == s@[i - 1]);
            assert(all_decimal_digits(prefix)) by {
                assert forall|k: int| 0 <= k < prefix.len() implies is_decimal_digit(
                    #[trigger] prefix[k],
                ) by {
                    if k < i - 1 {
                        assert(prefix[k] == s@.subrange(0, i - 1)[k]);
                    }
                }
            }
        }
    }
    proof {
        assert(s@.subrange(0, n as int) =~= s@);
    }
    Some(acc as u16)
}

/// Whether the raw port variable is present and holds a valid port.
pub open spec fn port_parses(port: Option<String>) -> bool {
    port matches Some(p) && valid_port_text(p@)
}

/// Which variable, in the fixed lookup order, is the first one missing.
pub open spec fn first_missing(
    root_username: Option<String>,
    root_password: Option<String>,
    root_database: Option<String>,
    app_username: Option<String>,
    app_password: Option<String>,
    app_database: Option<String>,
    host: Option<String>,
    port: Option<String>,
) -> Option<EnvVar> {
    if root_username is None {
        Some(EnvVar::RootUsername)
    } else if root_password is None {
        Some(EnvVar::RootPassword)
    } else if root_database is None {
        Some(EnvVar::RootDatabase)
    } else if app_username is None {
        Some(EnvVar::AppUsername)
    } else if app_password is None {
        Some(EnvVar::AppPassword)
    } else if app_database is None {
        Some(EnvVar::AppDatabase)
    } else if host is None {
        Some(EnvVar::DatabaseHost)
    } else if port is None {
        Some(EnvVar::DatabasePort)
    } else {
        None
    }
}

impl BootstrapConfig {
    /// Builds a configuration from the values of the eight environment
    /// variables, each given as `Some` text or `None` when absent from the
    /// environment. The first missing variable, in lookup order, is
    /// reported; with all eight present, a port value that is not a
    /// decimal 16-bit number is reported; otherwise the configuration is
    /// returned, built from exactly the given values.
    pub fn from_env_values(
        root_username: Option<String>,
        root_password: Option<String>,
        root_database: Option<String>,
        app_username: Option<String>,
        app_password: Option<String>,
        app_database: Option<String>,
        host: Option<String>,
        port: Option<String>,
    ) -> (r: Result<BootstrapConfig, BootstrapFromEnvironmentError>)
        ensures
            r is Ok <==> (first_missing(
                root_username,
                root_password,
                root_database,
                app_username,
                app_password,
                app_database,
                host,
                port,
            ) is None && port_parses(port)),
            first_missing(
                root_username,
                root_password,
                root_database,
                app_username,
                app_password,
                app_database,
                host,
                port,
            ) matches Some(v) ==> r == Err::<BootstrapConfig, _>(
                BootstrapFromEnvironmentError::ConfigMissing(v),
            ),
            port matches Some(p) ==> (first_missing(
                root_username,
                root_password,
                root_database,
                app_username,
                app_password,
                app_database,
                host,
                port,
            ) is None && !valid_port_text(p@) ==> r == Err::<BootstrapConfig, _>(
                BootstrapFromEnvironmentError::ConfigParseFailed(EnvVar::DatabasePort, p),
            )),
            r matches Ok(c) ==> {
                &&& root_username matches Some(s) && c.root.username == s
                &&& root_password matches Some(s) && c.root.password == s
                &&& root_database matches Some(s) && c.root.database == s
                &&& app_username matches Some(s) && c.app.username == s
                &&& app_password matches Some(s) && c.app.password == s
                &&& app_database matches Some(s) && c.app.database == s
                &&& host matches Some(s) && c.conn.host == s
                &&& port matches Some(s) && c.conn.port == decimal_value(s@)
            },
    {
        let root_username = match root_username {
            Some(s) => s,
            None => {
                return Err(BootstrapFromEnvironmentError::ConfigMissing(EnvVar::RootUsername));
            },
        };
        let root_password = match root_password {
            Some(s) => s,
            None => {
                return Err(BootstrapFromEnvironmentError::ConfigMissing(EnvVar::RootPassword));
            },
        };
        let root_database = match root_database {
            Some(s) => s,
            None => {
                return Err(BootstrapFromEnvironmentError::ConfigMissing(EnvVar::RootDatabase));
            },
        };
        let app_username = match app_username {
            Some(s) => s,
            None => {
                return Err(BootstrapFromEnvironmentError::ConfigMissing(EnvVar::AppUsername));
            },
        };
        let app_password = match app_password {
            Some(s) => s,
            None => {
                return Err(BootstrapFromEnvironmentError::ConfigMissing(EnvVar::AppPassword));
            },
        };
        let app_database = match app_database {
            Some(s) => s,
            None => {
                return Err(BootstrapFromEnvironmentError::ConfigMissing(EnvVar::AppDatabase));
            },
        };
        let host = match host {
            Some(s) => s,
            None => {
                return Err(BootstrapFromEnvironmentError::ConfigMissing(EnvVar::DatabaseHost));
            },
        };
        let port_text = match port {
            Some(s) => s,
            None => {
                return Err(BootstrapFromEnvironmentError::ConfigMissing(EnvVar::DatabasePort));
            },
        };
        let port_number = match parse_port(port_text.as_str()) {
            Some(p) => p,
            None => {
                return Err(BootstrapFromEnvironmentError::ConfigParseFailed(
                    EnvVar::DatabasePort,
                    port_text,
                ));
            },
        };
        Ok(BootstrapConfig::new(
            RootConfig::new(root_username, root_password, root_database),
            ApplicationConfig::new(app_username, app_password, app_database),
            ConnectionConfig::new(host, port_number),
        ))
    }
}

} // verus!
