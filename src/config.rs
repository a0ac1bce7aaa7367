use vstd::prelude::*;
use vstd::string::StringExecFns;

verus! {

/// The host the service binds to when none is configured.
pub const DEFAULT_HOST: &'static str = "127.0.0.1";

/// The port the service binds to when none is configured.
pub const DEFAULT_PORT: u16 = 3000;

/// Relies on num_cpus::get: the number of CPUs available to this process,
/// documented to be at least 1.
#[verifier::external_body]
fn available_cpus() -> (r: usize)
    ensures
        r >= 1,
{
    num_cpus::get()
}

/// The digits of a numeral as `str::parse` reads it for an unsigned integer
/// type: after one optional leading '+'.
pub open spec fn numeral_digits(s: Seq<char>) -> Seq<char> {
    if s.len() > 0 && s[0] == '+' {
        s.drop_first()
    } else {
        s
    }
}

/// At least one ASCII digit, and nothing else, after the optional sign.
pub open spec fn is_numeral(s: Seq<char>) -> bool {
    let d = numeral_digits(s);
    &&& d.len() > 0
    &&& forall|i: int| 0 <= i < d.len() ==> '0' <= #[trigger] d[i] <= '9'
}

/// The value of a sequence of decimal digits.
pub open spec fn digits_value(d: Seq<char>) -> nat
    decreases d.len(),
{
    if d.len() == 0 {
        0
    } else {
        digits_value(d.drop_last()) * 10 + ((d.last() as int) - ('0' as int)) as nat
    }
}

/// The unsigned integer that `s` denotes, when it fits in `max`.
pub open spec fn numeral_within(s: Seq<char>, max: nat) -> Option<nat> {
    if is_numeral(s) && digits_value(numeral_digits(s)) <= max {
        Some(digits_value(numeral_digits(s)))
    } else {
        None
    }
}

/// Relies on `<u16 as FromStr>::from_str`: a numeral that fits is read,
/// anything else (empty, other characters, too large) is an error.
#[verifier::external_body]
fn parse_u16(s: &str) -> (r: Option<u16>)
    ensures
        r matches Some(n) ==> numeral_within(s@, u16::MAX as nat) == Some(n as nat),
        r is None ==> numeral_within(s@, u16::MAX as nat) is None,
{
    s.parse::<u16>().ok()
}

/// Relies on `<usize as FromStr>::from_str`: a numeral that fits is read,
/// anything else (empty, other characters, too large) is an error.
#[verifier::external_body]
fn parse_usize(s: &str) -> (r: Option<usize>)
    ensures
        r matches Some(n) ==> numeral_within(s@, usize::MAX as nat) == Some(n as nat),
        r is None ==> numeral_within(s@, usize::MAX as nat) is None,
{
    s.parse::<usize>().ok()
}

/// Why the service cannot start with the configuration it was given.
#[derive(Clone, Copy, Debug, PartialEq, Eq, Structural)]
pub enum ConfigError {
    /// No database connection string was supplied.
    MissingDatabaseUrl,
    /// A pool capacity of zero was configured.
    ZeroCapacity,
    /// The port is not a number from 0 to 65535.
    InvalidPort,
    /// The pool capacity is not a number that fits in `usize`.
    InvalidCapacity,
}

/// Settings read once at startup and handed to the constructors.
#[derive(Clone, Debug, PartialEq, Eq)]
pub struct ServiceConfig {
    pub database_url: String,
    pub host: String,
    pub port: u16,
    /// Number of pooled connections, and of dispatcher workers.
    pub capacity: usize,
}

impl ServiceConfig {
    /// Builds the configuration from the supplied settings. A missing host
    /// or port takes its default; a missing capacity is the number of
    /// available CPUs.
    pub fn new(
        database_url: Option<String>,
        host: Option<String>,
        port: Option<u16>,
        capacity: Option<usize>,
    ) -> (r: Result<ServiceConfig, ConfigError>)
        ensures
            database_url is None ==> r == Err::<ServiceConfig, ConfigError>(
                ConfigError::MissingDatabaseUrl,
            ),
            database_url is Some && capacity == Some(0usize) ==> r == Err::<ServiceConfig, ConfigError>(
                ConfigError::ZeroCapacity,
            ),
            database_url is Some && capacity != Some(0usize) ==> (r matches Ok(c) && {
                &&& c.database_url == database_url->0
                &&& host matches Some(h) ==> c.host@ == h@
                &&& host is None ==> c.host@ == DEFAULT_HOST@
                &&& port matches Some(p) ==> c.port == p
                &&& port is None ==> c.port == DEFAULT_PORT
                &&& capacity matches Some(n) ==> c.capacity == n
                &&& c.capacity >= 1
            }),
    {
        let database_url = match database_url {
            Some(u) => u,
            None => {
                return Err(ConfigError::MissingDatabaseUrl);
            },
        };
        let capacity = match capacity {
            Some(0) => {
                return Err(ConfigError::ZeroCapacity);
            },
            Some(n) => n,
            None => available_cpus(),
        };
        let host = match host {
            Some(h) => h,
            None => String::from_str(DEFAULT_HOST),
        };
        let port = match port {
            Some(p) => p,
            None => DEFAULT_PORT,
        };
        Ok(ServiceConfig { database_url, host, port, capacity })
    }

    /// Builds the configuration from settings given as text, as they come
    /// from the environment: the port and the capacity are read as decimal
    /// numerals, and then `new` decides.
    pub fn from_text(
        database_url: Option<String>,
        host: Option<String>,
        port: Option<String>,
        capacity: Option<String>,
    ) -> (r: Result<ServiceConfig, ConfigError>)
        ensures
            database_url is None ==> r == Err::<ServiceConfig, ConfigError>(
                ConfigError::MissingDatabaseUrl,
            ),
            database_url is Some && (port matches Some(p) && numeral_within(
                p@,
                u16::MAX as nat,
            ) is None) ==> r == Err::<ServiceConfig, ConfigError>(ConfigError::InvalidPort),
            database_url is Some && (port matches Some(p) ==> numeral_within(
                p@,
                u16::MAX as nat,
            ) is Some) && (capacity matches Some(c) && numeral_within(
                c@,
                usize::MAX as nat,
            ) is None) ==> r == Err::<ServiceConfig, ConfigError>(ConfigError::InvalidCapacity),
            database_url is Some && (port matches Some(p) ==> numeral_within(
                p@,
                u16::MAX as nat,
            ) is Some) && (capacity matches Some(c) ==> numeral_within(
                c@,
                usize::MAX as nat,
            ) is Some && numeral_within(c@, usize::MAX as nat) != Some(0nat)) ==> (r matches Ok(
                cfg,
            ) && {
                &&& cfg.database_url == database_url->0
                &&& host matches Some(h) ==> cfg.host@ == h@
                &&& host is None ==> cfg.host@ == DEFAULT_HOST@
                &&& port matches Some(p) ==> numeral_within(p@, u16::MAX as nat) == Some(
                    cfg.port as nat,
                )
                &&& port is None ==> cfg.port == DEFAULT_PORT
                &&& capacity matches Some(c) ==> numeral_within(c@, usize::MAX as nat) == Some(
                    cfg.capacity as nat,
                )
                &&& cfg.capacity >= 1
            }),
            database_url is Some && (port matches Some(p) ==> numeral_within(
                p@,
                u16::MAX as nat,
            ) is Some) && (capacity matches Some(c) && numeral_within(c@, usize::MAX as nat)
                == Some(0nat)) ==> r == Err::<ServiceConfig, ConfigError>(
                ConfigError::ZeroCapacity,
            ),
    {
        if database_url.is_none() {
            return Err(ConfigError::MissingDatabaseUrl);
        }
        let port = match port {
            Some(p) => match parse_u16(p.as_str()) {
                Some(n) => Some(n),
                None => {
                    return Err(ConfigError::InvalidPort);
                },
            },
            None => None,
        };
        let capacity = match capacity {
            Some(c) => match parse_usize(c.as_str()) {
                Some(n) => Some(n),
                None => {
                    return Err(ConfigError::InvalidCapacity);
                },
            },
            None => None,
        };
        ServiceConfig::new(database_url, host, port, capacity)
    }
}

} // verus!
