//! Application settings: the settings records, the database connection
//! parameters derived from them, the broker address, and the environment
//! that selects the settings file.

use vstd::prelude::*;
use crate::text::{to_lowercase, debug_quote, push_decimal, decimal, decimal_value, all_decimal_digits,
    lemma_decimal_reads_back, unicode_lowercase,
    debug_quoted, all_ascii_lowercase, is_ascii_text, ascii_lowercase, ascii_uppercase,
    is_ascii_alphanumeric};

verus! {

/// All settings of one service.
pub struct Settings {
    pub application: ApplicationSettings,
    pub database: DatabaseSettings,
    pub broker: BrokerSettings,
}

/// Where the service listens, its public address and its token secret.
pub struct ApplicationSettings {
    pub host: String,
    pub port: u16,
    pub base_url: String,
    pub jwt_secret: String,
}

/// How to reach the database.
pub struct DatabaseSettings {
    pub username: String,
    pub password: String,
    pub host: String,
    pub port: u16,
    pub database_name: String,
    pub require_ssl: bool,
}

/// How to reach the message broker, and the queue to use.
pub struct BrokerSettings {
    pub username: String,
    pub password: String,
    pub host: String,
    pub port: u16,
    pub queue: String,
}

/// Whether the database connection must use TLS or only prefers it.
#[derive(PartialEq, Eq, Structural, Clone, Copy)]
pub enum SslMode {
    Require,
    Prefer,
}

/// The parameters of a database connection.
pub struct ConnectOptions {
    pub username: String,
    pub password: String,
    pub host: String,
    pub port: u16,
    pub ssl_mode: SslMode,
    /// The database to open, or none to connect to the server only.
    pub database: Option<String>,
}

/// The TLS mode the settings ask for.
pub open spec fn ssl_mode_for(require_ssl: bool) -> SslMode {
    if require_ssl { SslMode::Require } else { SslMode::Prefer }
}

impl DatabaseSettings {
    /// Connection parameters without a specific database.
    pub fn without_db(&self) -> (opts: ConnectOptions)
        ensures
            opts.username == self.username,
            opts.password == self.password,
            opts.host == self.host,
            opts.port == self.port,
            opts.ssl_mode == ssl_mode_for(self.require_ssl),
            opts.database is None,
    {
        let ssl_mode = if self.require_ssl { SslMode::Require } else { SslMode::Prefer };
        ConnectOptions {
            username: self.username.clone(),
            password: self.password.clone(),
            host: self.host.clone(),
            port: self.port,
            ssl_mode,
            database: None,
        }
    }

    /// Connection parameters for the database named in the settings.
    pub fn with_db(&self) -> (opts: ConnectOptions)
        ensures
            opts.username == self.username,
            opts.password == self.password,
            opts.host == self.host,
            opts.port == self.port,
            opts.ssl_mode == ssl_mode_for(self.require_ssl),
            opts.database == Some(self.database_name),
    {
        let mut opts = self.without_db();
        opts.database = Some(self.database_name.clone());
        opts
    }
}

/// `amqp://{username}:{password}@{host}:`, the address up to the port.
pub open spec fn amqp_address_prefix(b: BrokerSettings) -> Seq<char> {
    "amqp://"@ + b.username@ + ":"@ + b.password@ + "@"@ + b.host@ + ":"@
}

/// `amqp://{username}:{password}@{host}:{port}`.
pub open spec fn amqp_address(b: BrokerSettings) -> Seq<char> {
    "amqp://"@ + b.username@ + ":"@ + b.password@ + "@"@ + b.host@ + ":"@ + decimal(b.port as nat)
}

impl BrokerSettings {
    /// The broker's address: `amqp://{username}:{password}@{host}:{port}`.
    pub fn get_connection_string(&self) -> (s: String)
        ensures
            s@ == amqp_address(*self),
            s@.subrange(0, amqp_address_prefix(*self).len() as int) == amqp_address_prefix(*self),
            all_decimal_digits(s@.skip(amqp_address_prefix(*self).len() as int)),
            decimal_value(s@.skip(amqp_address_prefix(*self).len() as int)) == self.port,
    {
        proof {
            lemma_decimal_reads_back(self.port as nat);
            let p = amqp_address_prefix(*self);
            let a = amqp_address(*self);
            assert(a == p + decimal(self.port as nat));
            assert(a.subrange(0, p.len() as int) =~= p);
            assert(a.skip(p.len() as int) =~= decimal(self.port as nat));
        }
        let mut s = "amqp://".to_string();
        s.append(self.username.as_str());
        s.append(":");
        s.append(self.password.as_str());
        s.append("@");
        s.append(self.host.as_str());
        s.append(":");
        push_decimal(&mut s, self.port as u64);
        s
    }
}

/// The public address of the service.
pub struct ApplicationBaseUrl(pub String);

/// The settings environments; each has a settings file of its own.
#[derive(PartialEq, Eq, Structural, Clone, Copy, Debug)]
pub enum Environment {
    Local,
    Production,
    Testing,
}

/// The name of an environment.
pub open spec fn environment_name(e: Environment) -> Seq<char> {
    match e {
        Environment::Local => "local"@,
        Environment::Production => "production"@,
        Environment::Testing => "testing"@,
    }
}

/// The environment with the given (lowercase) name, if any.
pub open spec fn environment_named(s: Seq<char>) -> Option<Environment> {
    if s == "local"@ {
        Some(Environment::Local)
    } else if s == "production"@ {
        Some(Environment::Production)
    } else if s == "testing"@ {
        Some(Environment::Testing)
    } else {
        None
    }
}

/// The message with which an unknown environment name is rejected; it quotes
/// the lowercased name.
pub open spec fn unknown_environment_message(lowered: Seq<char>) -> Seq<char> {
    "Unknown environment "@ + debug_quoted(lowered) + "!"@
}

/// The message for an unknown name of ASCII letters and digits, which the
/// debug format quotes as it is.
pub open spec fn plain_unknown_environment_message(lowered: Seq<char>) -> Seq<char> {
    "Unknown environment "@ + seq!['"'] + lowered + seq!['"'] + "!"@
}

/// What reading `value` as an environment gives: the name is lowercased and
/// then looked up.
pub open spec fn environment_parsed(value: Seq<char>, res: Result<Environment, String>) -> bool {
    let lowered = unicode_lowercase(value);
    match environment_named(lowered) {
        Some(e) => res == Ok::<Environment, String>(e),
        None => res matches Err(msg) && msg@ == unknown_environment_message(lowered),
    }
}

impl Environment {
    /// The environment's name, which is also the name of its settings file.
    pub fn as_str(&self) -> (s: &'static str)
        ensures
            s@ == environment_name(*self),
    {
        match self {
            Environment::Local => "local",
            Environment::Production => "production",
            Environment::Testing => "testing",
        }
    }

    /// Read an environment from its name, ignoring case.
    pub fn try_from(value: String) -> (res: Result<Environment, String>)
        ensures
            environment_parsed(value@, res),
            is_ascii_text(value@) ==> match environment_named(ascii_lowercase(value@)) {
                Some(e) => res == Ok::<Environment, String>(e),
                None => res is Err,
            },
            forall|e: Environment| value@ == environment_name(e) ==> res == Ok::<Environment, String>(e),
            forall|e: Environment|
                value@ == ascii_uppercase(environment_name(e)) ==> res == Ok::<Environment, String>(e),
            is_ascii_alphanumeric(value@) && environment_named(ascii_lowercase(value@)) is None ==> (res matches Err(msg)
                && msg@ == plain_unknown_environment_message(ascii_lowercase(value@))),
    {
        let lowered = to_lowercase(value.as_str());
        proof {
            lemma_environment_names();
            assert forall|e: Environment| value@ == environment_name(e) implies lowered@ == environment_name(e) by {
                assert(all_ascii_lowercase(environment_name(e)));
                lemma_lowercase_name_unchanged(value@);
            }
            if is_ascii_alphanumeric(value@) {
                assert forall|i: int| 0 <= i < value@.len() implies (#[trigger] value@[i] as int) < 128 by {
                    assert('a' <= value@[i] <= 'z' || 'A' <= value@[i] <= 'Z' || '0' <= value@[i] <= '9');
                }
                assert forall|i: int| 0 <= i < lowered@.len() implies ('a' <= #[trigger] lowered@[i] <= 'z'
                    || 'A' <= lowered@[i] <= 'Z' || '0' <= lowered@[i] <= '9') by {
                    assert('a' <= value@[i] <= 'z' || 'A' <= value@[i] <= 'Z' || '0' <= value@[i] <= '9');
                }
            }
            assert forall|e: Environment| value@ == ascii_uppercase(environment_name(e)) implies lowered@
                == environment_name(e) by {
                assert(all_ascii_lowercase(environment_name(e)));
                lemma_uppercase_name_lowers_back(environment_name(e));
            }
        }
        Self::from_lowercase(lowered)
    }

    /// The environment with the given (already lowercased) name.
    pub fn from_lowercase(lowered: String) -> (res: Result<Environment, String>)
        ensures
            match environment_named(lowered@) {
                Some(e) => res == Ok::<Environment, String>(e),
                None => res matches Err(msg) && msg@ == unknown_environment_message(lowered@),
            },
            is_ascii_alphanumeric(lowered@) && environment_named(lowered@) is None ==> (res matches Err(msg)
                && msg@ == plain_unknown_environment_message(lowered@)),
    {
        if lowered == "local".to_string() {
            Ok(Environment::Local)
        } else if lowered == "production".to_string() {
            Ok(Environment::Production)
        } else if lowered == "testing".to_string() {
            Ok(Environment::Testing)
        } else {
            let mut msg = "Unknown environment ".to_string();
            let quoted = debug_quote(lowered.as_str());
            msg.append(quoted.as_str());
            msg.append("!");
            Err(msg)
        }
    }
}

/// Every environment name is lowercase ASCII and names exactly that
/// environment, so reading an environment's own name gives it back.
pub proof fn lemma_environment_names()
    ensures
        forall|e: Environment| #[trigger] environment_named(environment_name(e)) == Some(e),
        forall|e: Environment| all_ascii_lowercase(#[trigger] environment_name(e)),
{
    reveal_strlit("local");
    reveal_strlit("production");
    reveal_strlit("testing");
    assert("local"@.len() == 5 && "production"@.len() == 10 && "testing"@.len() == 7);
    assert forall|e: Environment| all_ascii_lowercase(#[trigger] environment_name(e)) by {
        match e {
            Environment::Local => {}
            Environment::Production => {}
            Environment::Testing => {}
        }
    }
}

/// Lowercase ASCII text is ASCII, and lowercasing leaves it as it is.
proof fn lemma_lowercase_name_unchanged(s: Seq<char>)
    requires
        all_ascii_lowercase(s),
    ensures
        is_ascii_text(s),
        ascii_lowercase(s) == s,
{
    assert forall|i: int| 0 <= i < s.len() implies (#[trigger] s[i] as int) < 128 by {
        assert('a' <= s[i] <= 'z');
    }
    assert(ascii_lowercase(s) =~= s);
}

/// The uppercase of lowercase ASCII text is ASCII and lowercases back to it.
proof fn lemma_uppercase_name_lowers_back(s: Seq<char>)
    requires
        all_ascii_lowercase(s),
    ensures
        is_ascii_text(ascii_uppercase(s)),
        ascii_lowercase(ascii_uppercase(s)) == s,
{
    let u = ascii_uppercase(s);
    assert forall|i: int| 0 <= i < u.len() implies (#[trigger] u[i] as int) < 128 && 'A' <= u[i] <= 'Z' by {
        assert('a' <= s[i] <= 'z');
    }
    assert(ascii_lowercase(u) =~= s);
}

/// Reading an environment's name in uppercase ASCII gives the environment.
pub proof fn lemma_environment_uppercase_names()
    ensures
        forall|e: Environment| #[trigger] environment_named(ascii_lowercase(ascii_uppercase(environment_name(e)))) == Some(e),
{
    lemma_environment_names();
    assert forall|e: Environment| #[trigger] environment_named(ascii_lowercase(ascii_uppercase(environment_name(e)))) == Some(e) by {
        lemma_uppercase_name_lowers_back(environment_name(e));
    }
}

} // verus!
