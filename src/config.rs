use vstd::prelude::*;

verus! {

pub struct Database {
    pub url: String,
}

pub struct Rabbit {
    pub host: String,
    pub port: u16,
    pub username: String,
    pub password: String,
}

pub struct Configs {
    pub database: Database,
    pub rabbit: Rabbit,
}

/// A setting read from the environment, named there `DATABASE_URL`,
/// `RABBIT_HOST`, `RABBIT_PORT`, `RABBIT_USERNAME` and `RABBIT_PASSWORD`
/// (in any case).
#[derive(PartialEq, Eq, Structural, Clone, Copy, Debug)]
pub enum ConfigKey {
    DatabaseUrl,
    RabbitHost,
    RabbitPort,
    RabbitUsername,
    RabbitPassword,
}

#[derive(PartialEq, Eq, Structural, Clone, Copy, Debug)]
pub enum ConfigError {
    /// No variable names the setting.
    Missing(ConfigKey),
    /// The port is not a decimal number from 0 to 65535.
    InvalidPort,
}

/// The variable name of a setting, in lower case.
pub open spec fn key_name(key: ConfigKey) -> Seq<char> {
    match key {
        ConfigKey::DatabaseUrl => seq!['d', 'a', 't', 'a', 'b', 'a', 's', 'e', '_', 'u', 'r', 'l'],
        ConfigKey::RabbitHost => seq!['r', 'a', 'b', 'b', 'i', 't', '_', 'h', 'o', 's', 't'],
        ConfigKey::RabbitPort => seq!['r', 'a', 'b', 'b', 'i', 't', '_', 'p', 'o', 'r', 't'],
        ConfigKey::RabbitUsername => seq![
            'r',
            'a',
            'b',
            'b',
            'i',
            't',
            '_',
            'u',
            's',
            'e',
            'r',
            'n',
            'a',
            'm',
            'e',
        ],
        ConfigKey::RabbitPassword => seq![
            'r',
            'a',
            'b',
            'b',
            'i',
            't',
            '_',
            'p',
            'a',
            's',
            's',
            'w',
            'o',
            'r',
            'd',
        ],
    }
}

/// Whether character `c` of a variable name stands for `k` of a lower-case
/// name: the same character, or its ASCII capital.
pub open spec fn char_matches(c: char, k: char) -> bool {
    c == k || ('a' <= k <= 'z' && c as u32 + 32 == k as u32)
}

/// Whether a variable name is `key`, ignoring ASCII case.
pub open spec fn name_matches(name: Seq<char>, key: Seq<char>) -> bool {
    name.len() == key.len() && forall|i: int| 0 <= i < name.len() ==> char_matches(name[i], key[i])
}

/// The value of the last variable whose name is `key`.
pub open spec fn env_lookup(vars: Seq<(String, String)>, key: Seq<char>) -> Option<Seq<char>>
    decreases vars.len(),
{
    if vars.len() == 0 {
        None
    } else if name_matches(vars.last().0@, key) {
        Some(vars.last().1@)
    } else {
        env_lookup(vars.drop_last(), key)
    }
}

pub open spec fn is_digit(c: char) -> bool {
    '0' <= c <= '9'
}

/// The number that the decimal digits `s` write.
pub open spec fn digits_value(s: Seq<char>) -> int
    decreases s.len(),
{
    if s.len() == 0 {
        0
    } else {
        digits_value(s.drop_last()) * 10 + (s.last() as u32 - '0' as u32)
    }
}

/// Whether `s` writes a port number in decimal.
pub open spec fn is_port_text(s: Seq<char>) -> bool {
    &&& s.len() > 0
    &&& forall|i: int| 0 <= i < s.len() ==> is_digit(#[trigger] s[i])
    &&& digits_value(s) <= 65535
}

/// The first setting that is missing or invalid, in the order database URL,
/// host, port, user name, password; `None` when every one is there.
pub open spec fn config_error(vars: Seq<(String, String)>) -> Option<ConfigError> {
    if env_lookup(vars, key_name(ConfigKey::DatabaseUrl)) is None {
        Some(ConfigError::Missing(ConfigKey::DatabaseUrl))
    } else if env_lookup(vars, key_name(ConfigKey::RabbitHost)) is None {
        Some(ConfigError::Missing(ConfigKey::RabbitHost))
    } else if env_lookup(vars, key_name(ConfigKey::RabbitPort)) is None {
        Some(ConfigError::Missing(ConfigKey::RabbitPort))
    } else if !is_port_text(env_lookup(vars, key_name(ConfigKey::RabbitPort))->0) {
        Some(ConfigError::InvalidPort)
    } else if env_lookup(vars, key_name(ConfigKey::RabbitUsername)) is None {
        Some(ConfigError::Missing(ConfigKey::RabbitUsername))
    } else if env_lookup(vars, key_name(ConfigKey::RabbitPassword)) is None {
        Some(ConfigError::Missing(ConfigKey::RabbitPassword))
    } else {
        None
    }
}

fn key_text(key: ConfigKey) -> (r: Vec<char>)
    ensures
        r@ == key_name(key),
{
    match key {
        ConfigKey::DatabaseUrl => vec!['d', 'a', 't', 'a', 'b', 'a', 's', 'e', '_', 'u', 'r', 'l'],
        ConfigKey::RabbitHost => vec!['r', 'a', 'b', 'b', 'i', 't', '_', 'h', 'o', 's', 't'],
        ConfigKey::RabbitPort => vec!['r', 'a', 'b', 'b', 'i', 't', '_', 'p', 'o', 'r', 't'],
        ConfigKey::RabbitUsername => vec![
            'r',
            'a',
            'b',
            'b',
            'i',
            't',
            '_',
            'u',
            's',
            'e',
            'r',
            'n',
            'a',
            'm',
            'e',
        ],
        ConfigKey::RabbitPassword => vec![
            'r',
            'a',
            'b',
            'b',
            'i',
            't',
            '_',
            'p',
            'a',
            's',
            's',
            'w',
            'o',
            'r',
            'd',
        ],
    }
}

/// Whether variable name `name` is `key`, ignoring ASCII case.
fn matches_key(name: &str, key: &Vec<char>) -> (r: bool)
    ensures
        r == name_matches(name@, key@),
{
    let n = name.unicode_len();
    if n != key.len() {
        return false;
    }
    let mut i: usize = 0;
    while i < n
        invariant
            n == name@.len(),
            n == key@.len(),
            i <= n,
            forall|j: int| 0 <= j < i ==> char_matches(name@[j], key@[j]),
        decreases n - i,
    {
        let c = name.get_char(i);
        let k = key[i];
        let same = c == k || ('a' <= k && k <= 'z' && (c as u32) + 32 == k as u32);
        if !same {
            return false;
        }
        i = i + 1;
    }
    true
}

/// The value of the last variable named `key`.
fn lookup(vars: &Vec<(String, String)>, key: ConfigKey) -> (r: Option<String>)
    ensures
        r is None <==> env_lookup(vars@, key_name(key)) is None,
        r matches Some(v) ==> env_lookup(vars@, key_name(key)) == Some(v@),
{
    let name = key_text(key);
    let mut i: usize = vars.len();
    assert(vars@.subrange(0, i as int) =~= vars@);
    while i > 0
        invariant
            i <= vars@.len(),
            name@ == key_name(key),
            env_lookup(vars@, key_name(key)) == env_lookup(vars@.subrange(0, i as int), key_name(key)),
        decreases i,
    {
        let ghost prefix = vars@.subrange(0, i as int);
        assert(prefix.drop_last() =~= vars@.subrange(0, i - 1));
        if matches_key(vars[i - 1].0.as_str(), &name) {
            return Some(vars[i - 1].1.clone());
        }
        i = i - 1;
    }
    assert(vars@.subrange(0, 0) =~= Seq::<(String, String)>::empty());
    None
}

/// The number a port text writes, held at 65536 once it passes 65535.
pub open spec fn capped_value(s: Seq<char>) -> int {
    if digits_value(s) > 65535 {
        65536
    } else {
        digits_value(s)
    }
}

proof fn lemma_digits_value_nonnegative(s: Seq<char>)
    requires
        forall|i: int| 0 <= i < s.len() ==> is_digit(#[trigger] s[i]),
    ensures
        digits_value(s) >= 0,
    decreases s.len(),
{
    if s.len() > 0 {
        assert(is_digit(s[s.len() - 1]));
        assert forall|i: int| 0 <= i < s.drop_last().len() implies is_digit(#[trigger] s.drop_last()[i]) by {
            assert(s.drop_last()[i] == s[i]);
        }
        lemma_digits_value_nonnegative(s.drop_last());
    }
}

/// Reads a port number written in decimal.
fn parse_port(text: &str) -> (r: Option<u16>)
    ensures
        r is Some <==> is_port_text(text@),
        r matches Some(p) ==> p == digits_value(text@),
{
    let n = text.unicode_len();
    if n == 0 {
        return None;
    }
    let mut value: u32 = 0;
    let mut i: usize = 0;
    while i < n
        invariant
            n == text@.len(),
            i <= n,
            forall|j: int| 0 <= j < i ==> is_digit(#[trigger] text@[j]),
            value == capped_value(text@.subrange(0, i as int)),
        decreases n - i,
    {
        let c = text.get_char(i);
        if !('0' <= c && c <= '9') {
            assert(!is_digit(text@[i as int]));
            return None;
        }
        let ghost prefix = text@.subrange(0, i as int);
        let ghost next = text@.subrange(0, i + 1);
        proof {
            assert(next.drop_last() =~= prefix);
            assert(next.last() == c);
            assert forall|j: int| 0 <= j < prefix.len() implies is_digit(#[trigger] prefix[j]) by {
                assert(prefix[j] == text@[j]);
            }
            lemma_digits_value_nonnegative(prefix);
        }
        let d = (c as u32) - ('0' as u32);
        value = if value >= 65536 || value * 10 + d > 65535 {
            65536
        } else {
            value * 10 + d
        };
        i = i + 1;
    }
    assert(text@.subrange(0, n as int) =~= text@);
    if value > 65535 {
        None
    } else {
        Some(value as u16)
    }
}

impl Configs {
    /// The settings for environment `_environment`, read from the variables
    /// `vars` (name and value, in the order the environment lists them).
    /// Names are matched ignoring ASCII case, and the last of several
    /// variables with one name wins.
    pub fn new(_environment: &str, vars: &Vec<(String, String)>) -> (r: Result<Configs, ConfigError>)
        ensures
            r is Err <==> config_error(vars@) is Some,
            r matches Err(e) ==> config_error(vars@) == Some(e),
            r matches Ok(c) ==> {
                &&& env_lookup(vars@, key_name(ConfigKey::DatabaseUrl)) == Some(c.database.url@)
                &&& env_lookup(vars@, key_name(ConfigKey::RabbitHost)) == Some(c.rabbit.host@)
                &&& env_lookup(vars@, key_name(ConfigKey::RabbitPort)) matches Some(p) && c.rabbit.port
                    == digits_value(p)
                &&& env_lookup(vars@, key_name(ConfigKey::RabbitUsername)) == Some(c.rabbit.username@)
                &&& env_lookup(vars@, key_name(ConfigKey::RabbitPassword)) == Some(c.rabbit.password@)
            },
    {
        let url = match lookup(vars, ConfigKey::DatabaseUrl) {
            Some(v) => v,
            None => return Err(ConfigError::Missing(ConfigKey::DatabaseUrl)),
        };
        let host = match lookup(vars, ConfigKey::RabbitHost) {
            Some(v) => v,
            None => return Err(ConfigError::Missing(ConfigKey::RabbitHost)),
        };
        let port_text = match lookup(vars, ConfigKey::RabbitPort) {
            Some(v) => v,
            None => return Err(ConfigError::Missing(ConfigKey::RabbitPort)),
        };
        let port = match parse_port(port_text.as_str()) {
            Some(p) => p,
            None => return Err(ConfigError::InvalidPort),
        };
        let username = match lookup(vars, ConfigKey::RabbitUsername) {
            Some(v) => v,
            None => return Err(ConfigError::Missing(ConfigKey::RabbitUsername)),
        };
        let password = match lookup(vars, ConfigKey::RabbitPassword) {
            Some(v) => v,
            None => return Err(ConfigError::Missing(ConfigKey::RabbitPassword)),
        };
        Ok(Configs { database: Database { url }, rabbit: Rabbit { host, port, username, password } })
    }
}

} // verus!
