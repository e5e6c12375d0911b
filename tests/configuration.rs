use rust_rabbitmq::cli::{Cli, TestDBProcess, TestGenerate, TestProcess, DEFAULT_WAIT_MS};
use rust_rabbitmq::config::{ConfigError, ConfigKey, Configs};
use rust_rabbitmq::message_queue::rabbit::ledger::Settlement;
use rust_rabbitmq::message_types::TestMessage;

fn vars(pairs: &[(&str, &str)]) -> Vec<(String, String)> {
    pairs.iter().map(|(k, v)| (k.to_string(), v.to_string())).collect()
}

fn full() -> Vec<(String, String)> {
    vars(&[
        ("DATABASE_URL", "postgres://localhost/db"),
        ("RABBIT_HOST", "localhost"),
        ("RABBIT_PORT", "5672"),
        ("RABBIT_USERNAME", "guest"),
        ("RABBIT_PASSWORD", "SECRET-REDACTED"),
        ("PATH", "/usr/bin"),
    ])
}

#[test]
fn reads_every_setting() {
    let c = Configs::new("dev", &full()).ok().unwrap();
    assert_eq!(c.database.url, "postgres://localhost/db");
    assert_eq!(c.rabbit.host, "localhost");
    assert_eq!(c.rabbit.port, 5672);
    assert_eq!(c.rabbit.username, "guest");
    assert_eq!(c.rabbit.password, "SECRET-REDACTED");
}

#[test]
fn names_ignore_case_and_the_last_wins() {
    let mut v = full();
    v.push(("rabbit_Host".to_string(), "broker".to_string()));
    let c = Configs::new("dev", &v).ok().unwrap();
    assert_eq!(c.rabbit.host, "broker");
}

#[test]
fn each_missing_setting_is_named() {
    let keys = [
        ("DATABASE_URL", ConfigKey::DatabaseUrl),
        ("RABBIT_HOST", ConfigKey::RabbitHost),
        ("RABBIT_PORT", ConfigKey::RabbitPort),
        ("RABBIT_USERNAME", ConfigKey::RabbitUsername),
        ("RABBIT_PASSWORD", ConfigKey::RabbitPassword),
    ];
    for (name, key) in keys {
        let v: Vec<(String, String)> = full().into_iter().filter(|(k, _)| k != name).collect();
        assert_eq!(Configs::new("dev", &v).err(), Some(ConfigError::Missing(key)));
    }
}

#[test]
fn first_missing_setting_wins() {
    assert_eq!(Configs::new("dev", &Vec::new()).err(), Some(ConfigError::Missing(ConfigKey::DatabaseUrl)));
}

#[test]
fn port_must_be_a_decimal_u16() {
    for bad in ["", "56x2", "-1", "65536", "99999999999999999999", " 5672"] {
        let mut v = full();
        v.push(("RABBIT_PORT".to_string(), bad.to_string()));
        assert_eq!(Configs::new("dev", &v).err(), Some(ConfigError::InvalidPort), "{bad:?}");
    }
    for (good, port) in [("0", 0u16), ("65535", 65535), ("007", 7)] {
        let mut v = full();
        v.push(("RABBIT_PORT".to_string(), good.to_string()));
        assert_eq!(Configs::new("dev", &v).ok().unwrap().rabbit.port, port);
    }
}

#[test]
fn processor_defaults() {
    assert_eq!(DEFAULT_WAIT_MS, 50);
    assert_eq!(TestProcess::default(), TestProcess { wait_ms: 50, nack: false });
    assert_eq!(TestGenerate::default().wait_ms, 50);
    assert_eq!(TestDBProcess::default().wait_ms, 50);
    assert_eq!(Cli::default_env(), "dev");
}

#[test]
fn test_message_holds_its_fields() {
    let m = TestMessage { publisher: "example generator".to_string(), data: "hello world 0".to_string() };
    assert_eq!(m.publisher, "example generator");
    assert_eq!(m.data, "hello world 0");
}

#[test]
fn test_process_settles_by_its_flag() {
    assert_eq!(TestProcess { wait_ms: 1, nack: false }.settlement(), Settlement::Acked);
    assert_eq!(TestProcess { wait_ms: 1, nack: true }.settlement(), Settlement::Dropped);
}
