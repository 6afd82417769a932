use amptop::timing::estimate_text;
use amptop::config::{Command, Config, DaemonAction, Unit};

#[test]
fn durations_are_positive_seconds() {
    assert_eq!(Config::parse_duration("1"), Ok(1));
    assert_eq!(Config::parse_duration("+30"), Ok(30));
    assert_eq!(Config::parse_duration("18446744073709551615"), Ok(u64::MAX));
    assert_eq!(Config::parse_duration("0"), Err("0 isn't a positive number".to_string()));
    assert_eq!(Config::parse_duration("-3"), Err("-3 isn't a positive number".to_string()));
    assert_eq!(Config::parse_duration("18446744073709551616").is_err(), true);
    assert_eq!(Config::parse_duration(" 5").is_err(), true);
    assert_eq!(Config::parse_duration("").is_err(), true);
}

#[test]
fn units_ignore_ascii_case() {
    assert_eq!(Config::parse_unit("human"), Ok(Unit::Human));
    assert_eq!(Config::parse_unit("HuMaN"), Ok(Unit::Human));
    assert_eq!(Config::parse_unit("SI"), Ok(Unit::Si));
    assert_eq!(Config::parse_unit("metric"), Err("metric isn't a valid unit".to_string()));
}

#[test]
fn config_keeps_its_settings() {
    let cmd = Command::Daemon { action: DaemonAction::Start { interval: 60 } };
    let c = Config::new(Some(cmd), 2, Unit::Si);
    assert_eq!(c.delay(), 2);
    assert_eq!(c.unit(), Unit::Si);
    assert_eq!(c.command(), Some(cmd));
}

#[test]
fn estimates_read_as_durations() {
    assert_eq!(estimate_text(Some(9420)), Some("2h 37m".to_string()));
    assert_eq!(estimate_text(Some(0)), Some("0s".to_string()));
    assert_eq!(estimate_text(Some(61)), Some("1m 1s".to_string()));
    assert_eq!(estimate_text(None), None);
}
