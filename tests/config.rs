use rbot_deploy::config::{parse_team, ConfigError, DeployConfig};

#[test]
fn team_numbers_parse() {
    assert_eq!(parse_team("4413"), Some(4413));
    assert_eq!(parse_team("0"), Some(0));
    assert_eq!(parse_team("007"), Some(7));
    assert_eq!(parse_team("+12"), Some(12));
    assert_eq!(parse_team(&usize::MAX.to_string()), Some(usize::MAX));
}

#[test]
fn team_numbers_rejected() {
    assert_eq!(parse_team(""), None);
    assert_eq!(parse_team("+"), None);
    assert_eq!(parse_team("-1"), None);
    assert_eq!(parse_team("12a"), None);
    assert_eq!(parse_team(" 12"), None);
    assert_eq!(parse_team("18446744073709551616"), None);
    assert_eq!(parse_team("99999999999999999999x"), None);
}

#[test]
fn parse_agrees_with_std() {
    for s in ["1", "25599", "+0", "++1", "1+", "٣", "4 4", "00000000000000000000042"] {
        assert_eq!(parse_team(s), s.parse::<usize>().ok(), "{}", s);
    }
}

#[test]
fn config_from_fields() {
    let c = DeployConfig::from_fields("bot".to_string(), "4413", None).unwrap();
    assert_eq!(c.name, "bot");
    assert_eq!(c.team, 4413);
    assert_eq!(c.rio_ip, None);
    let c = DeployConfig::from_fields("bot".to_string(), "1", Some("192.168.1.50".to_string()))
        .unwrap();
    assert_eq!(c.rio_ip.as_deref(), Some("192.168.1.50"));
    assert_eq!(
        DeployConfig::from_fields("bot".to_string(), "team", None).unwrap_err(),
        ConfigError::BadTeam
    );
}
