use vnsd::config::parse_props;
use vnsd::config::ConfigError;
use vnsd::config::VnStatConfigs;

#[test]
fn read_vnstat_config_file() {
    let content = "# vnStat daemon configuration\n\nDatabaseDir /var/lib/vnstat\nUpdateInterval 30\n";
    let props = VnStatConfigs::default().get_props(content).unwrap();

    for prop in props {
        println!("{}: {}", prop.name, prop.value);
    }

    assert!(true)
}

#[test]
fn parse_skips_comments_and_blank_lines() {
    let content = "# comment\nName value\n\n#another comment\nPort 8080\n";
    let props = parse_props(content);
    assert_eq!(props.len(), 2);
    assert_eq!(props[0].name, "Name");
    assert_eq!(props[0].value, "value");
    assert_eq!(props[1].name, "Port");
    assert_eq!(props[1].value, "8080");
}

#[test]
fn parse_takes_first_two_tokens() {
    let content = "Interface eth0 trailing words are ignored\n  Indented   spaced-value  \n";
    let props = parse_props(content);
    assert_eq!(props.len(), 2);
    assert_eq!(props[0].name, "Interface");
    assert_eq!(props[0].value, "eth0");
    assert_eq!(props[1].name, "Indented");
    assert_eq!(props[1].value, "spaced-value");
}

#[test]
fn parse_empty_content_yields_nothing() {
    assert!(parse_props("").is_empty());
    assert!(parse_props("\n\n# only comments\n").is_empty());
}

#[test]
fn parse_handles_missing_final_line_break() {
    let props = parse_props("Key value");
    assert_eq!(props.len(), 1);
    assert_eq!(props[0].name, "Key");
    assert_eq!(props[0].value, "value");
}

#[test]
fn configs_construction() {
    let c = VnStatConfigs::new("/tmp/custom.conf".to_string());
    assert_eq!(c.path, "/tmp/custom.conf");
    assert!(c.props.is_none());

    let d = VnStatConfigs::default();
    assert_eq!(d.path, "/etc/vnstat.test.conf");
    assert!(d.props.is_none());
}

#[test]
fn read_props_stores_the_list() {
    let mut c = VnStatConfigs::default();
    c.read_props("MaxBandwidth 1000\n");
    let props = c.props.as_ref().unwrap();
    assert_eq!(props.len(), 1);
    assert_eq!(props[0].name, "MaxBandwidth");
    assert_eq!(props[0].value, "1000");

    let returned = c.get_props("MaxBandwidth 1000\n").unwrap();
    assert_eq!(returned.len(), 1);
    assert_eq!(returned[0].name, "MaxBandwidth");
}

#[test]
fn config_error_message() {
    assert_eq!(
        ConfigError::NoProps.message(),
        "No props is found, Please check if vnstat.conf is exist or not."
    );
}
