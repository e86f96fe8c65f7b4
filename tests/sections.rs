use check_cert::sections::{
    generate_dumb_header, get_section_separator, header, parse_port, to_section, InstanceEngine, Section,
};

#[test]
fn separators_of_known_sections() {
    assert_eq!(get_section_separator("instance"), Some('|'));
    assert_eq!(get_section_separator("backup"), Some('|'));
    assert_eq!(get_section_separator("jobs"), Some('\t'));
    assert_eq!(get_section_separator("availability_groups"), Some('\t'));
    assert_eq!(get_section_separator("tablespaces"), None);
    assert_eq!(get_section_separator("connections"), None);
    assert_eq!(get_section_separator("Instance"), None);
    assert_eq!(get_section_separator(""), None);
}

#[test]
fn section_from_name() {
    assert_eq!(
        to_section(&"mirroring".to_string()),
        Section { name: "mirroring".to_string(), separator: Some('\t') }
    );
}

#[test]
fn header_lines() {
    assert_eq!(header("instance", Some('|')), "<<<instance:sep(124)>>>\n");
    assert_eq!(header("jobs", Some('\t')), "<<<jobs:sep(9)>>>\n");
    assert_eq!(header("connections", None), "<<<connections>>>\n");
}

#[test]
fn dumb_header_lists_always_then_cached() {
    let always = vec!["instance".to_string(), "connections".to_string()];
    let cached = vec!["jobs".to_string()];
    assert_eq!(
        generate_dumb_header(&always, &cached),
        "<<<instance:sep(124)>>>\n<<<connections>>>\n<<<jobs:sep(9)>>>\n"
    );
    assert_eq!(generate_dumb_header(&vec![], &vec![]), "");
}

#[test]
fn engine_from_columns() {
    let row = vec![
        Some("MSSQLSERVER".to_string()),
        Some("MSSQL16".to_string()),
        Some("Standard".to_string()),
        Some("16.0".to_string()),
        None,
        Some("1433".to_string()),
    ];
    let e = InstanceEngine::from_columns(&row);
    assert_eq!(e.name, "MSSQLSERVER");
    assert_eq!(e.id, "MSSQL16");
    assert_eq!(e.edition, "Standard");
    assert_eq!(e.version, "16.0");
    assert_eq!(e.cluster, None);
    assert_eq!(e.port, Some(1433));
    assert_eq!(e.available, None);
}

#[test]
fn engine_tolerates_bad_data() {
    let row = vec![None, Some("x".to_string()), None, None, Some("c1".to_string()), Some("port".to_string())];
    let e = InstanceEngine::from_columns(&row);
    assert_eq!(e.name, "");
    assert_eq!(e.cluster, Some("c1".to_string()));
    assert_eq!(e.port, None);
    let short = InstanceEngine::from_columns(&vec![Some("only".to_string())]);
    assert_eq!(short.name, "only");
    assert_eq!(short.id, "");
    assert_eq!(short.port, None);
}

#[test]
fn port_parsing_agrees_with_std() {
    assert_eq!(parse_port("1433"), Some(1433));
    assert_eq!(parse_port("+80"), Some(80));
    assert_eq!(parse_port("65536"), None);
    for text in ["0", "00080", "65535", "65536", "99999999999", "", "+", "-1", "-", "1a", " 80", "80 ", "++1", "\u{0663}"] {
        assert_eq!(parse_port(text), text.parse::<u16>().ok(), "{text:?}");
    }
}
