use wql_process_monitor::query::{build_query, query_options, QueryKind, QueryOptions};
use wql_process_monitor::text::split;

fn options(kind: QueryKind) -> QueryOptions {
    QueryOptions {
        kind,
        filter_windows_noise: false,
        filter_usual_program_locations: false,
        whitelist: false,
        filter: String::new(),
    }
}

const CREATION: &str =
    "SELECT * FROM __InstanceCreationEvent WITHIN 1 WHERE TargetInstance ISA 'Win32_Process'";

#[test]
fn flags_choose_the_kind() {
    let kind = |creation, deletion| {
        query_options(creation, deletion, true, false, true, "a,b".to_string())
            .map(|options| options.kind)
    };
    assert_eq!(kind(true, true), Ok(QueryKind::Operation));
    assert_eq!(kind(true, false), Ok(QueryKind::Creation));
    assert_eq!(kind(false, true), Ok(QueryKind::Deletion));
    assert_eq!(
        kind(false, false),
        Err("You must subscribe to at least one event".to_string())
    );
}

#[test]
fn options_keep_what_they_were_given() {
    let options = query_options(true, false, true, false, true, "a.exe,b.exe".to_string()).unwrap();
    assert!(options.filter_windows_noise);
    assert!(!options.filter_usual_program_locations);
    assert!(options.whitelist);
    assert_eq!(options.filter, "a.exe,b.exe");
}

#[test]
fn query_without_filters() {
    assert_eq!(build_query(&options(QueryKind::Creation)), CREATION);
    assert_eq!(
        build_query(&options(QueryKind::Deletion)),
        "SELECT * FROM __InstanceDeletionEvent WITHIN 1 WHERE TargetInstance ISA 'Win32_Process'"
    );
    assert_eq!(
        build_query(&options(QueryKind::Operation)),
        "SELECT * FROM __InstanceOperationEvent WITHIN 1 WHERE TargetInstance ISA 'Win32_Process'"
    );
}

#[test]
fn query_without_windows_noise() {
    let mut options = options(QueryKind::Creation);
    options.filter_windows_noise = true;
    let expected = CREATION.to_string()
        + r" AND NOT TargetInstance.ExecutablePath LIKE '%Windows\\System32%'"
        + r"AND NOT TargetInstance.ExecutablePath LIKE '%Windows\\SysWOW64%'"
        + "AND TargetInstance.Name != 'FileCoAuth.exe'";
    assert_eq!(build_query(&options), expected);
}

#[test]
fn query_without_usual_locations() {
    let mut options = options(QueryKind::Creation);
    options.filter_usual_program_locations = true;
    let expected = CREATION.to_string()
        + " AND NOT TargetInstance.ExecutablePath LIKE '%Program Files%'"
        + "AND NOT TargetInstance.ExecutablePath LIKE '%Program Files (x86)%'"
        + r"AND NOT TargetInstance.ExecutablePath LIKE '%AppData\\Local%'"
        + r"AND NOT TargetInstance.ExecutablePath LIKE '%AppData\\Roaming%'";
    assert_eq!(build_query(&options), expected);
}

#[test]
fn noise_comes_before_locations_and_names() {
    let mut options = options(QueryKind::Operation);
    options.filter_windows_noise = true;
    options.filter_usual_program_locations = true;
    options.filter = "x.exe".to_string();
    let query = build_query(&options);
    let noise = query.find("System32").unwrap();
    let locations = query.find("Program Files").unwrap();
    let names = query.find(" AND TargetInstance.Name != 'x.exe'").unwrap();
    assert!(noise < locations && locations < names);
    assert!(query.ends_with(" AND TargetInstance.Name != 'x.exe'"));
}

#[test]
fn whitelist_of_names() {
    let mut options = options(QueryKind::Creation);
    options.whitelist = true;
    options.filter = "a.exe".to_string();
    assert_eq!(
        build_query(&options),
        CREATION.to_string() + " AND ( TargetInstance.Name = 'a.exe' )"
    );
    options.filter = "a.exe,b.exe,c.exe".to_string();
    assert_eq!(
        build_query(&options),
        CREATION.to_string()
            + " AND ( TargetInstance.Name = 'a.exe' OR TargetInstance.Name = 'b.exe'"
            + " OR TargetInstance.Name = 'c.exe' )"
    );
}

#[test]
fn blacklist_of_names() {
    let mut options = options(QueryKind::Creation);
    options.filter = "a.exe,b.exe".to_string();
    assert_eq!(
        build_query(&options),
        CREATION.to_string()
            + " AND TargetInstance.Name != 'a.exe' AND TargetInstance.Name != 'b.exe'"
    );
}

#[test]
fn names_are_neither_trimmed_nor_escaped() {
    let mut options = options(QueryKind::Creation);
    options.filter = ", a'b ,\u{e9}\u{1f600}".to_string();
    assert_eq!(
        build_query(&options),
        CREATION.to_string()
            + " AND TargetInstance.Name != '' AND TargetInstance.Name != ' a'b '"
            + " AND TargetInstance.Name != '\u{e9}\u{1f600}'"
    );
}

#[test]
fn empty_filter_ignores_whitelist() {
    let mut options = options(QueryKind::Creation);
    options.whitelist = true;
    assert_eq!(build_query(&options), CREATION);
}

#[test]
fn kinds_have_different_queries() {
    let creation = build_query(&options(QueryKind::Creation));
    let deletion = build_query(&options(QueryKind::Deletion));
    assert_ne!(creation, deletion);
}

#[test]
fn split_agrees_with_the_standard_library() {
    for text in ["", ",", ",,", "a", "a,b", ",a,,b,", "\u{fc},\u{1f600}x", " a , b "] {
        let expected: Vec<&str> = text.split(',').collect();
        let pieces = split(text, ',');
        assert_eq!(pieces, expected);
        assert_eq!(pieces.join(","), text);
    }
}
