use oracle_lib::bundle::AssetBundle;
use oracle_lib::bundle::extraction_plan;
use oracle_lib::client::BootstrapAction;
use oracle_lib::client::OracleClient;
use oracle_lib::client::RuntimeStatus;
use oracle_lib::search_path::append_search_path;
use oracle_lib::search_path::join_paths;
use oracle_lib::search_path::split_paths;
use oracle_lib::strutil::str_eq;
use oracle_lib::strutil::u64_to_dec;

#[test]
fn dec_formatting() {
    assert_eq!(u64_to_dec(0), "0");
    assert_eq!(u64_to_dec(7), "7");
    assert_eq!(u64_to_dec(10), "10");
    assert_eq!(u64_to_dec(1521), "1521");
    assert_eq!(u64_to_dec(65535), "65535");
    assert_eq!(u64_to_dec(1000000007), "1000000007");
}

#[test]
fn str_eq_cases() {
    assert!(str_eq("", ""));
    assert!(str_eq("abc", "abc"));
    assert!(!str_eq("abc", "abd"));
    assert!(!str_eq("abc", "ab"));
    assert!(!str_eq("", "x"));
}

#[test]
fn connection_string_formats_host_port_service() {
    let c = OracleClient::new(
        "dbhost".to_string(),
        1521,
        "XEPDB1".to_string(),
        "scott".to_string(),
        "tiger".to_string(),
    );
    assert_eq!(c.con_str(), "dbhost:1521/XEPDB1");
}

#[test]
fn connection_string_edge_values() {
    let c = OracleClient::new(
        "".to_string(),
        0,
        "".to_string(),
        "".to_string(),
        "".to_string(),
    );
    assert_eq!(c.con_str(), ":0/");
    let c = OracleClient::new(
        "10.0.0.1".to_string(),
        65535,
        "svc.example".to_string(),
        "u".to_string(),
        "p".to_string(),
    );
    assert_eq!(c.con_str(), "10.0.0.1:65535/svc.example");
}

#[test]
fn split_and_join_paths() {
    let v = split_paths("/usr/lib:/lib:/opt/lib", ':');
    assert_eq!(v, vec!["/usr/lib".to_string(), "/lib".to_string(), "/opt/lib".to_string()]);
    assert_eq!(split_paths("", ':'), Vec::<String>::new());
    assert_eq!(split_paths("one", ':'), vec!["one".to_string()]);
    // A trailing separator opens no empty final piece.
    assert_eq!(split_paths(":", ':'), vec!["".to_string()]);
    assert_eq!(split_paths("a:", ':'), vec!["a".to_string()]);
    assert_eq!(split_paths(":a", ':'), vec!["".to_string(), "a".to_string()]);
    assert_eq!(join_paths(&v, ":"), "/usr/lib:/lib:/opt/lib");
    assert_eq!(join_paths(&Vec::new(), ":"), "");
}

#[test]
fn splice_appends_directory_once() {
    let spliced = append_search_path("/usr/lib:/lib", "/tmp/stage", ":");
    assert_eq!(spliced, "/usr/lib:/lib:/tmp/stage");
    let pieces = split_paths(&spliced, ':');
    let hits = pieces.iter().filter(|p| p.as_str() == "/tmp/stage").count();
    assert_eq!(hits, 1);
}

#[test]
fn splice_into_empty_path() {
    assert_eq!(append_search_path("", "/tmp/stage", ":"), "/tmp/stage");
}

#[test]
fn splice_with_semicolon_separator() {
    let spliced = append_search_path("C\\one;C\\two", "C\\stage", ";");
    assert_eq!(spliced, "C\\one;C\\two;C\\stage");
}

#[test]
fn bundle_lookup_agrees_with_iteration() {
    let mut b = AssetBundle::new();
    assert!(b.insert("a/x.so".to_string(), b"111".to_vec()));
    assert!(b.insert("b/y.so".to_string(), b"222".to_vec()));
    assert!(!b.insert("a/x.so".to_string(), b"333".to_vec()));
    assert_eq!(b.len(), 2);
    for i in 0..b.len() {
        let p = b.path_at(i).clone();
        let d = b.data_at(i).clone();
        assert_eq!(b.get(&p), Some(&d));
    }
    assert_eq!(b.get("a/x.so"), Some(&b"111".to_vec()));
    assert_eq!(b.get("missing"), None);
}

#[test]
fn scenario_probe_fails_bundle_staged_and_path_spliced_once() {
    let mut b = AssetBundle::new();
    assert!(b.insert("a/x.so".to_string(), b"111".to_vec()));
    assert!(b.insert("b/y.so".to_string(), b"222".to_vec()));

    let mut c = OracleClient::new(
        "h".to_string(),
        1521,
        "s".to_string(),
        "u".to_string(),
        "p".to_string(),
    );
    // The probe fails: the machine demands an extraction.
    assert_eq!(c.ensure_runtime_available(false), BootstrapAction::Extract);

    let plan = extraction_plan("/tmp/stage", &b);
    assert_eq!(plan.len(), 2);
    assert_eq!(plan[0].0, "/tmp/stage/a/x.so");
    assert_eq!(plan[0].1, b"111".to_vec());
    assert_eq!(plan[1].0, "/tmp/stage/b/y.so");
    assert_eq!(plan[1].1, b"222".to_vec());

    let spliced = append_search_path("/usr/lib:/lib", "/tmp/stage", ":");
    let pieces = split_paths(&spliced, ':');
    assert_eq!(pieces.iter().filter(|p| p.as_str() == "/tmp/stage").count(), 1);

    c.note_extracted();
    assert_eq!(c.runtime_status(), RuntimeStatus::Extracted);
}

#[test]
fn probe_success_demands_nothing() {
    let mut c = OracleClient::new(
        "h".to_string(),
        1521,
        "s".to_string(),
        "u".to_string(),
        "p".to_string(),
    );
    assert_eq!(c.runtime_status(), RuntimeStatus::Unchecked);
    assert_eq!(c.ensure_runtime_available(true), BootstrapAction::Nothing);
    assert_eq!(c.runtime_status(), RuntimeStatus::Present);
}

#[test]
fn bootstrap_is_idempotent() {
    // First run: probe fails, extraction happens, the machine settles.
    let mut c = OracleClient::new(
        "h".to_string(),
        1521,
        "s".to_string(),
        "u".to_string(),
        "p".to_string(),
    );
    assert_eq!(c.ensure_runtime_available(false), BootstrapAction::Extract);
    let path = append_search_path("/lib", "/tmp/stage", ":");
    c.note_extracted();

    // Second run: the staged runtime resolves, so the probe succeeds and
    // nothing changes; the path is what one run left.
    assert_eq!(c.ensure_runtime_available(true), BootstrapAction::Nothing);
    assert_eq!(c.runtime_status(), RuntimeStatus::Extracted);
    assert_eq!(path, "/lib:/tmp/stage");

    // Same when the runtime was present from the start.
    let mut c2 = OracleClient::new(
        "h".to_string(),
        1521,
        "s".to_string(),
        "u".to_string(),
        "p".to_string(),
    );
    assert_eq!(c2.ensure_runtime_available(true), BootstrapAction::Nothing);
    assert_eq!(c2.ensure_runtime_available(true), BootstrapAction::Nothing);
    assert_eq!(c2.ensure_runtime_available(false), BootstrapAction::Nothing);
    assert_eq!(c2.runtime_status(), RuntimeStatus::Present);
}
