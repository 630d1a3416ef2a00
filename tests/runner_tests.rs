use mitm_relay::runner::{relay_script_name, scanner_args, MitmproxyRunner, SpawnFailure};
use mitm_relay::text::{join2, port_text, split_on_spaces};

#[test]
fn scanner_args_split_extra_and_add_port() {
    assert_eq!(
        scanner_args("--mode regular", 8080),
        vec!["--mode", "regular", "-q", "--listen-port", "8080"]
    );
}

#[test]
fn scanner_args_keep_empty_pieces() {
    assert_eq!(scanner_args("", 1), vec!["", "-q", "--listen-port", "1"]);
    assert_eq!(scanner_args("a  b", 65535), vec!["a", "", "b", "-q", "--listen-port", "65535"]);
}

#[test]
fn split_matches_std_split() {
    for s in ["", " ", "a", "a b", " a b ", "x  y   z", "h\u{e9} ll\u{f6}"] {
        let ours = split_on_spaces(s);
        let std_pieces: Vec<String> = s.split(' ').map(|p| p.to_string()).collect();
        assert_eq!(ours, std_pieces);
    }
}

#[test]
fn port_text_is_decimal() {
    assert_eq!(port_text(0), "0");
    assert_eq!(port_text(9), "9");
    assert_eq!(port_text(10), "10");
    assert_eq!(port_text(12000), "12000");
    assert_eq!(port_text(65535), "65535");
}

#[test]
fn with_args_appends_script() {
    let r = MitmproxyRunner::new("/opt/bin".to_string(), "/opt/bin/relay.py".to_string())
        .with_args(vec!["-q".to_string()]);
    assert_eq!(r.args, vec!["-q", "-s", "/opt/bin/relay.py"]);
    assert_eq!(relay_script_name(), "send_traffic_to_videodownloader.py");
}

#[test]
fn search_path_prepends_bin_dir() {
    let r = MitmproxyRunner::new("/opt/bin".to_string(), String::new());
    assert_eq!(r.search_path("/usr/bin:/bin", false), "/opt/bin:/usr/bin:/bin");
    assert_eq!(r.search_path("C:\\W", true), "/opt/bin;C:\\W");
}

#[test]
fn failure_texts() {
    assert_eq!(SpawnFailure::Setup("e".to_string()).message(), "mitmweb spawn setup failed: e");
    assert_eq!(SpawnFailure::Launch("e".to_string()).message(), "mitmweb failed to spawn: e");
    assert_eq!(SpawnFailure::Describe("e".to_string()).message(), "e");
    assert_eq!(SpawnFailure::Run("e".to_string()).message(), "mitmweb failed to run: e");
    assert_eq!(SpawnFailure::Task("e".to_string()).message(), "mitmweb task failed: e");
    assert!(SpawnFailure::Describe("e".to_string()).needs_kill());
    assert!(!SpawnFailure::Launch("e".to_string()).needs_kill());
}

#[test]
fn join2_concatenates() {
    assert_eq!(join2("ab", "cd"), "abcd");
    assert_eq!(join2("", ""), "");
}
