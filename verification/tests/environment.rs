use std::collections::HashMap;

use stdio_transport::{
    configure_child_environment, fallback_exec_path, safe_names, Host, Platform,
};

fn pairs(list: &[(&str, &str)]) -> Vec<(String, String)> {
    list.iter().map(|(name, value)| (name.to_string(), value.to_string())).collect()
}

fn host(platform: Platform, variables: &[(&str, &str)]) -> Host<String> {
    Host {
        platform,
        variables: pairs(variables),
        fallback_path: fallback_exec_path(platform).to_string(),
        home_dir: None,
        temp_dir: "/tmp".to_string(),
    }
}

fn child(host: &Host<String>, backend: &[(&str, &str)]) -> HashMap<String, String> {
    let mut result = HashMap::new();
    for (name, value) in configure_child_environment(host, &pairs(backend)) {
        result.insert(name, value.clone());
    }
    result
}

fn expected(list: &[(&str, &str)]) -> HashMap<String, String> {
    pairs(list).into_iter().collect()
}

#[test]
fn a_backend_gets_only_safe_and_explicit_variables() {
    let host = host(
        Platform::Unix,
        &[
            ("PATH", "/bin"),
            ("HOME", "/home/me"),
            ("TMPDIR", "/var/tmp"),
            ("PARENT_SECRET", "secret"),
            ("APPDATA", "x"),
        ],
    );
    assert_eq!(
        child(&host, &[("EXPLICIT", "configured-value")]),
        expected(&[
            ("PATH", "/bin"),
            ("HOME", "/home/me"),
            ("TMPDIR", "/var/tmp"),
            ("EXPLICIT", "configured-value"),
        ])
    );
}

#[test]
fn missing_variables_fall_back() {
    let mut host = host(Platform::Unix, &[]);
    assert_eq!(
        child(&host, &[]),
        expected(&[("PATH", "/usr/local/bin:/usr/bin:/bin"), ("TMPDIR", "/tmp")])
    );
    host.home_dir = Some("/root".to_string());
    assert_eq!(child(&host, &[]).get("HOME").unwrap(), "/root");
    host.variables = pairs(&[("HOME", "/home/me")]);
    assert_eq!(child(&host, &[]).get("HOME").unwrap(), "/home/me");
}

#[test]
fn assignments_have_precedence() {
    let host = host(Platform::Unix, &[("PATH", "/bin")]);
    let child = child(&host, &[("PATH", "/opt/bin"), ("HOME", "/srv"), ("TMPDIR", "/scratch")]);
    assert_eq!(
        child,
        expected(&[("PATH", "/opt/bin"), ("HOME", "/srv"), ("TMPDIR", "/scratch")])
    );
}

#[test]
fn windows_takes_over_a_few_more() {
    let host = host(
        Platform::Windows,
        &[("SYSTEMROOT", "C:\\Windows"), ("TEMP", "C:\\Temp"), ("SECRET", "s")],
    );
    assert_eq!(
        child(&host, &[]),
        expected(&[
            ("PATH", "C:\\Windows\\System32;C:\\Windows"),
            ("TMPDIR", "/tmp"),
            ("SYSTEMROOT", "C:\\Windows"),
            ("TEMP", "C:\\Temp"),
        ])
    );
}

#[test]
fn safe_names_are_few() {
    assert_eq!(safe_names(Platform::Unix), vec!["PATH", "HOME", "TMPDIR"]);
    assert_eq!(safe_names(Platform::Other).len(), 3);
    assert_eq!(safe_names(Platform::Windows).len(), 11);
    assert_eq!(fallback_exec_path(Platform::Other), "");
}

#[test]
fn host_secrets_make_no_difference() {
    let plain = host(Platform::Unix, &[("PATH", "/bin")]);
    let secretive = host(Platform::Unix, &[("TOKEN", "t"), ("PATH", "/bin"), ("KEY", "k")]);
    assert_eq!(child(&plain, &[("A", "1")]), child(&secretive, &[("A", "1")]));
}

#[test]
fn the_order_of_assignments_makes_no_difference() {
    let host = host(Platform::Unix, &[]);
    let one = child(&host, &[("A", "1"), ("PATH", "/p"), ("B", "2")]);
    let other = child(&host, &[("B", "2"), ("A", "1"), ("PATH", "/p")]);
    assert_eq!(one, other);
}

#[test]
fn assignments_come_last_in_their_order() {
    let host = host(Platform::Windows, &[("PATH", "C:\\bin"), ("TEMP", "C:\\Temp")]);
    let backend = pairs(&[("Path", "C:\\own"), ("TEMP", "D:\\t"), ("A", "1")]);
    let list = configure_child_environment(&host, &backend);
    let tail: Vec<(String, String)> = list[list.len() - 3..]
        .iter()
        .map(|(name, value)| (name.clone(), value.to_string()))
        .collect();
    assert_eq!(tail, backend);
    for (name, _) in &list[..list.len() - 3] {
        assert!(safe_names(Platform::Windows).contains(&name.as_str()));
    }
}
