use kit::commands::{parse_trace, resolve, should_add_upstream};

#[test]
fn resolve_reads_the_web_form() {
    let (owner, name) = resolve("https://github.com/kcterala/kcx.git").unwrap();
    assert_eq!(owner, "kcterala");
    assert_eq!(name, "kcx");
    let (owner, name) = resolve("https://github.com/a/b").unwrap();
    assert_eq!(owner, "a");
    assert_eq!(name, "b");
}

#[test]
fn resolve_reads_the_ssh_form() {
    let (owner, name) = resolve("git@github.com:kcterala/kcx.git").unwrap();
    assert_eq!(owner, "kcterala");
    assert_eq!(name, "kcx");
}

#[test]
fn resolve_rejects_other_shapes() {
    assert!(resolve("https://example.com/a/b").is_none());
    assert!(resolve("https://github.com/a").is_none());
    assert!(resolve("https://github.com/a/b/c").is_none());
    assert!(resolve("kcterala/kcx").is_none());
    assert!(resolve("").is_none());
}

#[test]
fn resolve_keeps_empty_parts_as_the_split_gives_them() {
    let (owner, name) = resolve("https://github.com/a/").unwrap();
    assert_eq!(owner, "a");
    assert_eq!(name, "");
}

#[test]
fn upstream_is_added_for_own_forks_only() {
    assert!(should_add_upstream("KCTerala", true, "kcterala"));
    assert!(!should_add_upstream("kcterala", false, "kcterala"));
    assert!(!should_add_upstream("somebody", true, "kcterala"));
    assert!(should_add_upstream("", true, ""));
}

#[test]
fn trace_body_yields_address_and_location() {
    let body = "fl=123\nh=one.one.one.one\nip=203.0.113.9\nts=1700000000\nloc=DE\ncolo=FRA\n";
    let t = parse_trace(body);
    assert_eq!(t.ip.as_deref(), Some("203.0.113.9"));
    assert_eq!(t.loc.as_deref(), Some("DE"));
}

#[test]
fn trace_lines_may_end_in_carriage_returns() {
    let body = "ip=198.51.100.7\r\nloc=NL\r\n";
    let t = parse_trace(body);
    assert_eq!(t.ip.as_deref(), Some("198.51.100.7"));
    assert_eq!(t.loc.as_deref(), Some("NL"));
}

#[test]
fn later_trace_lines_override_earlier_ones() {
    let t = parse_trace("ip=1.1.1.1\nip=2.2.2.2");
    assert_eq!(t.ip.as_deref(), Some("2.2.2.2"));
}

#[test]
fn absent_trace_lines_stay_absent() {
    let t = parse_trace("colo=FRA\nts=1");
    assert!(t.ip.is_none());
    assert!(t.loc.is_none());
    let empty = parse_trace("");
    assert!(empty.ip.is_none() && empty.loc.is_none());
}
