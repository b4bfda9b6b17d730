use one_instance::invocation::parse_invocation;

fn strings(v: &[&str]) -> Vec<String> {
    v.iter().map(|s| s.to_string()).collect()
}

#[test]
fn forwards_arguments_after_target() {
    let inv = parse_invocation(&strings(&["supervisor", "target.exe", "--flag", "value"])).unwrap();
    assert_eq!(inv.program, "target.exe");
    assert_eq!(inv.forwarded, strings(&["--flag", "value"]));
}

#[test]
fn target_alone_forwards_nothing() {
    let inv = parse_invocation(&strings(&["supervisor", "target.exe"])).unwrap();
    assert_eq!(inv.program, "target.exe");
    assert!(inv.forwarded.is_empty());
}

#[test]
fn missing_target_is_none() {
    assert!(parse_invocation(&strings(&["supervisor"])).is_none());
    assert!(parse_invocation(&Vec::new()).is_none());
}

#[test]
fn forwarded_arguments_are_verbatim() {
    let inv = parse_invocation(&strings(&["s", "t", "", "a b", "--x=1.5"])).unwrap();
    assert_eq!(inv.forwarded, strings(&["", "a b", "--x=1.5"]));
}
