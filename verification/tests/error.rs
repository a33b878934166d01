use procmon::error::{Error, ErrorKind};

#[test]
fn single_error_chain() {
    let e = Error::new(ErrorKind::SpawnFailed, "executable not found".to_string());
    let chain = e.chain();
    assert_eq!(chain.len(), 1);
    assert_eq!(chain[0].as_str(), "executable not found");
    assert!(e.cause.is_none());
    assert!(e.backtrace.is_none());
}

#[test]
fn wrapping_extends_the_chain() {
    let cause = Error::new(ErrorKind::SpawnFailed, "executable not found".to_string());
    let e = Error::wrapping(
        ErrorKind::StartFailed,
        "unable to start /usr/sbin/openvpn".to_string(),
        cause,
    );
    let chain = e.chain();
    assert_eq!(chain.len(), 2);
    assert_eq!(chain[0].as_str(), "unable to start /usr/sbin/openvpn");
    assert_eq!(chain[1].as_str(), "executable not found");
    assert!(matches!(e.kind, ErrorKind::StartFailed));
    assert!(matches!(e.cause.as_deref().unwrap().kind, ErrorKind::SpawnFailed));
}

#[test]
fn report_lines_show_the_cause_chain() {
    let inner = Error::new(ErrorKind::SpawnFailed, "executable not found".to_string());
    let e = Error::wrapping(
        ErrorKind::StartFailed,
        "unable to start /usr/sbin/openvpn".to_string(),
        inner,
    );
    let lines = e.report_lines();
    assert_eq!(lines.len(), 2);
    assert_eq!(lines[0].as_str(), "error: unable to start /usr/sbin/openvpn");
    assert_eq!(lines[1].as_str(), "caused by: executable not found");
}

#[test]
fn report_lines_end_with_the_backtrace() {
    let inner = Error::new(ErrorKind::SpawnFailed, "permission denied".to_string());
    let e = Error::wrapping(
        ErrorKind::StartFailed,
        "unable to start /usr/sbin/openvpn".to_string(),
        inner,
    )
    .with_backtrace("frame 0: spawn".to_string());
    let lines = e.report_lines();
    assert_eq!(lines.len(), 3);
    assert_eq!(lines[0].as_str(), "error: unable to start /usr/sbin/openvpn");
    assert_eq!(lines[1].as_str(), "caused by: permission denied");
    assert_eq!(lines[2].as_str(), "backtrace: frame 0: spawn");
}

#[test]
fn deep_chain_reports_every_cause() {
    let a = Error::new(ErrorKind::SpawnFailed, "no such file".to_string());
    let b = Error::wrapping(ErrorKind::SpawnFailed, "spawn refused".to_string(), a);
    let c = Error::wrapping(ErrorKind::StartFailed, "unable to start child".to_string(), b);
    let lines = c.report_lines();
    assert_eq!(lines.len(), 3);
    assert_eq!(lines[0].as_str(), "error: unable to start child");
    assert_eq!(lines[1].as_str(), "caused by: spawn refused");
    assert_eq!(lines[2].as_str(), "caused by: no such file");
}
