use oko_monitor::parser::{parse_heartbeat, HeartbeatResult};

#[test]
fn test_parse_heartbeat_valid() {
    let input = "HEARTBEAT 2026-07-03 STATUS:GREEN\n";
    let res = parse_heartbeat(input);
    assert_eq!(
        res,
        HeartbeatResult::Beat("HEARTBEAT 2026-07-03 STATUS:GREEN".to_string())
    );
}

#[test]
fn test_parse_heartbeat_empty() {
    let input = "   \n";
    let res = parse_heartbeat(input);
    assert_eq!(res, HeartbeatResult::Eof);
}

#[test]
fn test_parse_heartbeat_invalid() {
    let input = "SOME OTHER DATA\n";
    let res = parse_heartbeat(input);
    assert_eq!(
        res,
        HeartbeatResult::Error("Unexpected message: SOME OTHER DATA".to_string())
    );
}

#[test]
fn heartbeat_word_must_come_first() {
    assert_eq!(
        parse_heartbeat("A HEARTBEAT\n"),
        HeartbeatResult::Error("Unexpected message: A HEARTBEAT".to_string())
    );
    assert_eq!(parse_heartbeat("\u{3000}HEARTBEATS\r\n"), HeartbeatResult::Beat("HEARTBEATS".to_string()));
}
