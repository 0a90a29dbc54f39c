use xtask_vm::provider::qmp::{
    classify, parse_rip, reply_from, reply_step, request, send_key_request, Reply, ReplyFields,
    ReplyStep, read_step, ReadStep, REPLY_READS,
};

#[test]
fn a_request_is_one_json_line() {
    assert_eq!(request("quit"), "{\"execute\":\"quit\"}\n");
    assert!(request("system_powerdown").ends_with('\n'));
}

#[test]
fn a_send_key_request_names_the_key_and_holds_it() {
    let line = send_key_request("spc", 100);
    assert_eq!(line.matches('\n').count(), 1, "the protocol is JSON lines");
    let parsed: serde_json::Value = serde_json::from_str(line.trim()).expect("send-key must be valid JSON");
    assert_eq!(parsed["execute"], "send-key");
    assert_eq!(parsed["arguments"]["keys"][0]["type"], "qcode");
    assert_eq!(parsed["arguments"]["keys"][0]["data"], "spc");
    assert_eq!(parsed["arguments"]["hold-time"], 100);
}

#[test]
fn the_greeting_is_recognized() {
    let line = r#"{"QMP": {"version": {"qemu": {"major": 9}}, "capabilities": []}}"#;
    assert_eq!(classify(line), Ok(Reply::Greeting));
}

#[test]
fn a_result_and_an_error_are_told_apart() {
    assert_eq!(classify(r#"{"return": {}}"#), Ok(Reply::Return));
    assert_eq!(
        classify(r#"{"error": {"class": "GenericError", "desc": "no such command"}}"#),
        Ok(Reply::Error("no such command".to_owned()))
    );
    assert_eq!(
        classify(r#"{"error": {"class": "GenericError"}}"#),
        Ok(Reply::Error("unspecified QMP error".to_owned()))
    );
}

#[test]
fn events_are_not_replies() {
    assert_eq!(
        classify(r#"{"event": "SHUTDOWN", "timestamp": {"seconds": 1}}"#),
        Ok(Reply::Event("SHUTDOWN".to_owned()))
    );
    assert_eq!(reply_step("quit", &Reply::Event("RTC_CHANGE".to_owned())), ReplyStep::Skip);
}

#[test]
fn unreadable_output_is_an_error_rather_than_a_shrug() {
    assert!(classify("not json").is_err());
    assert!(classify("").is_err());
    assert!(classify("not json").unwrap_err().starts_with("QMP sent unreadable JSON: "));
}

#[test]
fn valid_json_that_is_none_of_them_is_other() {
    assert_eq!(classify("{\"timestamp\": 3}"), Ok(Reply::Other));
    assert_eq!(classify("  {\"return\": 1}\r\n"), Ok(Reply::Return));
}

#[test]
fn the_parts_of_a_line_are_weighed_in_order() {
    let all = ReplyFields {
        greeting: false,
        event: Some("RESUME".to_owned()),
        error: Some(None),
        returned: true,
    };
    assert_eq!(reply_from(all), Reply::Event("RESUME".to_owned()));
}

#[test]
fn reading_reports_an_error_reply_with_its_description() {
    let reply = classify("{\"error\": {\"desc\": \"nope\"}}").expect("JSON");
    match reply_step("quit", &reply) {
        ReplyStep::Failed(err) => assert!(err.contains("nope"), "{err}"),
        other => panic!("{other:?}"),
    }
    assert_eq!(reply_step("query-status", &Reply::Return), ReplyStep::Answered);
}

#[test]
fn the_instruction_pointer_comes_out_of_the_register_dump() {
    let dump = "\r\nCPU#0\r\nRAX=0000000080000000 RBX=00000000008129c0\r\n\
                RIP=00000000fffd3da2 RFL=00000086 [--S--P-] CPL=0\r\n\
                CR0=80000033 CR2=fffffffffffffce6\r\n";
    assert_eq!(parse_rip(dump).as_deref(), Some("0x00000000fffd3da2"));
    assert_eq!(parse_rip("no registers here"), None);
}

/// Drive a wait for a reply over `lines` the way the socket reader does: each
/// line classified and handed to `read_step`, until it stops. `None` from the
/// list is the socket closing.
fn wait_for_reply(lines: &[&str], what: &str) -> Result<usize, String> {
    let mut read_before: u32 = 0;
    loop {
        let read = lines.get(read_before as usize).map(|line| classify(line));
        match read_step(what, read, read_before) {
            ReadStep::ReadOn => read_before += 1,
            ReadStep::Failed(reason) => return Err(reason),
            ReadStep::Answered => return Ok(read_before as usize),
        }
    }
}

#[test]
fn reading_skips_events_until_a_reply_arrives() {
    let lines = [
        "{\"event\": \"RESUME\"}",
        "{\"event\": \"NIC_RX_FILTER_CHANGED\"}",
        "{\"return\": {\"status\": \"running\"}}",
    ];
    assert_eq!(wait_for_reply(&lines, "query-status"), Ok(2));
}

#[test]
fn a_closed_socket_is_reported_as_such() {
    let err = wait_for_reply(&[], "the greeting").unwrap_err();
    assert!(err.contains("closed"), "{err}");
    assert_eq!(err, "the QMP socket closed while waiting for the greeting");
}

#[test]
fn an_endless_event_stream_does_not_hang_forever() {
    let flood = vec!["{\"event\": \"RTC_CHANGE\"}"; 64];
    let err = wait_for_reply(&flood, "quit").unwrap_err();
    assert_eq!(err, "QMP sent only events while waiting for quit");
    let just_enough = vec!["{\"event\": \"RTC_CHANGE\"}"; REPLY_READS as usize - 1];
    let mut with_reply = just_enough.clone();
    with_reply.push("{\"return\": {}}");
    assert_eq!(wait_for_reply(&with_reply, "quit"), Ok(REPLY_READS as usize - 1));
}
