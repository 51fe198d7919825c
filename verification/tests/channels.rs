use omnispeed::clients::{
    base64, cdp_reply_step, encode_request, eval_result, extract_rate, extract_tag_text, order_targets, rate_query, reply_step,
    set_rate_expression, speed_of, stream_step, take_reply, ws_addr, CdpClient, CdpFrame, CdpMessage, CdpStep, EvalValue, HttpOutcome, MpvClient, MpvCommand,
    MpvData, MpvReply, RawTarget, ReplyStep, VlcHttpClient, MAX_REPLY_LINES, PAUSE_QUERY,
};
use omnispeed::ipc::IpcError;
use omnispeed::mpc_hc::{command_for, rate_ladder, PLAYBACK_RATES};
use omnispeed::potplayer::{speed_from_lresult, speed_to_lparam, POT_SPEED_MAX, POT_SPEED_MIN};

#[test]
fn table_matches_the_source() {
    assert_eq!(PLAYBACK_RATES.first(), Some(&(5001, 250)));
    assert_eq!(PLAYBACK_RATES.last(), Some(&(5014, 8000)));
    for (i, (cmd, rate)) in PLAYBACK_RATES.iter().enumerate() {
        assert_eq!(*cmd, 5001 + i, "command {i} is consecutive");
        if i > 0 {
            assert!(*rate > PLAYBACK_RATES[i - 1].1, "ascending");
        }
    }
    assert!(PLAYBACK_RATES.iter().all(|(cmd, _)| (5001..=5028).contains(cmd)));
}

#[test]
fn command_for_maps_every_rung() {
    for (cmd, rate) in PLAYBACK_RATES {
        assert_eq!(command_for(rate), Some(cmd), "{rate} maps to {cmd}");
    }
    assert_eq!(command_for(2400), None);
    assert_eq!(command_for(100), None);
}

#[test]
fn one_times_is_a_rung() {
    assert!(rate_ladder().contains(&1000));
    assert_eq!(rate_ladder().len(), PLAYBACK_RATES.len());
}

#[test]
fn speed_to_lparam_scales_by_1000() {
    assert_eq!(speed_to_lparam(5000), 5000);
    assert_eq!(speed_to_lparam(1000), 1000);
    assert_eq!(speed_to_lparam(250), 250);
    assert_eq!(speed_to_lparam(3000), 3000);
}

#[test]
fn speed_to_lparam_clamps_to_sdk_range() {
    assert_eq!(speed_to_lparam(100), POT_SPEED_MIN);
    assert_eq!(speed_to_lparam(16000), POT_SPEED_MAX);
    assert_eq!(speed_to_lparam(0), POT_SPEED_MIN);
}

#[test]
fn speed_from_lresult_inverse() {
    assert_eq!(speed_from_lresult(5000), 5000);
    assert_eq!(speed_from_lresult(250), 250);
    assert_eq!(speed_from_lresult(speed_to_lparam(2500)), 2500);
}

const STATUS_XML_SAMPLE: &str = r#"<?xml version="1.0" encoding="utf-8" standalone="yes" ?>
<root>
  <fullscreen>false</fullscreen>
  <apiversion>3</apiversion>
  <currentplid>4</currentplid>
  <time>120</time>
  <volume>256</volume>
  <length>3600</length>
  <rate>2.5</rate>
  <state>playing</state>
</root>"#;

#[test]
fn status_url_without_command() {
    let client = VlcHttpClient::new(8080, "pw");
    assert_eq!(client.status_url(None), "http://127.0.0.1:8080/requests/status.xml");
}

#[test]
fn status_url_with_rate_command() {
    let client = VlcHttpClient::new(9090, "pw");
    assert_eq!(
        client.status_url(Some(&rate_query(5000))),
        "http://127.0.0.1:9090/requests/status.xml?command=rate&val=5"
    );
    assert_eq!(
        client.status_url(Some(&rate_query(1250))),
        "http://127.0.0.1:9090/requests/status.xml?command=rate&val=1.25"
    );
    assert_eq!(
        client.status_url(Some("command=pl_pause")),
        "http://127.0.0.1:9090/requests/status.xml?command=pl_pause"
    );
    assert_eq!(PAUSE_QUERY, "command=pl_pause");
}

#[test]
fn extract_rate_from_sample() {
    assert_eq!(extract_rate(STATUS_XML_SAMPLE).unwrap(), 2500);
    assert_eq!(extract_rate("<root><rate>1</rate></root>").unwrap(), 1000);
}

#[test]
fn extract_rate_missing_tag_is_protocol_error() {
    assert!(matches!(extract_rate("<root><state>playing</state></root>"), Err(IpcError::Protocol(_))));
}

#[test]
fn extract_rate_non_numeric_is_protocol_error() {
    assert!(matches!(extract_rate("<root><rate>fast</rate></root>"), Err(IpcError::Protocol(_))));
}

#[test]
fn base64_rfc4648_vectors() {
    assert_eq!(base64(b""), "");
    assert_eq!(base64(b"f"), "Zg==");
    assert_eq!(base64(b"fo"), "Zm8=");
    assert_eq!(base64(b"foo"), "Zm9v");
    assert_eq!(base64(b"foob"), "Zm9vYg==");
    assert_eq!(base64(b"fooba"), "Zm9vYmE=");
    assert_eq!(base64(b"foobar"), "Zm9vYmFy");
    assert_eq!(base64(b":secret"), "OnNlY3JldA==");
}

#[test]
fn vlc_auth_header_has_empty_user() {
    let client = VlcHttpClient::new(8080, "secret");
    assert_eq!(client.auth_header(), "Basic OnNlY3JldA==");
}

#[test]
fn vlc_outcomes_are_classified() {
    assert!(matches!(VlcHttpClient::classify(HttpOutcome::Status(401)), Err(IpcError::AuthFailed)));
    match VlcHttpClient::classify(HttpOutcome::Status(500)) {
        Err(IpcError::Protocol(m)) => assert_eq!(m, "VLC 返回 HTTP 500"),
        other => panic!("expected a protocol error, got {other:?}"),
    }
    assert!(matches!(VlcHttpClient::classify(HttpOutcome::Transport), Err(IpcError::Unavailable)));
    assert_eq!(VlcHttpClient::classify(HttpOutcome::Body("x".into())).unwrap(), "x");
    assert!(VlcHttpClient::is_available(&Err(IpcError::AuthFailed)));
    assert!(!VlcHttpClient::is_available(&Err(IpcError::Unavailable)));
}

#[test]
fn extract_tag_text_takes_the_first_element() {
    assert_eq!(extract_tag_text("<a><b>1</b><b>2</b></a>", "b").as_deref(), Some("1"));
    assert_eq!(extract_tag_text("<b>open", "b"), None);
    assert_eq!(extract_tag_text("</b><b>x</b>", "b").as_deref(), Some("x"));
}

#[test]
fn extract_rate_rounds_to_thousandths() {
    assert_eq!(extract_rate("<rate> 1.5015 </rate>").unwrap(), 1502);
    assert_eq!(extract_rate("<rate>.5</rate>").unwrap(), 500);
    match extract_rate("<rate></rate>") {
        Err(IpcError::Protocol(m)) => assert_eq!(m, "<rate> 的值不是数字：cannot parse float from empty string"),
        other => panic!("expected a protocol error, got {other:?}"),
    }
}

#[test]
fn encode_set_speed_request() {
    let line = encode_request(MpvCommand::SetSpeed(5000), 7);
    assert_eq!(line, "{\"command\":[\"set_property\",\"speed\",5.0],\"request_id\":7}\n");
}

#[test]
fn encode_cycle_pause_request() {
    let line = encode_request(MpvCommand::CyclePause, 42);
    assert_eq!(line, "{\"command\":[\"cycle\",\"pause\"],\"request_id\":42}\n");
}

#[test]
fn encode_fractional_speed_and_get() {
    assert_eq!(
        encode_request(MpvCommand::SetSpeed(1250), 1),
        "{\"command\":[\"set_property\",\"speed\",1.25],\"request_id\":1}\n"
    );
    assert_eq!(encode_request(MpvCommand::GetSpeed, 3), "{\"command\":[\"get_property\",\"speed\"],\"request_id\":3}\n");
}

fn reply(id: Option<u64>, error: Option<&str>, data: MpvData) -> Result<MpvReply, String> {
    Ok(MpvReply { has_event: false, request_id: id, error: error.map(String::from), data })
}

fn event() -> Result<MpvReply, String> {
    Ok(MpvReply { has_event: true, request_id: None, error: None, data: MpvData::Null })
}

fn take(lines: Vec<(Result<String, String>, Result<MpvReply, String>)>, id: u64) -> Result<MpvData, IpcError> {
    take_reply(&lines, id)
}

fn text(s: &str) -> Result<String, String> {
    Ok(s.to_string())
}

#[test]
fn reply_success_without_data() {
    let r = take(vec![(text(r#"{"request_id":7,"error":"success"}"#), reply(Some(7), Some("success"), MpvData::Null))], 7);
    assert_eq!(r.unwrap(), MpvData::Null);
}

#[test]
fn reply_success_with_data() {
    let r = take(
        vec![(text(r#"{"data":2.5,"request_id":8,"error":"success"}"#), reply(Some(8), Some("success"), MpvData::Number(2500)))],
        8,
    );
    assert_eq!(r.unwrap(), MpvData::Number(2500));
}

#[test]
fn reply_skips_interleaved_events() {
    let r = take(
        vec![
            (text(r#"{"event":"property-change","id":1,"name":"pause","data":false}"#), event()),
            (text(r#"{"event":"seek"}"#), event()),
            (text(r#"{"data":1.0,"request_id":9,"error":"success"}"#), reply(Some(9), Some("success"), MpvData::Number(1000))),
        ],
        9,
    );
    assert_eq!(r.unwrap(), MpvData::Number(1000));
}

#[test]
fn reply_skips_mismatched_request_id() {
    let r = take(
        vec![
            (text(r#"{"request_id":3,"error":"success","data":99.0}"#), reply(Some(3), Some("success"), MpvData::Number(99000))),
            (text(r#"{"request_id":4,"error":"success","data":1.25}"#), reply(Some(4), Some("success"), MpvData::Number(1250))),
        ],
        4,
    );
    assert_eq!(r.unwrap(), MpvData::Number(1250));
}

#[test]
fn reply_error_maps_to_protocol() {
    let r = take(vec![(text(r#"{"request_id":5,"error":"property not found"}"#), reply(Some(5), Some("property not found"), MpvData::Null))], 5);
    match r {
        Err(IpcError::Protocol(msg)) => assert!(msg.contains("property not found")),
        other => panic!("expected a protocol error, got {other:?}"),
    }
}

#[test]
fn reply_invalid_json_maps_to_protocol() {
    let r = take(vec![(text("not-json"), Err("expected value at line 1 column 1".into()))], 1);
    assert!(matches!(r, Err(IpcError::Protocol(_))));
}

#[test]
fn reply_empty_stream_maps_to_protocol() {
    assert!(matches!(take(vec![], 1), Err(IpcError::Protocol(_))));
}

#[test]
fn reply_gives_up_after_line_cap() {
    let lines = (0..MAX_REPLY_LINES + 8).map(|_| (text(r#"{"event":"tick"}"#), event())).collect();
    assert!(matches!(take(lines, 1), Err(IpcError::Protocol(_))));
}

#[test]
fn stream_ends_or_caps_without_a_reply() {
    match stream_step(0, None, 1) {
        ReplyStep::Done(Err(IpcError::Protocol(m))) => assert_eq!(m, "未在应答流中读到匹配的 mpv 应答"),
        other => panic!("expected the no-reply error, got {other:?}"),
    }
    let line = (text(r#"{"request_id":1,"error":"success"}"#), reply(Some(1), Some("success"), MpvData::Null));
    assert!(matches!(stream_step(MAX_REPLY_LINES, Some(&line), 1), ReplyStep::Done(Err(IpcError::Protocol(_)))));
    assert!(matches!(stream_step(MAX_REPLY_LINES - 1, Some(&line), 1), ReplyStep::Done(Ok(MpvData::Null))));
}

#[test]
fn reply_io_error_maps_to_protocol() {
    let r = take(vec![(Err("pipe broken".into()), Err("unused".into()))], 1);
    assert!(matches!(r, Err(IpcError::Protocol(_))));
}

#[test]
fn blank_lines_are_skipped() {
    assert!(matches!(reply_step(&text("   "), &Err("eof".into()), 1), ReplyStep::Skip));
}

#[test]
fn speed_must_be_a_number() {
    assert_eq!(speed_of(&MpvData::Number(1500)).unwrap(), 1500);
    match speed_of(&MpvData::Other("\"fast\"".into())) {
        Err(IpcError::Protocol(m)) => assert_eq!(m, "speed 属性不是数字：\"fast\""),
        other => panic!("expected a protocol error, got {other:?}"),
    }
}

#[test]
fn mpv_client_keeps_its_pipe() {
    let client = MpvClient::new(r"\\.\pipe\mpvsocket");
    assert_eq!(client.pipe, r"\\.\pipe\mpvsocket");
}

#[test]
fn ws_addr_extracts_host_port() {
    assert_eq!(ws_addr("ws://127.0.0.1:9333/devtools/page/AB12").as_deref(), Some("127.0.0.1:9333"));
    assert_eq!(ws_addr("http://127.0.0.1:9333/x"), None);
}

fn target(kind: &str, url: &str, ws: Option<&str>) -> RawTarget {
    RawTarget { kind: kind.into(), url: url.into(), ws_url: ws.map(String::from) }
}

#[test]
fn page_targets_filters_and_sorts() {
    let raw = vec![
        target("page", "https://x/index.html", Some("ws://h/devtools/page/A")),
        target("service_worker", "https://x/sw.js", Some("ws://h/devtools/page/B")),
        target("page", "https://x/player.html", Some("ws://h/devtools/page/C")),
        target("page", "https://x/no-ws.html", None),
    ];
    assert_eq!(
        order_targets(&raw),
        vec!["ws://h/devtools/page/C".to_string(), "ws://h/devtools/page/A".to_string()]
    );
}

#[test]
fn set_rate_end_to_end_via_fakes() {
    let sent = set_rate_expression(2000);
    assert!(sent.contains("playbackRate = 2"), "the script carries the target rate: {sent}");
    assert!(sent.contains("window.__omniGuard"), "the guard is injected first: {sent}");
    assert!(sent.contains("__omniGuard.set(2)"), "the guard adopts the target: {sent}");
    let targets = vec!["ws://127.0.0.1:1/devtools/page/T".to_string()];
    let read = CdpClient::set_rate(&targets, 2000, &|_: &String, script: &String| {
        assert_eq!(*script, sent, "each page runs the script of the target rate");
        Ok(EvalValue::Number(2000))
    });
    assert_eq!(read.unwrap(), Some(2000));
}

#[test]
fn set_rate_needs_a_page_with_media() {
    let targets = vec!["a".to_string(), "b".to_string()];
    let none = CdpClient::set_rate(&targets, 1500, &|_: &String, _: &String| Ok(EvalValue::Null));
    assert!(matches!(none, Err(IpcError::Protocol(_))));
    let mixed = CdpClient::set_rate(&targets, 1500, &|t: &String, _: &String| {
        if t == "a" {
            Err(IpcError::Unavailable)
        } else {
            Ok(EvalValue::Number(1500))
        }
    });
    assert_eq!(mixed.unwrap(), Some(1500));
}

#[test]
fn play_pause_stops_at_the_first_page_that_toggles() {
    let targets = vec!["a".to_string(), "b".to_string(), "c".to_string()];
    let calls = std::cell::RefCell::new(Vec::new());
    let r = CdpClient::play_pause(&targets, &|t: &String, _: &String| {
        calls.borrow_mut().push(t.clone());
        if t == "b" {
            Ok(EvalValue::Bool(true))
        } else {
            Ok(EvalValue::Null)
        }
    });
    assert!(r.is_ok());
    assert_eq!(*calls.borrow(), vec!["a".to_string(), "b".to_string()]);
    assert_eq!(CdpClient::get_rate(&targets, &|_: &String, _: &String| Ok(EvalValue::Number(1250))).unwrap(), 1250);
}

#[test]
fn cdp_port_urls_and_outcomes() {
    let client = CdpClient::new(9333);
    assert_eq!(client.url("/json/list"), "http://127.0.0.1:9333/json/list");
    assert!(CdpClient::is_available(&Ok("{}".into())));
    assert!(!CdpClient::is_available(&Err(IpcError::Unavailable)));
    // A listening port that answers with an error status is still online.
    assert!(CdpClient::is_available(&CdpClient::classify(HttpOutcome::Status(500))));
    assert!(!CdpClient::is_available(&CdpClient::classify(HttpOutcome::Transport)));
    match CdpClient::classify(HttpOutcome::Status(404)) {
        Err(IpcError::Protocol(m)) => assert_eq!(m, "CDP 调试口返回 HTTP 404"),
        other => panic!("expected a protocol error, got {other:?}"),
    }
}

fn cdp(id: Option<i64>, error: Option<&str>, exception: Option<&str>, value: EvalValue) -> CdpMessage {
    CdpMessage { id, error: error.map(String::from), exception: exception.map(String::from), value }
}

#[test]
fn cdp_calls_skip_events_and_end_on_errors() {
    assert!(matches!(cdp_reply_step(CdpFrame::Other, 1), CdpStep::Skip));
    assert!(matches!(cdp_reply_step(CdpFrame::Text(Ok(cdp(None, None, None, EvalValue::Null))), 1), CdpStep::Skip));
    assert!(matches!(cdp_reply_step(CdpFrame::Text(Ok(cdp(Some(2), None, None, EvalValue::Null))), 1), CdpStep::Skip));
    match cdp_reply_step(CdpFrame::Close, 1) {
        CdpStep::Done(Err(IpcError::Protocol(m))) => assert_eq!(m, "CDP 连接被目标关闭"),
        other => panic!("expected a protocol error, got {other:?}"),
    }
    match cdp_reply_step(CdpFrame::Text(Ok(cdp(Some(1), Some("{\"code\":-32000}"), None, EvalValue::Null))), 1) {
        CdpStep::Done(Err(IpcError::Protocol(m))) => assert_eq!(m, "CDP 调用失败：{\"code\":-32000}"),
        other => panic!("expected a protocol error, got {other:?}"),
    }
    match cdp_reply_step(CdpFrame::Text(Err("bad".into())), 1) {
        CdpStep::Done(Err(IpcError::Protocol(m))) => assert_eq!(m, "CDP 应答不是 JSON：bad"),
        other => panic!("expected a protocol error, got {other:?}"),
    }
    match cdp_reply_step(CdpFrame::Text(Ok(cdp(Some(1), None, None, EvalValue::Number(1500)))), 1) {
        CdpStep::Done(Ok(m)) => assert_eq!(eval_result(m).unwrap(), EvalValue::Number(1500)),
        other => panic!("expected the reply, got {other:?}"),
    }
    match eval_result(cdp(Some(1), None, Some("{\"text\":\"x\"}"), EvalValue::Null)) {
        Err(IpcError::Protocol(m)) => assert_eq!(m, "页面脚本异常:{\"text\":\"x\"}"),
        other => panic!("expected a protocol error, got {other:?}"),
    }
}
