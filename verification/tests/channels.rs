//! Channels, settings and pushes.

use codeg_core::channels::{
    accept_config, attach_token, connect_chat_channel_core, create_chat_channel_core,
    delete_chat_channel_core, list_chat_channel_messages_core, open_chat_channel,
    parse_channel_type, test_chat_channel_core, ChannelConnectionStatus, ChannelEvent,
    ChannelStep, ChannelType, ChatChannelRow, DeleteEvent, DeleteStep, MessageQuery,
    NewChatChannel, RichMessage,
};
use codeg_core::delivery::{
    accept_status, query_server_chan_status_core, split_pushid_readkey, FetchEvent, MessageLogRow,
    StatusFetch, StatusStep,
};
use codeg_core::error::{AppCommandError, AppErrorCode, ChatChannelError};
use codeg_core::serverchan::{
    judge_send_reply, push_step, read_send_reply, PushEvent, PushStep, SendReply,
    ServerChanBackend, DESP_MAX_LEN, SHORT_MAX_LEN, TITLE_MAX_LEN,
};
use codeg_core::settings::{
    accept_filter, accept_filter_text, accept_language, accept_prefix, get_chat_command_prefix_core,
    get_chat_event_filter_core, get_chat_message_language_core, is_supported_language,
    set_chat_command_prefix_core, set_chat_event_filter_core, set_chat_message_language_core,
    COMMAND_PREFIX_KEY, EVENT_FILTER_KEY, MESSAGE_LANGUAGE_KEY,
};
use codeg_core::text::{any_alphanumeric, decimal_text, same_text, truncate_str};
use codeg_core::tokens::{
    delete_chat_channel_token_core, get_chat_channel_has_token_core, save_chat_channel_token_core,
};
use codeg_core::weixin::{
    accept_qrcode, weixin_check_qrcode_core, ConfigUpdate, QrcodeStep, TokenSave,
    WeixinQrcodeStatus,
};

fn failed(message: &str) -> AppCommandError {
    AppCommandError::new(AppErrorCode::Database, message.to_string())
}

fn assert_error(e: &AppCommandError, code: AppErrorCode, message: &str, detail: Option<&str>) {
    assert_eq!(e.code, code);
    assert_eq!(e.message, message);
    assert_eq!(e.detail.as_deref(), detail);
}

fn reason<T>(r: Result<T, ChatChannelError>) -> String {
    match r {
        Ok(_) => panic!("a failure was expected"),
        Err(ChatChannelError::SendFailed(reason)) => reason,
    }
}

// Text

#[test]
fn truncation_respects_characters() {
    assert_eq!(truncate_str("hello", 5), "hello");
    assert_eq!(truncate_str("hello", 4), "hell");
    assert_eq!(truncate_str("hello", 0), "");
    assert_eq!(truncate_str("", 0), "");
    assert_eq!(truncate_str("a\u{9171}b", 3), "a");
    assert_eq!(truncate_str("a\u{9171}b", 4), "a\u{9171}");
    assert_eq!(truncate_str("\u{1f600}", 3), "");
    let once = truncate_str("\u{e9}\u{e9}\u{e9}", 5);
    assert_eq!(once, "\u{e9}\u{e9}");
    assert_eq!(truncate_str(&once, 5), once);
}

#[test]
fn numbers_in_decimal() {
    assert_eq!(decimal_text(0), "0");
    assert_eq!(decimal_text(9), "9");
    assert_eq!(decimal_text(10), "10");
    assert_eq!(decimal_text(1234567890), "1234567890");
    assert_eq!(decimal_text(-7), "-7");
    assert_eq!(decimal_text(i64::MAX), format!("{}", i64::MAX));
    assert_eq!(decimal_text(i64::MIN), format!("{}", i64::MIN));
}

#[test]
fn texts_compare_as_a_whole() {
    assert!(same_text("", ""));
    assert!(same_text("酱", "酱"));
    assert!(!same_text("a", "ab"));
    assert!(!same_text("ab", "ac"));
}

#[test]
fn alphanumeric_characters_are_found() {
    assert!(any_alphanumeric("!!a"));
    assert!(any_alphanumeric("酱"));
    assert!(any_alphanumeric("7"));
    assert!(!any_alphanumeric("!/-"));
    assert!(!any_alphanumeric(""));
}

// Tokens

#[test]
fn token_commands_report_the_keyring() {
    assert!(save_chat_channel_token_core(Ok(())).is_ok());
    let e = save_chat_channel_token_core(Err("locked".to_string())).unwrap_err();
    assert_error(&e, AppErrorCode::Io, "Failed to save token", Some("locked"));
    assert!(delete_chat_channel_token_core(Ok(())).is_ok());
    let e = delete_chat_channel_token_core(Err("locked".to_string())).unwrap_err();
    assert_error(&e, AppErrorCode::Io, "Failed to delete token", Some("locked"));
    assert_eq!(get_chat_channel_has_token_core(&Some("t".to_string())).unwrap(), true);
    assert_eq!(get_chat_channel_has_token_core(&None).unwrap(), false);
}

// Settings

#[test]
fn command_prefix_is_trimmed_and_checked() {
    let write = set_chat_command_prefix_core("  //\t".to_string()).unwrap();
    assert_eq!(write.key, COMMAND_PREFIX_KEY);
    assert_eq!(write.key, "chat_command_prefix");
    assert_eq!(write.value, "//");
    let again = set_chat_command_prefix_core(write.value.clone()).unwrap();
    assert_eq!(again.value, write.value);
    assert_eq!(set_chat_command_prefix_core("\u{3000}\u{2026}".to_string()).unwrap().value, "\u{2026}");
    for bad in ["", "   ", "////", "a", "/1", "酱", "\u{ff01}\u{ff01}"] {
        let e = set_chat_command_prefix_core(bad.to_string()).unwrap_err();
        assert_error(
            &e,
            AppErrorCode::InvalidInput,
            "Prefix must be 1-3 non-alphanumeric characters",
            None,
        );
    }
    assert_eq!(accept_prefix("!!!", false).unwrap().value, "!!!");
    assert!(accept_prefix("!!!", true).is_err());
    assert!(accept_prefix("!!!!", false).is_err());
}

#[test]
fn command_prefix_defaults_to_a_slash() {
    assert_eq!(get_chat_command_prefix_core(Ok(None)).unwrap(), "/");
    assert_eq!(get_chat_command_prefix_core(Ok(Some("!".to_string()))).unwrap(), "!");
    let e = get_chat_command_prefix_core(Err(failed("down"))).unwrap_err();
    assert_error(&e, AppErrorCode::Database, "down", None);
}

#[test]
fn message_language_is_lowered_and_checked() {
    let write = set_chat_message_language_core("ZH-CN".to_string()).unwrap();
    assert_eq!(write.key, MESSAGE_LANGUAGE_KEY);
    assert_eq!(write.key, "chat_message_language");
    assert_eq!(write.value, "zh-cn");
    for language in ["en", "zh-cn", "zh-tw", "ja", "ko", "es", "de", "fr", "pt", "ar"] {
        assert!(is_supported_language(language));
        assert_eq!(set_chat_message_language_core(language.to_string()).unwrap().value, language);
    }
    let e = set_chat_message_language_core("Klingon".to_string()).unwrap_err();
    assert_error(
        &e,
        AppErrorCode::InvalidInput,
        "Unsupported language: Klingon. Supported: en, zh-cn, zh-tw, ja, ko, es, de, fr, pt, ar",
        None,
    );
    assert_eq!(accept_language("EN", "en".to_string()).unwrap().value, "en");
    assert!(accept_language("EN", "EN".to_string()).is_err());
}

#[test]
fn message_language_defaults_to_english() {
    assert_eq!(get_chat_message_language_core(Ok(None)).unwrap(), "en");
    assert_eq!(get_chat_message_language_core(Ok(Some("ja".to_string()))).unwrap(), "ja");
    assert!(get_chat_message_language_core(Err(failed("down"))).is_err());
}

#[test]
fn event_filter_is_read_back_as_it_was_written() {
    let filters = [
        None,
        Some(vec![]),
        Some(vec!["turn_complete".to_string()]),
        Some(vec!["a\"b\\c".to_string(), "\n\t\u{1}".to_string(), "酱\u{1f600}".to_string()]),
    ];
    for filter in filters {
        let write = set_chat_event_filter_core(filter.clone()).unwrap();
        assert_eq!(write.key, EVENT_FILTER_KEY);
        assert_eq!(get_chat_event_filter_core(Ok(Some(write.value))).unwrap(), filter);
    }
}

#[test]
fn event_filter_texts() {
    assert_eq!(set_chat_event_filter_core(None).unwrap().value, "null");
    let names = vec!["a".to_string(), "b".to_string()];
    assert_eq!(set_chat_event_filter_core(Some(names)).unwrap().value, "[\"a\",\"b\"]");
    assert_eq!(get_chat_event_filter_core(Ok(None)).unwrap(), None);
    let e = get_chat_event_filter_core(Ok(Some("nope".to_string()))).unwrap_err();
    assert_error(&e, AppErrorCode::InvalidInput, "expected ident at line 1 column 2", None);
    assert!(get_chat_event_filter_core(Ok(Some("[1]".to_string()))).is_err());
    assert!(get_chat_event_filter_core(Err(failed("down"))).is_err());
    assert!(accept_filter(Err("bad".to_string())).is_err());
    assert_eq!(accept_filter(Ok(None)).unwrap(), None);
    let e = accept_filter_text(Err("bad".to_string())).unwrap_err();
    assert_error(&e, AppErrorCode::InvalidInput, "bad", None);
}

// Channels

#[test]
fn channel_types_by_name() {
    assert_eq!(parse_channel_type("lark"), Some(ChannelType::Lark));
    assert_eq!(parse_channel_type("telegram"), Some(ChannelType::Telegram));
    assert_eq!(parse_channel_type("weixin"), Some(ChannelType::Weixin));
    assert_eq!(parse_channel_type("server_chan"), Some(ChannelType::ServerChan));
    assert_eq!(parse_channel_type("ServerChan"), None);
    assert_eq!(parse_channel_type(""), None);
}

fn new_channel(channel_type: &str) -> NewChatChannel {
    NewChatChannel {
        name: "n".to_string(),
        channel_type: channel_type.to_string(),
        config_json: "{}".to_string(),
        enabled: true,
        daily_report_enabled: false,
        daily_report_time: Some("08:00".to_string()),
    }
}

#[test]
fn created_channel_has_a_known_type() {
    let channel = create_chat_channel_core(new_channel("server_chan")).unwrap();
    assert_eq!(channel.name, "n");
    assert_eq!(channel.channel_type, "server_chan");
    assert_eq!(channel.daily_report_time.as_deref(), Some("08:00"));
    let e = create_chat_channel_core(new_channel("irc")).unwrap_err();
    assert_error(&e, AppErrorCode::InvalidInput, "Invalid channel type: irc", None);
}

#[test]
fn created_channel_opens() {
    let channel = create_chat_channel_core(new_channel("telegram")).unwrap();
    let stored = ChatChannelRow {
        name: channel.name,
        channel_type: channel.channel_type,
        config_json: channel.config_json,
    };
    assert!(open_chat_channel(1, Ok(Some(stored))).is_ok());
}

fn row(channel_type: &str, config_json: &str) -> ChatChannelRow {
    ChatChannelRow {
        name: "n".to_string(),
        channel_type: channel_type.to_string(),
        config_json: config_json.to_string(),
    }
}

#[test]
fn channel_opens_with_its_configuration() {
    let channel = open_chat_channel(3, Ok(Some(row("weixin", "{\"base_url\":\"u\"}")))).ok().unwrap();
    assert_eq!(channel.id, 3);
    assert_eq!(channel.name, "n");
    assert_eq!(channel.channel_type, ChannelType::Weixin);
    assert_eq!(channel.config.get("base_url").and_then(|v| v.as_str()), Some("u"));

    let e = open_chat_channel(-4, Ok(None)).err().unwrap();
    assert_error(&e, AppErrorCode::NotFound, "Chat channel -4 not found", None);
    let e = open_chat_channel(3, Ok(Some(row("irc", "{}")))).err().unwrap();
    assert_error(&e, AppErrorCode::ConfigurationInvalid, "Invalid channel type: irc", None);
    let e = open_chat_channel(3, Ok(Some(row("lark", "{")))).err().unwrap();
    assert_error(
        &e,
        AppErrorCode::ConfigurationInvalid,
        "Invalid config JSON",
        Some("EOF while parsing an object at line 1 column 1"),
    );
    let e = open_chat_channel(3, Err(failed("down"))).err().unwrap();
    assert_error(&e, AppErrorCode::Database, "down", None);
    let e = accept_config(3, "n".to_string(), ChannelType::Lark, Err("bad".to_string()));
    assert_error(
        &e.err().unwrap(),
        AppErrorCode::ConfigurationInvalid,
        "Invalid config JSON",
        Some("bad"),
    );
}

#[test]
fn channel_without_token_has_no_backend() {
    let channel = open_chat_channel(3, Ok(Some(row("lark", "{}")))).ok().unwrap();
    let e = attach_token(channel, None).err().unwrap();
    assert_error(&e, AppErrorCode::ConfigurationMissing, "Token not set", None);
    let channel = open_chat_channel(3, Ok(Some(row("lark", "{}")))).ok().unwrap();
    let request = attach_token(channel, Some("t".to_string())).ok().unwrap();
    assert_eq!(request.token, "t");
    assert_eq!(request.channel.id, 3);
}

#[test]
fn connecting_a_channel_step_by_step() {
    let loaded = ChannelEvent::<u8>::Loaded { id: 3, row: Ok(Some(row("lark", "{}"))) };
    let ChannelStep::ReadToken(channel) = connect_chat_channel_core(loaded) else {
        panic!("the token comes next");
    };
    let read = ChannelEvent::<u8>::TokenRead { channel, token: Some("t".to_string()) };
    let ChannelStep::CreateBackend(request) = connect_chat_channel_core(read) else {
        panic!("the backend comes next");
    };
    let created = ChannelEvent::BackendCreated { channel: request.channel, backend: Ok(9u8) };
    let ChannelStep::AddChannel { id, name, channel_type, backend } =
        connect_chat_channel_core(created)
    else {
        panic!("the channel comes next");
    };
    assert_eq!((id, name.as_str(), backend), (3, "n", 9));
    assert_eq!(channel_type, ChannelType::Lark);
    assert!(matches!(
        connect_chat_channel_core(ChannelEvent::<u8>::Used(Ok(()))),
        ChannelStep::Done(Ok(()))
    ));
}

#[test]
fn testing_a_channel_does_not_add_it() {
    let channel = open_chat_channel(3, Ok(Some(row("lark", "{}")))).ok().unwrap();
    let created = ChannelEvent::BackendCreated { channel, backend: Ok(9u8) };
    assert!(matches!(test_chat_channel_core(created), ChannelStep::TestConnection(9)));
    let channel = open_chat_channel(3, Ok(Some(row("lark", "{}")))).ok().unwrap();
    let created = ChannelEvent::<u8>::BackendCreated { channel, backend: Err(failed("no")) };
    assert!(matches!(test_chat_channel_core(created), ChannelStep::Done(Err(_))));
    let loaded = ChannelEvent::<u8>::Loaded { id: 1, row: Ok(None) };
    assert!(matches!(test_chat_channel_core(loaded), ChannelStep::Done(Err(_))));
    let channel = open_chat_channel(3, Ok(Some(row("lark", "{}")))).ok().unwrap();
    let read = ChannelEvent::<u8>::TokenRead { channel, token: None };
    assert!(matches!(test_chat_channel_core(read), ChannelStep::Done(Err(_))));
}

#[test]
fn deleting_a_channel_in_order() {
    assert!(matches!(delete_chat_channel_core(DeleteEvent::Asked), DeleteStep::Disconnect));
    assert!(matches!(
        delete_chat_channel_core(DeleteEvent::Disconnected(Err(failed("not running")))),
        DeleteStep::DeleteRow
    ));
    assert!(matches!(
        delete_chat_channel_core(DeleteEvent::RowDeleted(Ok(()))),
        DeleteStep::DeleteToken
    ));
    assert!(matches!(
        delete_chat_channel_core(DeleteEvent::RowDeleted(Err(failed("down")))),
        DeleteStep::Done(Err(_))
    ));
    assert!(matches!(
        delete_chat_channel_core(DeleteEvent::TokenDeleted(Err("none".to_string()))),
        DeleteStep::Done(Ok(()))
    ));
}

#[test]
fn message_pages() {
    assert_eq!(
        list_chat_channel_messages_core(4, None, None),
        MessageQuery { channel_id: 4, limit: 50, offset: 0 }
    );
    assert_eq!(
        list_chat_channel_messages_core(4, Some(5), Some(10)),
        MessageQuery { channel_id: 4, limit: 5, offset: 10 }
    );
}

// Server酱

fn backend() -> ServerChanBackend {
    ServerChanBackend::new(1, "KEY".to_string(), Some("9".to_string()), Some(true))
}

#[test]
fn backend_starts_and_stops() {
    let mut backend = backend();
    assert_eq!(backend.channel_type(), ChannelType::ServerChan);
    assert_eq!(backend.status(), ChannelConnectionStatus::Disconnected);
    backend.start();
    assert_eq!(backend.status(), ChannelConnectionStatus::Connected);
    backend.stop();
    assert_eq!(backend.status(), ChannelConnectionStatus::Disconnected);
    assert_eq!(backend.endpoint(), "https://sctapi.ftqq.com/KEY.send");
}

#[test]
fn plain_message() {
    let push = backend().send_message("hi");
    assert_eq!(push.url, "https://sctapi.ftqq.com/KEY.send");
    assert_eq!(push.body.title, "codeg");
    assert_eq!(push.body.desp, "hi");
    assert_eq!(push.body.short, None);
    assert_eq!(push.body.channel.as_deref(), Some("9"));
    assert_eq!(push.body.noip, Some(1));
    let quiet = ServerChanBackend::new(1, "K".to_string(), None, Some(false)).send_message("hi");
    assert_eq!(quiet.body.channel, None);
    assert_eq!(quiet.body.noip, None);
    let test = backend().test_connection();
    assert_eq!(test.body.title, "codeg test");
    assert_eq!(test.body.desp, "connection test");
}

#[test]
fn rich_message_with_fields() {
    let push = backend().send_rich_message(&RichMessage {
        title: Some("t".to_string()),
        body: "b".to_string(),
        fields: vec![
            ("k1".to_string(), "v1".to_string()),
            ("k2".to_string(), "v2".to_string()),
        ],
    });
    assert_eq!(push.body.title, "t");
    assert_eq!(push.body.desp, "b\n\n**k1**: v1\n**k2**: v2\n");
    assert_eq!(push.body.short.as_deref(), Some("b"));
    let empty = backend().send_rich_message(&RichMessage {
        title: None,
        body: String::new(),
        fields: vec![],
    });
    assert_eq!(empty.body.title, "codeg");
    assert_eq!(empty.body.desp, "");
    assert_eq!(empty.body.short, None);
}

#[test]
fn long_messages_are_cut() {
    let long = "酱".repeat(20_000);
    let push = backend().send_rich_message(&RichMessage {
        title: Some(long.clone()),
        body: long.clone(),
        fields: vec![],
    });
    assert_eq!(push.body.title, "酱".repeat(10));
    assert_eq!(push.body.desp, "酱".repeat(10_922));
    assert_eq!(push.body.short, Some("酱".repeat(21)));
    assert!(push.body.title.len() <= TITLE_MAX_LEN);
    assert!(push.body.desp.len() <= DESP_MAX_LEN);
    let ascii = "x".repeat(100);
    let push = backend().send_rich_message(&RichMessage {
        title: None,
        body: ascii.clone(),
        fields: vec![],
    });
    assert_eq!(push.body.desp, ascii);
    assert_eq!(push.body.short, Some("x".repeat(SHORT_MAX_LEN)));
}

#[test]
fn reply_with_code_zero_is_success() {
    let body = br#"{"code":0,"message":"","data":{"pushid":"12","readkey":"AB"}}"#;
    assert_eq!(read_send_reply(body).unwrap().0, "12|AB");
}

#[test]
fn other_replies_are_failures() {
    let cases: [(&[u8], &str); 9] = [
        (br#"{"code":40001,"message":"bad key"}"#, "code=40001 message=bad key"),
        (br#"{"code":-3}"#, "code=-3 message=unknown error"),
        (br#"{"message":"m"}"#, "code=-1 message=m"),
        (br#"{"code":"0","message":5}"#, "code=-1 message=unknown error"),
        (br#"{"code":0.5}"#, "code=-1 message=unknown error"),
        (br#"[0]"#, "code=-1 message=unknown error"),
        (br#"{"code":0,"data":{"readkey":"AB"}}"#, "missing pushid"),
        (br#"{"code":0,"data":{"pushid":"12"}}"#, "missing readkey"),
        (b"not json", "error decoding response body"),
    ];
    for (body, expected) in cases {
        assert_eq!(reason(read_send_reply(body)), expected);
    }
}

#[test]
fn replies_are_judged_by_their_fields() {
    let mut reply = SendReply {
        code: Some(0),
        message: None,
        pushid: Some("1".to_string()),
        readkey: Some("r".to_string()),
    };
    assert_eq!(judge_send_reply(&reply).unwrap().0, "1|r");
    reply.code = None;
    assert_eq!(reason(judge_send_reply(&reply)), "code=-1 message=unknown error");
}

#[test]
fn push_goes_on_until_it_is_done() {
    assert!(matches!(push_step(PushEvent::Status(200)), PushStep::ReadBody));
    assert!(matches!(push_step(PushEvent::Status(299)), PushStep::ReadBody));
    for (event, expected) in [
        (PushEvent::Status(300), "HTTP 300"),
        (PushEvent::Status(199), "HTTP 199"),
        (PushEvent::Status(404), "HTTP 404"),
        (PushEvent::Failed("no route".to_string()), "no route"),
    ] {
        let PushStep::Done(outcome) = push_step(event) else {
            panic!("the push is done");
        };
        assert_eq!(reason(outcome), expected);
    }
    let body = br#"{"code":0,"data":{"pushid":"1","readkey":"r"}}"#.to_vec();
    let PushStep::Done(outcome) = push_step(PushEvent::Body(body)) else {
        panic!("the push is done");
    };
    assert_eq!(outcome.unwrap().0, "1|r");
}

// Delivery

#[test]
fn message_names_come_apart() {
    assert_eq!(split_pushid_readkey("12|AB"), Some(("12", "AB")));
    assert_eq!(split_pushid_readkey("酱|键|x"), Some(("酱", "键|x")));
    assert_eq!(split_pushid_readkey("|AB"), None);
    assert_eq!(split_pushid_readkey("12|"), None);
    assert_eq!(split_pushid_readkey("|"), None);
    assert_eq!(split_pushid_readkey("12"), None);
    assert_eq!(split_pushid_readkey(""), None);
}

fn logged(preview: &str) -> MessageLogRow {
    MessageLogRow { channel_id: 8, content_preview: preview.to_string() }
}

fn fetch(preview: &str) -> StatusFetch {
    let StatusStep::LoadChannel(lookup) =
        query_server_chan_status_core(5, Ok(Some(logged(preview))))
    else {
        panic!("the channel comes next");
    };
    assert_eq!(lookup.channel_id, 8);
    let StatusStep::Fetch(fetch) = lookup.loaded(Ok(Some("server_chan".to_string()))) else {
        panic!("the request comes next");
    };
    fetch
}

fn has_no_status(step: StatusStep) -> bool {
    matches!(step, StatusStep::Done(Ok(None)))
}

fn query_error(step: StatusStep) -> AppCommandError {
    match step {
        StatusStep::Done(Err(e)) => e,
        _ => panic!("a failure was expected"),
    }
}

#[test]
fn message_without_log_has_no_status() {
    assert!(has_no_status(query_server_chan_status_core(5, Ok(None))));
    let e = query_error(query_server_chan_status_core(5, Err(failed("down"))));
    assert_error(&e, AppErrorCode::Database, "down", None);
}

#[test]
fn only_server_chan_messages_have_a_status() {
    for (preview, channel_type) in [
        ("12|AB", Some("lark".to_string())),
        ("12|AB", None),
        ("hello", Some("server_chan".to_string())),
    ] {
        let StatusStep::LoadChannel(lookup) =
            query_server_chan_status_core(5, Ok(Some(logged(preview))))
        else {
            panic!("the channel comes next");
        };
        assert!(has_no_status(lookup.loaded(Ok(channel_type))));
    }
    let StatusStep::LoadChannel(lookup) =
        query_server_chan_status_core(5, Ok(Some(logged("12|AB"))))
    else {
        panic!("the channel comes next");
    };
    let e = query_error(lookup.loaded(Err(failed("down"))));
    assert_error(&e, AppErrorCode::Database, "down", None);
}

#[test]
fn status_is_fetched_and_stored() {
    let fetch = fetch("12|AB");
    assert_eq!(fetch.url, "https://sctapi.ftqq.com/push?id=12&readkey=AB");
    let StatusStep::ReadBody(fetch) = fetch.replied(FetchEvent::Status(200)) else {
        panic!("the body comes next");
    };
    let body = br#"{"data":{"wxstatus":"ok"}}"#.to_vec();
    let StatusStep::Store(write) = fetch.replied(FetchEvent::Body(body)) else {
        panic!("the status is stored next");
    };
    assert_eq!(write.log_id, 5);
    assert_eq!(write.status, "ok");
    assert_eq!(write.stored(Ok(())).unwrap().as_deref(), Some("ok"));
}

#[test]
fn reply_without_status_is_no_failure() {
    for body in ["{}", "{\"data\":{\"wxstatus\":\"\"}}", "{\"data\":{\"wxstatus\":1}}", "[]"] {
        assert!(has_no_status(fetch("12|AB").replied(FetchEvent::Body(body.as_bytes().to_vec()))));
    }
    assert!(has_no_status(accept_status(5, Some(String::new()))));
    assert!(has_no_status(accept_status(5, None)));
    assert!(matches!(accept_status(5, Some("x".to_string())), StatusStep::Store(_)));
}

#[test]
fn failures_of_the_status_request() {
    let cases = [
        (FetchEvent::NoClient("tls".to_string()), "Failed to build HTTP client", Some("tls")),
        (FetchEvent::Failed("dns".to_string()), "Server酱 status request failed", Some("dns")),
        (FetchEvent::Status(502), "Server酱 status HTTP 502", None),
        (FetchEvent::BodyFailed("cut".to_string()), "Server酱 status decode failed", Some("cut")),
        (
            FetchEvent::Body(b"<html>".to_vec()),
            "Server酱 status decode failed",
            Some("error decoding response body"),
        ),
    ];
    for (event, message, detail) in cases {
        let e = query_error(fetch("12|AB").replied(event));
        assert_error(&e, AppErrorCode::Network, message, detail);
    }
    let body = br#"{"data":{"wxstatus":"ok"}}"#.to_vec();
    let StatusStep::Store(write) = fetch("12|AB").replied(FetchEvent::Body(body)) else {
        panic!("the status is stored next");
    };
    assert!(write.stored(Err(failed("down"))).is_err());
}

#[test]
fn pushed_message_can_be_asked_for() {
    let body = br#"{"code":0,"data":{"pushid":"77","readkey":"k|k"}}"#;
    let id = read_send_reply(body).unwrap().0;
    assert_eq!(split_pushid_readkey(&id), Some(("77", "k|k")));
    assert_eq!(fetch(&id).url, "https://sctapi.ftqq.com/push?id=77&readkey=k|k");
}

// WeChat

fn qrcode(status: &str, bot_token: Option<&str>, base_url: Option<&str>) -> WeixinQrcodeStatus {
    WeixinQrcodeStatus {
        status: status.to_string(),
        bot_token: bot_token.map(|s| s.to_string()),
        base_url: base_url.map(|s| s.to_string()),
    }
}

fn checked(status: WeixinQrcodeStatus) -> QrcodeStep {
    weixin_check_qrcode_core(6, Ok(status))
}

fn token_save(step: QrcodeStep) -> TokenSave {
    match step {
        QrcodeStep::SaveToken(save) => save,
        _ => panic!("the token comes first"),
    }
}

fn config_update(step: QrcodeStep) -> ConfigUpdate {
    match step {
        QrcodeStep::UpdateChannel(change) => change,
        _ => panic!("the channel comes next"),
    }
}

fn told(step: QrcodeStep) -> String {
    match step {
        QrcodeStep::Done(outcome) => outcome.unwrap().status,
        _ => panic!("nothing else is needed"),
    }
}

#[test]
fn confirmed_qrcode_keeps_token_and_address() {
    let save = token_save(checked(qrcode("confirmed", Some("tok"), Some("http://a\"b"))));
    assert_eq!(save.channel_id, 6);
    assert_eq!(save.token, "tok");
    let change = config_update(save.saved(Ok(())));
    assert_eq!(change.update.id, 6);
    assert_eq!(change.update.config_json.as_deref(), Some(r#"{"base_url":"http://a\"b"}"#));
    assert!(change.update.name.is_none() && change.update.enabled.is_none());
    let stored = row("weixin", change.update.config_json.as_deref().unwrap());
    let config = open_chat_channel(6, Ok(Some(stored))).ok().unwrap().config;
    assert_eq!(config.get("base_url").and_then(|v| v.as_str()), Some("http://a\"b"));
    assert_eq!(change.updated(Ok(())).unwrap().status, "confirmed");
}

#[test]
fn confirmed_qrcode_with_less() {
    assert_eq!(told(checked(qrcode("confirmed", None, None))), "confirmed");
    let save = token_save(checked(qrcode("confirmed", Some("tok"), None)));
    assert_eq!(told(save.saved(Ok(()))), "confirmed");
    let change = config_update(checked(qrcode("confirmed", None, Some("u"))));
    assert_eq!(change.update.config_json.as_deref(), Some(r#"{"base_url":"u"}"#));
}

#[test]
fn unsaved_token_leaves_the_channel_alone() {
    let save = token_save(checked(qrcode("confirmed", Some("tok"), Some("u"))));
    match save.saved(Err("locked".to_string())) {
        QrcodeStep::Done(Err(e)) => {
            assert_error(&e, AppErrorCode::Io, "Failed to save token", Some("locked"));
        }
        _ => panic!("a failure was expected"),
    }
    let change = config_update(checked(qrcode("confirmed", None, Some("u"))));
    let e = change.updated(Err(failed("down"))).unwrap_err();
    assert_error(&e, AppErrorCode::Database, "down", None);
    let step = weixin_check_qrcode_core(6, Err(failed("offline")));
    assert!(matches!(step, QrcodeStep::Done(Err(e)) if e.message == "offline"));
}

#[test]
fn unconfirmed_qrcode_keeps_nothing() {
    let scanned = qrcode("scanned", Some("tok"), Some("u"));
    assert!(!scanned.confirmed());
    assert_eq!(told(checked(scanned)), "scanned");
    let waiting = qrcode("wait", None, None);
    assert_eq!(told(accept_qrcode(6, waiting, Some("{}".to_string()))), "wait");
}

#[test]
fn white_space_of_all_kinds_is_trimmed() {
    let spaces = "\u{9}\u{a}\u{b}\u{c}\u{d}\u{20}\u{85}\u{a0}\u{1680}\u{2000}\u{2001}\u{2002}\
                  \u{2003}\u{2004}\u{2005}\u{2006}\u{2007}\u{2008}\u{2009}\u{200a}\u{2028}\u{2029}\
                  \u{202f}\u{205f}\u{3000}";
    assert_eq!(spaces.chars().count(), 25);
    let write = set_chat_command_prefix_core(format!("{spaces}!{spaces}!{spaces}"));
    assert!(write.is_err());
    let write = set_chat_command_prefix_core(format!("{spaces}!{spaces}")).unwrap();
    assert_eq!(write.value, "!");
    for other in ["\u{8}", "\u{e}", "\u{200b}", "\u{180e}", "\u{feff}"] {
        let write = set_chat_command_prefix_core(other.to_string()).unwrap();
        assert_eq!(write.value, other);
    }
}
