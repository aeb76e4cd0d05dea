//! The channel that pushes messages to WeChat through Server酱. It only sends: nothing comes in.

use crate::channels::{ChannelConnectionStatus, ChannelType, RichMessage, SentMessageId};
use crate::error::{text_view, ChatChannelError, ChatErrorView};
use crate::json::{entry, json_of, parse_bytes, parsed_bytes, text_at_pointer, Json};
use crate::text::{
    byte_len, clip, decimal, decimal_text, is_longest_fitting, law_clip_is_longest_prefix,
    lemma_bytes_and_characters, truncate_str,
};
use vstd::prelude::*;
use vstd::string::*;
use vstd::utf8::*;

verus! {

/// Where the service is.
pub const SCT_BASE: &'static str = "https://sctapi.ftqq.com/";

/// How many bytes a title may have.
pub const TITLE_MAX_LEN: usize = 32;

/// How many bytes a text may have.
pub const DESP_MAX_LEN: usize = 32768;

/// How many bytes a summary may have, and from how many characters of the text it is made.
pub const SHORT_MAX_LEN: usize = 64;

/// What is reported of a reply whose body is no JSON, in the words of the HTTP client.
pub const DECODE_FAILED: &'static str = "error decoding response body";

/// A channel of Server酱.
pub struct ServerChanBackend {
    send_key: String,
    default_channel: Option<String>,
    noip: Option<bool>,
    status: ChannelConnectionStatus,
    channel_id: i32,
}

/// A [`ServerChanBackend`] by its contents.
pub struct BackendView {
    pub send_key: Seq<char>,
    pub default_channel: Option<Seq<char>>,
    pub noip: Option<bool>,
    pub status: ChannelConnectionStatus,
    pub channel_id: i32,
}

impl View for ServerChanBackend {
    type V = BackendView;

    closed spec fn view(&self) -> BackendView {
        BackendView {
            send_key: self.send_key@,
            default_channel: text_view(self.default_channel),
            noip: self.noip,
            status: self.status,
            channel_id: self.channel_id,
        }
    }
}

/// What is posted to the service.
#[derive(Debug)]
pub struct SendBody {
    pub title: String,
    pub desp: String,
    pub short: Option<String>,
    pub channel: Option<String>,
    pub noip: Option<u8>,
}

/// A post to the service.
pub struct PushRequest {
    pub url: String,
    pub body: SendBody,
}

/// A [`PushRequest`] by the texts in it.
pub struct PushView {
    pub url: Seq<char>,
    pub title: Seq<char>,
    pub desp: Seq<char>,
    pub short: Option<Seq<char>>,
    pub channel: Option<Seq<char>>,
    pub noip: Option<u8>,
}

impl View for PushRequest {
    type V = PushView;

    open spec fn view(&self) -> PushView {
        PushView {
            url: self.url@,
            title: self.body.title@,
            desp: self.body.desp@,
            short: text_view(self.body.short),
            channel: text_view(self.body.channel),
            noip: self.body.noip,
        }
    }
}

/// The address that a backend posts to.
pub open spec fn endpoint_of(backend: BackendView) -> Seq<char> {
    SCT_BASE@ + backend.send_key + ".send"@
}

/// The post of a message, each part cut to the bytes that the service takes.
pub open spec fn push_of(
    backend: BackendView,
    title: Seq<char>,
    desp: Seq<char>,
    short: Option<Seq<char>>,
) -> PushView {
    PushView {
        url: endpoint_of(backend),
        title: clip(title, TITLE_MAX_LEN as nat),
        desp: clip(desp, DESP_MAX_LEN as nat),
        short: match short {
            Some(s) => Some(clip(s, SHORT_MAX_LEN as nat)),
            None => None,
        },
        channel: backend.default_channel,
        noip: if backend.noip == Some(true) {
            Some(1u8)
        } else {
            None
        },
    }
}

/// A post goes to the address made of the service's address, the key and `.send`. It holds the
/// title, the text and the summary, each as far as the service takes it: 32 bytes, 32 KiB and 64
/// bytes, never less than fits and never a part of a character. It names the channel of the
/// backend, and asks to hide the address of the sender only where the backend does.
pub proof fn law_push_holds_what_fits(
    backend: BackendView,
    title: Seq<char>,
    desp: Seq<char>,
    short: Option<Seq<char>>,
    push: PushRequest,
)
    requires
        push@ == push_of(backend, title, desp, short),
    ensures
        push.url@ == "https://sctapi.ftqq.com/"@ + backend.send_key + ".send"@,
        is_longest_fitting(push.body.title@, title, 32),
        is_longest_fitting(push.body.desp@, desp, 32768),
        push.body.short is Some <==> short is Some,
        short is Some ==> is_longest_fitting(push.body.short->0@, short->0, 64),
        push.body.channel is Some <==> backend.default_channel is Some,
        backend.default_channel is Some ==> push.body.channel->0@ == backend.default_channel->0,
        push.body.noip == Some(1u8) <==> backend.noip == Some(true),
        push.body.noip is None <==> backend.noip != Some(true),
{
    law_clip_is_longest_prefix(title, TITLE_MAX_LEN as nat);
    law_clip_is_longest_prefix(desp, DESP_MAX_LEN as nat);
    if let Some(s) = short {
        law_clip_is_longest_prefix(s, SHORT_MAX_LEN as nat);
    }
}

/// The longest part of a text that fits is the text itself, where it fits.
proof fn lemma_fitting_whole(part: Seq<char>, s: Seq<char>, max: nat)
    requires
        is_longest_fitting(part, s, max),
        encode_utf8(s).len() <= max,
    ensures
        part == s,
{
    assert(s.take(s.len() as int) =~= s);
    assert(part.len() == s.len());
    assert(part =~= s);
}

/// A plain text is posted under the title `codeg`, without a summary.
pub proof fn law_plain_push(backend: BackendView, text: Seq<char>, push: PushRequest)
    requires
        push@ == plain_push_of(backend, text),
    ensures
        push.url@ == "https://sctapi.ftqq.com/"@ + backend.send_key + ".send"@,
        push.body.title@ == "codeg"@,
        is_longest_fitting(push.body.desp@, text, 32768),
        push.body.short is None,
        push.body.channel is Some <==> backend.default_channel is Some,
        backend.default_channel is Some ==> push.body.channel->0@ == backend.default_channel->0,
        push.body.noip == Some(1u8) <==> backend.noip == Some(true),
        push.body.noip is None <==> backend.noip != Some(true),
{
    law_push_holds_what_fits(backend, "codeg"@, text, None, push);
    reveal_strlit("codeg");
    assert(is_ascii_chars("codeg"@));
    is_ascii_chars_encode_utf8("codeg"@);
    lemma_fitting_whole(push.body.title@, "codeg"@, 32);
}

/// A channel is tried out with the text `connection test` under the title `codeg test`, without a
/// summary.
pub proof fn law_test_push(backend: BackendView, push: PushRequest)
    requires
        push@ == test_push_of(backend),
    ensures
        push.url@ == "https://sctapi.ftqq.com/"@ + backend.send_key + ".send"@,
        push.body.title@ == "codeg test"@,
        push.body.desp@ == "connection test"@,
        push.body.short is None,
        push.body.channel is Some <==> backend.default_channel is Some,
        backend.default_channel is Some ==> push.body.channel->0@ == backend.default_channel->0,
        push.body.noip == Some(1u8) <==> backend.noip == Some(true),
        push.body.noip is None <==> backend.noip != Some(true),
{
    law_push_holds_what_fits(backend, "codeg test"@, "connection test"@, None, push);
    reveal_strlit("codeg test");
    reveal_strlit("connection test");
    assert(is_ascii_chars("codeg test"@));
    assert(is_ascii_chars("connection test"@));
    is_ascii_chars_encode_utf8("codeg test"@);
    is_ascii_chars_encode_utf8("connection test"@);
    lemma_fitting_whole(push.body.title@, "codeg test"@, 32);
    lemma_fitting_whole(push.body.desp@, "connection test"@, 32768);
}

/// A backend is what it was made from, and not ready before it is started. Starting and stopping
/// it changes nothing but whether it is ready.
pub proof fn law_starting_and_stopping(
    channel_id: i32,
    send_key: Seq<char>,
    default_channel: Option<Seq<char>>,
    noip: Option<bool>,
    backend: BackendView,
)
    ensures
        ({
            let fresh = new_backend(channel_id, send_key, default_channel, noip);
            &&& fresh.channel_id == channel_id
            &&& fresh.send_key == send_key
            &&& fresh.default_channel == default_channel
            &&& fresh.noip == noip
            &&& fresh.status == ChannelConnectionStatus::Disconnected
        }),
        started(backend).status == ChannelConnectionStatus::Connected,
        stopped(backend).status == ChannelConnectionStatus::Disconnected,
        started(backend).send_key == backend.send_key,
        stopped(backend).send_key == backend.send_key,
        started(backend).default_channel == backend.default_channel,
        stopped(backend).default_channel == backend.default_channel,
        started(backend).noip == backend.noip,
        stopped(backend).noip == backend.noip,
        started(backend).channel_id == backend.channel_id,
        stopped(backend).channel_id == backend.channel_id,
{
}

/// No part of a post is longer than the service takes.
pub proof fn law_push_within_limits(
    backend: BackendView,
    title: Seq<char>,
    desp: Seq<char>,
    short: Option<Seq<char>>,
)
    ensures
        byte_len(push_of(backend, title, desp, short).title) <= TITLE_MAX_LEN,
        byte_len(push_of(backend, title, desp, short).desp) <= DESP_MAX_LEN,
        push_of(backend, title, desp, short).short matches Some(s) ==> byte_len(s)
            <= SHORT_MAX_LEN,
{
    law_clip_is_longest_prefix(title, TITLE_MAX_LEN as nat);
    law_clip_is_longest_prefix(desp, DESP_MAX_LEN as nat);
    if let Some(s) = short {
        law_clip_is_longest_prefix(s, SHORT_MAX_LEN as nat);
    }
}

/// The post of a plain text.
pub open spec fn plain_push_of(backend: BackendView, text: Seq<char>) -> PushView {
    push_of(backend, "codeg"@, text, None)
}

/// The post that tries a channel out.
pub open spec fn test_push_of(backend: BackendView) -> PushView {
    push_of(backend, "codeg test"@, "connection test"@, None)
}

/// A backend that is not started.
pub open spec fn new_backend(
    channel_id: i32,
    send_key: Seq<char>,
    default_channel: Option<Seq<char>>,
    noip: Option<bool>,
) -> BackendView {
    BackendView {
        send_key,
        default_channel,
        noip,
        status: ChannelConnectionStatus::Disconnected,
        channel_id,
    }
}

/// `backend` once it is started.
pub open spec fn started(backend: BackendView) -> BackendView {
    BackendView { status: ChannelConnectionStatus::Connected, ..backend }
}

/// `backend` once it is stopped.
pub open spec fn stopped(backend: BackendView) -> BackendView {
    BackendView { status: ChannelConnectionStatus::Disconnected, ..backend }
}

/// A field as a line of Markdown.
pub open spec fn field_line(field: (String, String)) -> Seq<char> {
    "**"@ + field.0@ + "**: "@ + field.1@ + "\n"@
}

/// Fields as lines of Markdown, one after the other.
pub open spec fn field_lines(fields: Seq<(String, String)>) -> Seq<char>
    decreases fields.len(),
{
    if fields.len() == 0 {
        Seq::empty()
    } else {
        field_lines(fields.drop_last()) + field_line(fields.last())
    }
}

/// The text of a message with its fields below it.
pub open spec fn rich_text(body: Seq<char>, fields: Seq<(String, String)>) -> Seq<char> {
    if fields.len() == 0 {
        body
    } else {
        body + "\n\n"@ + field_lines(fields)
    }
}

/// The first characters of a text, as its summary; an empty text has none.
pub open spec fn summary(body: Seq<char>) -> Option<Seq<char>> {
    if body.len() == 0 {
        None
    } else if body.len() <= SHORT_MAX_LEN {
        Some(body)
    } else {
        Some(body.take(SHORT_MAX_LEN as int))
    }
}

/// The post of a message with title and fields.
pub open spec fn rich_push_of(backend: BackendView, message: RichMessage) -> PushView {
    push_of(
        backend,
        match message.title {
            Some(title) => title@,
            None => "codeg"@,
        },
        rich_text(message.body@, message.fields@),
        summary(message.body@),
    )
}

/// Every field of a message is in its text, however many there are, in their order, each on a
/// line of its own below the others: one more field adds one more line. The first one is set off
/// by an empty line; without fields the text is the body.
pub proof fn law_every_field_has_its_line(
    body: Seq<char>,
    fields: Seq<(String, String)>,
    key: String,
    value: String,
)
    ensures
        rich_text(body, Seq::empty()) == body,
        rich_text(body, fields.push((key, value))) == (if fields.len() == 0 {
            body + "\n\n"@
        } else {
            rich_text(body, fields)
        }) + "**"@ + key@ + "**: "@ + value@ + "\n"@,
{
    let more = fields.push((key, value));
    assert(more.drop_last() =~= fields);
    assert(more.last() == (key, value));
    assert(rich_text(body, more) =~= (if fields.len() == 0 {
        body + "\n\n"@
    } else {
        rich_text(body, fields)
    }) + "**"@ + key@ + "**: "@ + value@ + "\n"@);
}

/// A message with title and fields is posted under its title, or under `codeg` where it has none,
/// with the text of body and fields. Its summary is the start of the body, as far as 64 bytes
/// take it; without a body there is none.
pub proof fn law_rich_push(backend: BackendView, message: RichMessage, push: PushRequest)
    requires
        push@ == rich_push_of(backend, message),
    ensures
        push.url@ == "https://sctapi.ftqq.com/"@ + backend.send_key + ".send"@,
        message.title is Some ==> is_longest_fitting(push.body.title@, message.title->0@, 32),
        message.title is None ==> push.body.title@ == "codeg"@,
        is_longest_fitting(push.body.desp@, rich_text(message.body@, message.fields@), 32768),
        push.body.short is None <==> message.body@.len() == 0,
        push.body.short is Some ==> is_longest_fitting(push.body.short->0@, message.body@, 64),
        push.body.channel is Some <==> backend.default_channel is Some,
        backend.default_channel is Some ==> push.body.channel->0@ == backend.default_channel->0,
        push.body.noip == Some(1u8) <==> backend.noip == Some(true),
        push.body.noip is None <==> backend.noip != Some(true),
{
    let title = match message.title {
        Some(title) => title@,
        None => "codeg"@,
    };
    let body = message.body@;
    law_push_holds_what_fits(
        backend,
        title,
        rich_text(body, message.fields@),
        summary(body),
        push,
    );
    if message.title is None {
        reveal_strlit("codeg");
        assert(is_ascii_chars("codeg"@));
        is_ascii_chars_encode_utf8("codeg"@);
        lemma_fitting_whole(push.body.title@, "codeg"@, 32);
    }
    if body.len() > 64 {
        let head = body.take(64);
        let short = push.body.short->0@;
        assert(is_longest_fitting(short, head, 64));
        assert forall|k: int| short.len() < k <= body.len() implies encode_utf8(
            #[trigger] body.take(k),
        ).len() > 64 by {
            if k <= 64 {
                assert(head.take(k) =~= body.take(k));
            } else {
                lemma_bytes_and_characters(body.take(k));
            }
        }
    }
}

fn clone_text(s: &Option<String>) -> (r: Option<String>)
    ensures
        text_view(r) == text_view(*s),
{
    match s {
        Some(s) => Some(s.clone()),
        None => None,
    }
}

impl ServerChanBackend {
    /// A backend that is not started.
    pub fn new(
        channel_id: i32,
        send_key: String,
        default_channel: Option<String>,
        noip: Option<bool>,
    ) -> (r: Self)
        ensures
            r@ == new_backend(channel_id, send_key@, text_view(default_channel), noip),
    {
        ServerChanBackend {
            send_key,
            default_channel,
            noip,
            status: ChannelConnectionStatus::Disconnected,
            channel_id,
        }
    }

    /// The address to post to.
    pub fn endpoint(&self) -> (r: String)
        ensures
            r@ == endpoint_of(self@),
    {
        SCT_BASE.to_owned().concat(self.send_key.as_str()).concat(".send")
    }

    /// The post of a message.
    pub fn send_with(&self, title: &str, desp: &str, short: Option<&str>) -> (r: PushRequest)
        ensures
            r@ == push_of(
                self@,
                title@,
                desp@,
                match short {
                    Some(s) => Some(s@),
                    None => None,
                },
            ),
    {
        let short = match short {
            Some(s) => Some(truncate_str(s, SHORT_MAX_LEN)),
            None => None,
        };
        let noip = match self.noip {
            Some(hide) => if hide {
                Some(1u8)
            } else {
                None
            },
            None => None,
        };
        PushRequest {
            url: self.endpoint(),
            body: SendBody {
                title: truncate_str(title, TITLE_MAX_LEN),
                desp: truncate_str(desp, DESP_MAX_LEN),
                short,
                channel: clone_text(&self.default_channel),
                noip,
            },
        }
    }

    /// What kind of channel this is.
    pub fn channel_type(&self) -> (r: ChannelType)
        ensures
            r == ChannelType::ServerChan,
    {
        ChannelType::ServerChan
    }

    /// Makes the channel ready to send. There is nothing to run in the background.
    pub fn start(&mut self)
        ensures
            final(self)@ == started(old(self)@),
    {
        self.status = ChannelConnectionStatus::Connected;
    }

    /// Ends the channel.
    pub fn stop(&mut self)
        ensures
            final(self)@ == stopped(old(self)@),
    {
        self.status = ChannelConnectionStatus::Disconnected;
    }

    /// Whether the channel is ready to send.
    pub fn status(&self) -> (r: ChannelConnectionStatus)
        ensures
            r == self@.status,
    {
        self.status
    }

    /// The post of a plain text.
    pub fn send_message(&self, text: &str) -> (r: PushRequest)
        ensures
            r@ == plain_push_of(self@, text@),
    {
        self.send_with("codeg", text, None)
    }

    /// The post of a message with title and fields.
    pub fn send_rich_message(&self, message: &RichMessage) -> (r: PushRequest)
        ensures
            r@ == rich_push_of(self@, *message),
    {
        let title = match &message.title {
            Some(title) => title.as_str(),
            None => "codeg",
        };
        let mut desp = message.body.clone();
        if message.fields.len() > 0 {
            desp.append("\n\n");
            let ghost head = desp@;
            let mut i: usize = 0;
            while i < message.fields.len()
                invariant
                    i <= message.fields@.len(),
                    desp@ == head + field_lines(message.fields@.take(i as int)),
                decreases message.fields@.len() - i,
            {
                let field = &message.fields[i];
                desp.append("**");
                desp.append(field.0.as_str());
                desp.append("**: ");
                desp.append(field.1.as_str());
                desp.append("\n");
                proof {
                    let done = message.fields@.take(i as int);
                    let more = message.fields@.take(i + 1);
                    assert(more.drop_last() == done);
                    assert(desp@ =~= head + (field_lines(done) + field_line(more.last())));
                }
                i = i + 1;
            }
            assert(message.fields@.take(i as int) == message.fields@);
        }
        let body = message.body.as_str();
        let len = body.unicode_len();
        let short = if len == 0 {
            None
        } else if len <= SHORT_MAX_LEN {
            Some(body)
        } else {
            Some(body.substring_char(0, SHORT_MAX_LEN))
        };
        assert(body@.len() > SHORT_MAX_LEN ==> body@.subrange(0, SHORT_MAX_LEN as int)
            == body@.take(SHORT_MAX_LEN as int));
        self.send_with(title, desp.as_str(), short)
    }

    /// The post that tries the channel out.
    pub fn test_connection(&self) -> (r: PushRequest)
        ensures
            r@ == test_push_of(self@),
    {
        self.send_with("codeg test", "connection test", None)
    }
}

/// What a reply of the service says.
#[derive(Debug)]
pub struct SendReply {
    pub code: Option<i64>,
    pub message: Option<String>,
    pub pushid: Option<String>,
    pub readkey: Option<String>,
}

/// A [`SendReply`] by the texts in it.
pub struct ReplyView {
    pub code: Option<i64>,
    pub message: Option<Seq<char>>,
    pub pushid: Option<Seq<char>>,
    pub readkey: Option<Seq<char>>,
}

impl View for SendReply {
    type V = ReplyView;

    open spec fn view(&self) -> ReplyView {
        ReplyView {
            code: self.code,
            message: text_view(self.message),
            pushid: text_view(self.pushid),
            readkey: text_view(self.readkey),
        }
    }
}

/// What the document of a reply says.
pub open spec fn reply_in(document: Json) -> ReplyView {
    ReplyView {
        code: document.integer_at("code"@),
        message: document.text_at("message"@),
        pushid: document.text_under("data"@, "pushid"@),
        readkey: document.text_under("data"@, "readkey"@),
    }
}

/// The name of a message that was sent, by which its delivery can be asked for.
pub open spec fn message_id(pushid: Seq<char>, readkey: Seq<char>) -> Seq<char> {
    pushid + "|"@ + readkey
}

/// What a reply comes to: the name of the message, or why it was not sent.
pub open spec fn outcome_of(reply: ReplyView) -> Result<Seq<char>, ChatErrorView> {
    if reply.code != Some(0i64) {
        let code: int = match reply.code {
            Some(code) => code as int,
            None => -1,
        };
        let message = match reply.message {
            Some(message) => message,
            None => "unknown error"@,
        };
        Err(ChatErrorView::SendFailed("code="@ + decimal(code) + " message="@ + message))
    } else {
        match (reply.pushid, reply.readkey) {
            (None, _) => Err(ChatErrorView::SendFailed("missing pushid"@)),
            (Some(_), None) => Err(ChatErrorView::SendFailed("missing readkey"@)),
            (Some(pushid), Some(readkey)) => Ok(message_id(pushid, readkey)),
        }
    }
}

/// What a reply says is read from its document: the code and the message from the top, the two
/// parts of the message's name from its data, each only where it is an integer, or a text.
/// Nothing else in the document matters.
pub proof fn law_reply_is_read(document: Json, n: i64, text: Seq<char>)
    ensures
        reply_in(document).code == Some(n) <==> (document matches Json::Object(m)
            && m.contains_key("code"@) && m["code"@] == Json::Number(Some(n))),
        reply_in(document).message == Some(text) <==> (document matches Json::Object(m)
            && m.contains_key("message"@) && m["message"@] == Json::Str(text)),
        reply_in(document).pushid == Some(text) <==> (document matches Json::Object(m)
            && m.contains_key("data"@) && (m["data"@] matches Json::Object(d) && d.contains_key(
            "pushid"@,
        ) && d["pushid"@] == Json::Str(text))),
        reply_in(document).readkey == Some(text) <==> (document matches Json::Object(m)
            && m.contains_key("data"@) && (m["data"@] matches Json::Object(d) && d.contains_key(
            "readkey"@,
        ) && d["readkey"@] == Json::Str(text))),
{
}

/// A reply is judged by its code first: any code but zero, and none at all, is a failure that
/// tells code and message. With the code zero, the two parts of the name have to be there, and
/// the name is made of them with a bar between.
pub proof fn law_reply_is_judged(
    reply: SendReply,
    r: Result<SentMessageId, ChatChannelError>,
)
    requires
        sent_view(r) == outcome_of(reply@),
    ensures
        r is Ok <==> reply.code == Some(0i64) && reply.pushid is Some && reply.readkey is Some,
        r matches Ok(id) ==> id.0@ == reply.pushid->0@ + seq!['|'] + reply.readkey->0@,
        reply.code is Some && reply.code != Some(0i64) ==> (r matches Err(
            ChatChannelError::SendFailed(reason),
        ) && reason@ == "code="@ + decimal(reply.code->0 as int) + " message="@ + (
        if reply.message is Some {
            reply.message->0@
        } else {
            "unknown error"@
        })),
        reply.code is None ==> (r matches Err(ChatChannelError::SendFailed(reason)) && reason@
            == "code="@ + decimal(-1) + " message="@ + (if reply.message is Some {
            reply.message->0@
        } else {
            "unknown error"@
        })),
        reply.code == Some(0i64) && reply.pushid is None ==> (r matches Err(
            ChatChannelError::SendFailed(reason),
        ) && reason@ == "missing pushid"@),
        reply.code == Some(0i64) && reply.pushid is Some && reply.readkey is None ==> (
        r matches Err(ChatChannelError::SendFailed(reason)) && reason@ == "missing readkey"@),
{
    reveal_strlit("|");
    assert("|"@ =~= seq!['|']);
}

/// The outcome of sending by the texts in it.
pub open spec fn sent_view(r: Result<SentMessageId, ChatChannelError>) -> Result<
    Seq<char>,
    ChatErrorView,
> {
    match r {
        Ok(id) => Ok(id.0@),
        Err(e) => Err(e@),
    }
}

/// Judges a reply of the service: a code of zero is success, anything else is a failure.
pub fn judge_send_reply(reply: &SendReply) -> (r: Result<SentMessageId, ChatChannelError>)
    ensures
        sent_view(r) == outcome_of(reply@),
{
    let zero = match reply.code {
        Some(code) => code == 0,
        None => false,
    };
    if !zero {
        let code: i64 = match reply.code {
            Some(code) => code,
            None => -1,
        };
        let message = match &reply.message {
            Some(message) => message.as_str(),
            None => "unknown error",
        };
        let number = decimal_text(code);
        return Err(
            ChatChannelError::SendFailed(
                "code=".to_owned().concat(number.as_str()).concat(" message=").concat(message),
            ),
        );
    }
    match &reply.pushid {
        None => Err(ChatChannelError::SendFailed("missing pushid".to_owned())),
        Some(pushid) => match &reply.readkey {
            None => Err(ChatChannelError::SendFailed("missing readkey".to_owned())),
            Some(readkey) => Ok(
                SentMessageId(pushid.clone().concat("|").concat(readkey.as_str())),
            ),
        },
    }
}

proof fn lemma_plain_tokens()
    ensures
        crate::json::is_plain_token("data"@),
        crate::json::is_plain_token("pushid"@),
        crate::json::is_plain_token("readkey"@),
        "/data/pushid"@ == crate::json::pointer_text("data"@, "pushid"@),
        "/data/readkey"@ == crate::json::pointer_text("data"@, "readkey"@),
{
    reveal_strlit("data");
    reveal_strlit("pushid");
    reveal_strlit("readkey");
    reveal_strlit("/data/pushid");
    reveal_strlit("/data/readkey");
    assert("data"@[0] == 'd');
    assert("pushid"@[0] == 'p');
    assert("readkey"@[0] == 'r');
    assert("/data/pushid"@ =~= crate::json::pointer_text("data"@, "pushid"@));
    assert("/data/readkey"@ =~= crate::json::pointer_text("data"@, "readkey"@));
}

/// Takes out of the document of a reply what it says.
fn reply_fields(document: &serde_json::Value) -> (r: SendReply)
    ensures
        r@ == reply_in(json_of(*document)),
{
    proof {
        lemma_plain_tokens();
    }
    let code = match entry(document, "code") {
        Some(e) => e.as_i64(),
        None => None,
    };
    let message = match entry(document, "message") {
        Some(e) => match e.as_str() {
            Some(s) => Some(s.to_owned()),
            None => None,
        },
        None => None,
    };
    let pushid = text_at_pointer(document, "/data/pushid", Ghost("data"@), Ghost("pushid"@));
    let readkey = text_at_pointer(document, "/data/readkey", Ghost("data"@), Ghost("readkey"@));
    SendReply { code, message, pushid, readkey }
}

/// What the body of a reply comes to.
pub open spec fn body_outcome(body: Seq<u8>) -> Result<Seq<char>, ChatErrorView> {
    match parsed_bytes(body) {
        Some(document) => outcome_of(reply_in(document)),
        None => Err(ChatErrorView::SendFailed(DECODE_FAILED@)),
    }
}

/// Reads the body of a reply and judges it.
pub fn read_send_reply(body: &[u8]) -> (r: Result<SentMessageId, ChatChannelError>)
    ensures
        sent_view(r) == body_outcome(body@),
{
    match parse_bytes(body) {
        Some(document) => {
            let reply = reply_fields(&document);
            judge_send_reply(&reply)
        },
        None => Err(ChatChannelError::SendFailed(DECODE_FAILED.to_owned())),
    }
}

/// Whether an HTTP status is one of success.
pub open spec fn http_success(status: u16) -> bool {
    200 <= status < 300
}

/// What came of a post, as far as it is known.
#[derive(Debug)]
pub enum PushEvent {
    /// The post, or reading its reply, failed for this reason.
    Failed(String),
    /// The reply begins, with this HTTP status.
    Status(u16),
    /// The reply is complete, with this body.
    Body(Vec<u8>),
}

/// How a post goes on.
#[derive(Debug)]
pub enum PushStep {
    /// With the body of the reply.
    ReadBody,
    /// Not at all: this is its outcome.
    Done(Result<SentMessageId, ChatChannelError>),
}

/// Whether `step` is how a post goes on after `event`.
pub open spec fn push_goes_on(event: PushEvent, step: PushStep) -> bool {
    match event {
        PushEvent::Failed(reason) => step matches PushStep::Done(r) && sent_view(r) == Err::<
            Seq<char>,
            ChatErrorView,
        >(ChatErrorView::SendFailed(reason@)),
        PushEvent::Status(status) => if http_success(status) {
            step is ReadBody
        } else {
            step matches PushStep::Done(r) && sent_view(r) == Err::<Seq<char>, ChatErrorView>(
                ChatErrorView::SendFailed("HTTP "@ + decimal(status as int)),
            )
        },
        PushEvent::Body(body) => step matches PushStep::Done(r) && sent_view(r) == body_outcome(
            body@,
        ),
    }
}

/// A reply with the code zero and the two parts of a name has the message sent under that name,
/// whatever else is in it. With any other code it is a failure that tells the code and the
/// message, whatever else is in it. A body that is no JSON is a failure, and every other body is
/// judged by what its document says.
pub proof fn law_body_decides(
    body: Seq<u8>,
    top: Map<Seq<char>, Json>,
    data: Map<Seq<char>, Json>,
    pushid: Seq<char>,
    readkey: Seq<char>,
    code: i64,
    message: Seq<char>,
    r: Result<SentMessageId, ChatChannelError>,
)
    requires
        sent_view(r) == body_outcome(body),
    ensures
        parsed_bytes(body) matches Some(document) ==> sent_view(r) == outcome_of(
            reply_in(document),
        ),
        parsed_bytes(body) == Some(Json::Object(top)) && top.contains_key("code"@) && top["code"@]
            == Json::Number(Some(code)) && code != 0 && top.contains_key("message"@)
            && top["message"@] == Json::Str(message) ==> (r matches Err(
            ChatChannelError::SendFailed(reason),
        ) && reason@ == "code="@ + decimal(code as int) + " message="@ + message),
        parsed_bytes(body) is None ==> (r matches Err(ChatChannelError::SendFailed(reason))
            && reason@ == "error decoding response body"@),
        parsed_bytes(body) == Some(Json::Object(top)) && top.contains_key("code"@) && top["code"@]
            == Json::Number(Some(0)) && top.contains_key("data"@) && top["data"@] == Json::Object(
            data,
        ) && data.contains_key("pushid"@) && data["pushid"@] == Json::Str(pushid)
            && data.contains_key("readkey"@) && data["readkey"@] == Json::Str(readkey) ==> (
        r matches Ok(id) && id.0@ == pushid + seq!['|'] + readkey),
        r is Ok ==> (parsed_bytes(body) matches Some(Json::Object(m)) && m.contains_key("code"@)
            && m["code"@] == Json::Number(Some(0)) && m.contains_key("data"@) && (
        m["data"@] matches Json::Object(d) && d.contains_key("pushid"@) && d["pushid"@] is Str
            && d.contains_key("readkey"@) && d["readkey"@] is Str)),
{
    reveal_strlit("|");
    assert("|"@ =~= seq!['|']);
}

/// A post that could not be made fails for its reason. A reply is read if its HTTP status is from
/// 200 to 299; with any other the post fails, and says which it was. What was read decides.
pub proof fn law_how_a_post_goes_on(event: PushEvent, step: PushStep)
    requires
        push_goes_on(event, step),
    ensures
        event matches PushEvent::Failed(cause) ==> (step matches PushStep::Done(Err(
            ChatChannelError::SendFailed(reason),
        )) && reason@ == cause@),
        event matches PushEvent::Status(status) ==> if 200 <= status <= 299 {
            step is ReadBody
        } else {
            step matches PushStep::Done(Err(ChatChannelError::SendFailed(reason))) && reason@
                == "HTTP "@ + decimal(status as int)
        },
        event matches PushEvent::Body(body) ==> (step matches PushStep::Done(r) && sent_view(r)
            == body_outcome(body@)),
{
}

/// A message counts as sent only where a complete reply has the code zero; then it has the name
/// that the reply gives it. An HTTP status other than one of success is always a failure.
pub proof fn law_sent_only_with_code_zero(event: PushEvent, step: PushStep)
    requires
        push_goes_on(event, step),
    ensures
        step matches PushStep::Done(Ok(id)) ==> (event matches PushEvent::Body(body) && (
        parsed_bytes(body@) matches Some(document) && ({
            let reply = reply_in(document);
            &&& reply.code == Some(0i64)
            &&& reply.pushid is Some
            &&& reply.readkey is Some
            &&& id.0@ == message_id(reply.pushid->0, reply.readkey->0)
        }))),
        event matches PushEvent::Status(status) ==> (!http_success(status) <==> step
            matches PushStep::Done(Err(_))),
{
}

/// Goes on with a post.
pub fn push_step(event: PushEvent) -> (r: PushStep)
    ensures
        push_goes_on(event, r),
{
    match event {
        PushEvent::Failed(reason) => PushStep::Done(Err(ChatChannelError::SendFailed(reason))),
        PushEvent::Status(status) => {
            if 200 <= status && status < 300 {
                PushStep::ReadBody
            } else {
                let number = decimal_text(status as i64);
                PushStep::Done(
                    Err(
                        ChatChannelError::SendFailed("HTTP ".to_owned().concat(number.as_str())),
                    ),
                )
            }
        },
        PushEvent::Body(body) => PushStep::Done(read_send_reply(body.as_slice())),
    }
}

} // verus!
