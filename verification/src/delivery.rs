//! Whether a message that was pushed through Server酱 has reached WeChat.

use crate::error::{
    detailed, failure, AppCommandError, AppErrorCode, AppErrorView, ChatErrorView,
};
use crate::json::{json_of, parse_bytes, parsed_bytes, text_at_pointer, Json};
use crate::serverchan::{http_success, message_id, outcome_of, ReplyView, DECODE_FAILED};
use crate::text::{decimal, decimal_text, same_text};
use vstd::prelude::*;
use vstd::string::*;

verus! {

/// The two parts of the name of a sent message: what stands before its first bar and what stands
/// after it, if neither is empty.
pub open spec fn id_parts(s: Seq<char>) -> Option<(Seq<char>, Seq<char>)> {
    match s.index_of_first('|') {
        Some(i) => if 0 < i < s.len() - 1 {
            Some((s.take(i), s.skip(i + 1)))
        } else {
            None
        },
        None => None,
    }
}

/// The name that was made for a sent message comes apart into what it was made from, unless one
/// of the two is empty or there is a bar in the first.
pub proof fn law_message_id_comes_apart(pushid: Seq<char>, readkey: Seq<char>)
    requires
        pushid.len() > 0,
        readkey.len() > 0,
        !pushid.contains('|'),
    ensures
        id_parts(message_id(pushid, readkey)) == Some((pushid, readkey)),
{
    reveal_strlit("|");
    let s = message_id(pushid, readkey);
    let n = pushid.len() as int;
    assert(s[n] == '|');
    assert(s.contains('|'));
    s.index_of_first_ensures('|');
    let i = s.index_of_first('|')->0;
    assert(i == n) by {
        if i < n {
            assert(s[i] == pushid[i]);
            assert(pushid.contains(pushid[i]));
        }
    }
    assert(s.take(n) =~= pushid);
    assert(s.skip(n + 1) =~= readkey);
}

/// A name that comes apart is made of its two parts, with the first bar between them.
pub proof fn law_parts_make_the_message_id(s: Seq<char>, pushid: Seq<char>, readkey: Seq<char>)
    requires
        id_parts(s) == Some((pushid, readkey)),
    ensures
        s == message_id(pushid, readkey),
        pushid.len() > 0,
        readkey.len() > 0,
        !pushid.contains('|'),
{
    reveal_strlit("|");
    s.index_of_first_ensures('|');
    assert(s =~= message_id(pushid, readkey));
}

/// A text with a bar in it comes apart at its first bar, if there is something on both sides; no
/// other text does.
pub proof fn law_text_comes_apart_at_its_first_bar(
    s: Seq<char>,
    before: Seq<char>,
    after: Seq<char>,
)
    ensures
        s == before + seq!['|'] + after && before.len() > 0 && after.len() > 0 && !before.contains(
            '|',
        ) <==> id_parts(s) == Some((before, after)),
{
    reveal_strlit("|");
    assert("|"@ =~= seq!['|']);
    if s == before + seq!['|'] + after && before.len() > 0 && after.len() > 0 && !before.contains(
        '|',
    ) {
        law_message_id_comes_apart(before, after);
    }
    if id_parts(s) == Some((before, after)) {
        law_parts_make_the_message_id(s, before, after);
    }
}

/// Takes the name of a sent message apart.
pub fn split_pushid_readkey(s: &str) -> (r: Option<(&str, &str)>)
    ensures
        match r {
            Some((pushid, readkey)) => id_parts(s@) == Some((pushid@, readkey@)),
            None => id_parts(s@) is None,
        },
{
    proof {
        s@.index_of_first_ensures('|');
    }
    let len = s.unicode_len();
    let mut i: usize = 0;
    for c in iter: s.chars()
        invariant
            iter.seq() == s@,
            len == s@.len(),
            i == iter.index(),
            forall|j: int| 0 <= j < i ==> s@[j] != '|',
            match s@.index_of_first('|') {
                Some(index) => {
                    &&& 0 <= index < s@.len()
                    &&& s@[index] == '|'
                    &&& forall|j: int| 0 <= j < index < s@.len() ==> s@[j] != '|'
                },
                None => !s@.contains('|'),
            },
    {
        if c == '|' {
            assert(s@[i as int] == '|');
            assert(s@.contains('|'));
            assert(s@.index_of_first('|') == Some(i as int));
            if i == 0 || i + 1 == len {
                return None;
            }
            let pushid = s.substring_char(0, i);
            let readkey = s.substring_char(i + 1, len);
            assert(pushid@ =~= s@.take(i as int));
            assert(readkey@ =~= s@.skip(i + 1));
            return Some((pushid, readkey));
        }
        i = i + 1;
    }
    None
}

/// A logged message, as far as its delivery is asked for.
#[derive(Debug)]
pub struct MessageLogRow {
    pub channel_id: i32,
    pub content_preview: String,
}

/// The kind of the channel of a logged message is being looked up.
#[derive(Debug)]
pub struct ChannelLookup {
    pub log_id: i32,
    pub channel_id: i32,
    pub content_preview: String,
}

/// The service is being asked about a message.
#[derive(Debug)]
pub struct StatusFetch {
    pub log_id: i32,
    pub url: String,
}

/// The answer of the service is being stored.
#[derive(Debug)]
pub struct StatusWrite {
    pub log_id: i32,
    pub status: String,
}

/// What the query needs next.
#[derive(Debug)]
pub enum StatusStep {
    /// The channel of the message.
    LoadChannel(ChannelLookup),
    /// A request to the service.
    Fetch(StatusFetch),
    /// The body of the service's reply.
    ReadBody(StatusFetch),
    /// The status stored with the message.
    Store(StatusWrite),
    /// Nothing: this is the outcome.
    Done(Result<Option<String>, AppCommandError>),
}

/// `step` ends the query with a failure.
pub open spec fn fails_with(step: StatusStep, e: AppErrorView) -> bool {
    step matches StatusStep::Done(Err(x)) && x@ == e
}

/// `step` ends the query without a status.
pub open spec fn without_status(step: StatusStep) -> bool {
    step matches StatusStep::Done(Ok(None))
}

/// `step` follows from what was stored for the logged message `log_id`.
pub open spec fn log_goes_on(
    log_id: i32,
    loaded: Result<Option<MessageLogRow>, AppCommandError>,
    step: StatusStep,
) -> bool {
    match loaded {
        Ok(Some(row)) => step == StatusStep::LoadChannel(
            ChannelLookup {
                log_id,
                channel_id: row.channel_id,
                content_preview: row.content_preview,
            },
        ),
        Ok(None) => without_status(step),
        Err(e) => step == StatusStep::Done(Err(e)),
    }
}

/// Asks for the delivery of the logged message `log_id`, given what was stored for it. A message
/// that is not there has no status.
pub fn query_server_chan_status_core(
    log_id: i32,
    loaded: Result<Option<MessageLogRow>, AppCommandError>,
) -> (r: StatusStep)
    ensures
        log_goes_on(log_id, loaded, r),
{
    match loaded {
        Ok(Some(row)) => StatusStep::LoadChannel(
            ChannelLookup {
                log_id,
                channel_id: row.channel_id,
                content_preview: row.content_preview,
            },
        ),
        Ok(None) => StatusStep::Done(Ok(None)),
        Err(e) => StatusStep::Done(Err(e)),
    }
}

/// The address at which the service tells the status of a message.
pub open spec fn status_url(pushid: Seq<char>, readkey: Seq<char>) -> Seq<char> {
    "https://sctapi.ftqq.com/push?id="@ + pushid + "&readkey="@ + readkey
}

/// `step` follows from the kind of the channel of a logged message, if the channel is there.
pub open spec fn channel_goes_on(
    lookup: ChannelLookup,
    channel_type: Result<Option<String>, AppCommandError>,
    step: StatusStep,
) -> bool {
    match channel_type {
        Ok(Some(kind)) => match id_parts(lookup.content_preview@) {
            Some((pushid, readkey)) if kind@ == "server_chan"@ => {
                step matches StatusStep::Fetch(fetch) && fetch.log_id == lookup.log_id
                    && fetch.url@ == status_url(pushid, readkey)
            },
            _ => without_status(step),
        },
        Ok(None) => without_status(step),
        Err(e) => step == StatusStep::Done(Err(e)),
    }
}

impl ChannelLookup {
    /// Goes on with the kind of the channel, if the channel is there. Only messages of Server酱
    /// that carry the name of a sent message have a status.
    pub fn loaded(self, channel_type: Result<Option<String>, AppCommandError>) -> (r: StatusStep)
        ensures
            channel_goes_on(self, channel_type, r),
    {
        match channel_type {
            Ok(Some(kind)) => {
                if !same_text(kind.as_str(), "server_chan") {
                    return StatusStep::Done(Ok(None));
                }
                match split_pushid_readkey(self.content_preview.as_str()) {
                    Some((pushid, readkey)) => {
                        let url = "https://sctapi.ftqq.com/push?id=".to_owned().concat(
                            pushid,
                        ).concat("&readkey=").concat(readkey);
                        StatusStep::Fetch(StatusFetch { log_id: self.log_id, url })
                    },
                    None => StatusStep::Done(Ok(None)),
                }
            },
            Ok(None) => StatusStep::Done(Ok(None)),
            Err(e) => StatusStep::Done(Err(e)),
        }
    }
}

/// What came of the request to the service, as far as it is known.
#[derive(Debug)]
pub enum FetchEvent {
    /// There is no client to make it with, for this reason.
    NoClient(String),
    /// It failed for this reason.
    Failed(String),
    /// The reply begins, with this HTTP status.
    Status(u16),
    /// The body of the reply could not be read, for this reason.
    BodyFailed(String),
    /// The reply is complete, with this body.
    Body(Vec<u8>),
}

/// The status of a message that the document of a reply tells, if it tells one.
pub open spec fn status_in(document: Json) -> Option<Seq<char>> {
    match document.text_under("data"@, "wxstatus"@) {
        Some(status) if status.len() > 0 => Some(status),
        _ => None,
    }
}

/// `step` follows from what the reply tells about the message `log_id`.
pub open spec fn status_goes_on(log_id: i32, status: Option<Seq<char>>, step: StatusStep) -> bool {
    match status {
        Some(status) => step matches StatusStep::Store(write) && write.log_id == log_id
            && write.status@ == status,
        None => without_status(step),
    }
}

/// Goes on with the text that a reply has for the status of the message `log_id`: an empty one
/// is no status.
pub fn accept_status(log_id: i32, status: Option<String>) -> (r: StatusStep)
    ensures
        status_goes_on(
            log_id,
            match status {
                Some(status) if status@.len() > 0 => Some(status@),
                _ => None,
            },
            r,
        ),
{
    match status {
        Some(status) => if status.as_str().is_empty() {
            StatusStep::Done(Ok(None))
        } else {
            StatusStep::Store(StatusWrite { log_id, status })
        },
        None => StatusStep::Done(Ok(None)),
    }
}

/// Takes the status out of the document of a reply.
fn wxstatus(document: &serde_json::Value) -> (r: Option<String>)
    ensures
        crate::error::text_view(r) == json_of(*document).text_under("data"@, "wxstatus"@),
{
    proof {
        reveal_strlit("data");
        reveal_strlit("wxstatus");
        reveal_strlit("/data/wxstatus");
        assert("data"@[0] == 'd');
        assert("wxstatus"@[0] == 'w');
        assert("/data/wxstatus"@ =~= crate::json::pointer_text("data"@, "wxstatus"@));
    }
    text_at_pointer(document, "/data/wxstatus", Ghost("data"@), Ghost("wxstatus"@))
}

/// `step` follows from what came of the request to the service.
pub open spec fn reply_goes_on(fetch: StatusFetch, event: FetchEvent, step: StatusStep) -> bool {
    match event {
        FetchEvent::NoClient(reason) => fails_with(
            step,
            detailed(AppErrorCode::Network, "Failed to build HTTP client"@, reason@),
        ),
        FetchEvent::Failed(reason) => fails_with(
            step,
            detailed(AppErrorCode::Network, "Server酱 status request failed"@, reason@),
        ),
        FetchEvent::Status(status) => if http_success(status) {
            step == StatusStep::ReadBody(fetch)
        } else {
            fails_with(
                step,
                failure(
                    AppErrorCode::Network,
                    "Server酱 status HTTP "@ + decimal(status as int),
                ),
            )
        },
        FetchEvent::BodyFailed(reason) => fails_with(
            step,
            detailed(AppErrorCode::Network, "Server酱 status decode failed"@, reason@),
        ),
        FetchEvent::Body(body) => match parsed_bytes(body@) {
            Some(document) => status_goes_on(fetch.log_id, status_in(document), step),
            None => fails_with(
                step,
                detailed(
                    AppErrorCode::Network,
                    "Server酱 status decode failed"@,
                    DECODE_FAILED@,
                ),
            ),
        },
    }
}

impl StatusFetch {
    /// Goes on with what came of the request. A failure is one of the network; a reply without a
    /// status is none.
    pub fn replied(self, event: FetchEvent) -> (r: StatusStep)
        ensures
            reply_goes_on(self, event, r),
    {
        match event {
            FetchEvent::NoClient(reason) => StatusStep::Done(
                Err(
                    AppCommandError::network(
                        "Failed to build HTTP client".to_owned(),
                    ).with_detail(reason),
                ),
            ),
            FetchEvent::Failed(reason) => StatusStep::Done(
                Err(
                    AppCommandError::network(
                        "Server酱 status request failed".to_owned(),
                    ).with_detail(reason),
                ),
            ),
            FetchEvent::Status(status) => {
                if 200 <= status && status < 300 {
                    StatusStep::ReadBody(self)
                } else {
                    let number = decimal_text(status as i64);
                    StatusStep::Done(
                        Err(
                            AppCommandError::network(
                                "Server酱 status HTTP ".to_owned().concat(number.as_str()),
                            ),
                        ),
                    )
                }
            },
            FetchEvent::BodyFailed(reason) => StatusStep::Done(
                Err(
                    AppCommandError::network(
                        "Server酱 status decode failed".to_owned(),
                    ).with_detail(reason),
                ),
            ),
            FetchEvent::Body(body) => match parse_bytes(body.as_slice()) {
                Some(document) => {
                    let status = wxstatus(&document);
                    accept_status(self.log_id, status)
                },
                None => StatusStep::Done(
                    Err(
                        AppCommandError::network(
                            "Server酱 status decode failed".to_owned(),
                        ).with_detail(DECODE_FAILED.to_owned()),
                    ),
                ),
            },
        }
    }
}

/// The query for a logged message goes on with the channel and the text that it was logged with.
/// A message that is not there has no status, and a failure to load it stays one.
pub proof fn law_query_begins_with_the_log(
    log_id: i32,
    loaded: Result<Option<MessageLogRow>, AppCommandError>,
    step: StatusStep,
)
    requires
        log_goes_on(log_id, loaded, step),
    ensures
        loaded matches Ok(Some(row)) ==> (step matches StatusStep::LoadChannel(lookup)
            && lookup.log_id == log_id && lookup.channel_id == row.channel_id
            && lookup.content_preview@ == row.content_preview@),
        loaded matches Ok(None) ==> (step matches StatusStep::Done(Ok(None))),
        loaded matches Err(e) ==> (step matches StatusStep::Done(Err(x)) && x == e),
{
}

/// The service is asked about a message of Server酱 by what stands before and after the first bar
/// of the text that it was logged with. A message of any other channel, or with any other text,
/// has no status.
pub proof fn law_who_is_asked_about(
    lookup: ChannelLookup,
    channel_type: Result<Option<String>, AppCommandError>,
    step: StatusStep,
    pushid: Seq<char>,
    readkey: Seq<char>,
)
    requires
        channel_goes_on(lookup, channel_type, step),
    ensures
        (channel_type matches Ok(Some(kind)) && kind@ == "server_chan"@)
            && lookup.content_preview@ == pushid + seq!['|'] + readkey && pushid.len() > 0
            && readkey.len() > 0 && !pushid.contains('|') ==> (step matches StatusStep::Fetch(fetch)
            && fetch.log_id == lookup.log_id && fetch.url@
            == "https://sctapi.ftqq.com/push?id="@ + pushid + "&readkey="@ + readkey),
        step is Fetch ==> (channel_type matches Ok(Some(kind)) && kind@ == "server_chan"@) && (
        exists|before: Seq<char>, after: Seq<char>|
            lookup.content_preview@ == #[trigger] (before + seq!['|'] + after) && before.len() > 0
                && after.len() > 0 && !before.contains('|')),
        channel_type is Ok && step !is Fetch ==> (step matches StatusStep::Done(Ok(None))),
        channel_type matches Err(e) ==> (step matches StatusStep::Done(Err(x)) && x == e),
{
    law_text_comes_apart_at_its_first_bar(lookup.content_preview@, pushid, readkey);
    if let Some((before, after)) = id_parts(lookup.content_preview@) {
        law_text_comes_apart_at_its_first_bar(lookup.content_preview@, before, after);
        assert(lookup.content_preview@ == before + seq!['|'] + after);
    }
}

/// A reply whose document has a text that is not empty in the entry `wxstatus` of its data has
/// exactly that text stored for the message asked about, whatever else is in the document. Any
/// other document tells no status.
pub proof fn law_told_status_is_stored(
    fetch: StatusFetch,
    body: Vec<u8>,
    document: Json,
    step: StatusStep,
    status: Seq<char>,
)
    requires
        parsed_bytes(body@) == Some(document),
        reply_goes_on(fetch, FetchEvent::Body(body), step),
    ensures
        status.len() > 0 && (document matches Json::Object(m) && m.contains_key("data"@) && (
        m["data"@] matches Json::Object(d) && d.contains_key("wxstatus"@) && d["wxstatus"@]
            == Json::Str(status))) <==> (step matches StatusStep::Store(write) && write.log_id
            == fetch.log_id && write.status@ == status),
        step !is Store ==> (step matches StatusStep::Done(Ok(None))),
{
}

/// What fails on the way to the service is a failure of the network, which tells where it failed
/// and why. A reply is read if its HTTP status is from 200 to 299.
pub proof fn law_how_a_status_request_fails(
    fetch: StatusFetch,
    event: FetchEvent,
    step: StatusStep,
)
    requires
        reply_goes_on(fetch, event, step),
    ensures
        event matches FetchEvent::NoClient(reason) ==> (step matches StatusStep::Done(Err(e))
            && e.code == AppErrorCode::Network && e.message@ == "Failed to build HTTP client"@ && (
        e.detail matches Some(detail) && detail@ == reason@)),
        event matches FetchEvent::Failed(reason) ==> (step matches StatusStep::Done(Err(e))
            && e.code == AppErrorCode::Network && e.message@ == "Server酱 status request failed"@
            && (e.detail matches Some(detail) && detail@ == reason@)),
        event matches FetchEvent::BodyFailed(reason) ==> (step matches StatusStep::Done(Err(e))
            && e.code == AppErrorCode::Network && e.message@ == "Server酱 status decode failed"@
            && (e.detail matches Some(detail) && detail@ == reason@)),
        event matches FetchEvent::Status(status) ==> if 200 <= status <= 299 {
            step == StatusStep::ReadBody(fetch)
        } else {
            step matches StatusStep::Done(Err(e)) && e.code == AppErrorCode::Network && e.message@
                == "Server酱 status HTTP "@ + decimal(status as int) && e.detail is None
        },
        (event matches FetchEvent::Body(body) && parsed_bytes(body@) is None) ==> (
        step matches StatusStep::Done(Err(e)) && e.code == AppErrorCode::Network && e.message@
            == "Server酱 status decode failed"@ && (e.detail matches Some(detail) && detail@
            == "error decoding response body"@)),
{
}

/// What the query ends with, where storing the status came to `outcome`.
pub open spec fn stored_outcome(write: StatusWrite, outcome: Result<(), AppCommandError>) -> Result<
    Option<String>,
    AppCommandError,
> {
    match outcome {
        Ok(_) => Ok(Some(write.status)),
        Err(e) => Err(e),
    }
}

/// The query ends with the very status that was stored, or with the failure to store it.
pub proof fn law_stored_status_is_the_outcome(write: StatusWrite, e: AppCommandError)
    ensures
        stored_outcome(write, Ok(())) matches Ok(Some(status)) && status@ == write.status@,
        stored_outcome(write, Err(e)) matches Err(x) && x == e,
{
}

/// A query ends with a status only through storing it, and what is stored is never empty.
pub proof fn law_status_is_stored_first(
    log_id: i32,
    loaded: Result<Option<MessageLogRow>, AppCommandError>,
    lookup: ChannelLookup,
    channel_type: Result<Option<String>, AppCommandError>,
    fetch: StatusFetch,
    event: FetchEvent,
    step: StatusStep,
)
    requires
        log_goes_on(log_id, loaded, step) || channel_goes_on(lookup, channel_type, step)
            || reply_goes_on(fetch, event, step),
    ensures
        step matches StatusStep::Done(Ok(status)) ==> status is None,
        step matches StatusStep::Store(write) ==> write.status@.len() > 0 && write.log_id
            == fetch.log_id,
{
}

/// A message that was sent is asked for by the two parts that the service named it with, unless
/// one of them is empty or there is a bar in the first.
pub proof fn law_sent_message_is_asked_for(
    reply: ReplyView,
    pushid: Seq<char>,
    readkey: Seq<char>,
    lookup: ChannelLookup,
    kind: String,
    step: StatusStep,
)
    requires
        reply.pushid == Some(pushid),
        reply.readkey == Some(readkey),
        pushid.len() > 0,
        readkey.len() > 0,
        !pushid.contains('|'),
        outcome_of(reply) == Ok::<Seq<char>, ChatErrorView>(lookup.content_preview@),
        kind@ == "server_chan"@,
        channel_goes_on(lookup, Ok(Some(kind)), step),
    ensures
        step matches StatusStep::Fetch(fetch) && fetch.log_id == lookup.log_id && fetch.url@
            == status_url(pushid, readkey),
{
    law_message_id_comes_apart(pushid, readkey);
}

impl StatusWrite {
    /// Ends the query with the status that was stored, or with the failure to store it.
    pub fn stored(self, outcome: Result<(), AppCommandError>) -> (r: Result<
        Option<String>,
        AppCommandError,
    >)
        ensures
            r == stored_outcome(self, outcome),
    {
        match outcome {
            Ok(()) => Ok(Some(self.status)),
            Err(e) => Err(e),
        }
    }
}

} // verus!
