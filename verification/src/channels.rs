//! Chat channels: their kinds, and the commands that create, connect, page through and delete
//! them.

use crate::error::{detailed, failure, AppCommandError, AppErrorCode, AppErrorView};
use crate::json::{json_of, parse_text, parsed_text, Json};
use crate::text::{decimal, decimal_text, same_text};
use vstd::prelude::*;
use vstd::string::*;

verus! {

/// The kinds of chat channels.
#[derive(Clone, Copy, Debug, PartialEq, Eq, Structural)]
pub enum ChannelType {
    Lark,
    Telegram,
    Weixin,
    ServerChan,
}

/// Whether a channel is ready to send.
#[derive(Clone, Copy, Debug, PartialEq, Eq, Structural)]
pub enum ChannelConnectionStatus {
    Disconnected,
    Connected,
}

/// A message with a title and fields.
#[derive(Debug)]
pub struct RichMessage {
    pub title: Option<String>,
    pub body: String,
    pub fields: Vec<(String, String)>,
}

/// The name of a message that was sent.
#[derive(Debug)]
pub struct SentMessageId(pub String);

/// The name by which a kind of channel is stored.
pub open spec fn stored_name(channel_type: ChannelType) -> Seq<char> {
    match channel_type {
        ChannelType::Lark => "lark"@,
        ChannelType::Telegram => "telegram"@,
        ChannelType::Weixin => "weixin"@,
        ChannelType::ServerChan => "server_chan"@,
    }
}

/// The kind of channel that is stored as `name`.
pub open spec fn type_named(name: Seq<char>) -> Option<ChannelType> {
    if name == "lark"@ {
        Some(ChannelType::Lark)
    } else if name == "telegram"@ {
        Some(ChannelType::Telegram)
    } else if name == "weixin"@ {
        Some(ChannelType::Weixin)
    } else if name == "server_chan"@ {
        Some(ChannelType::ServerChan)
    } else {
        None
    }
}

/// A kind of channel is found by its name, and by no other text.
pub proof fn law_type_names(channel_type: ChannelType, name: Seq<char>)
    ensures
        type_named(name) == Some(channel_type) <==> name == stored_name(channel_type),
{
    reveal_strlit("lark");
    reveal_strlit("telegram");
    reveal_strlit("weixin");
    reveal_strlit("server_chan");
    assert("lark"@[0] == 'l');
    assert("telegram"@[0] == 't');
    assert("weixin"@[0] == 'w');
    assert("server_chan"@[0] == 's');
}

/// The kinds of channels and their names, one for one; no other name has a kind.
pub proof fn law_names_of_the_kinds(name: Seq<char>)
    ensures
        type_named(name) == Some(ChannelType::Lark) <==> name == "lark"@,
        type_named(name) == Some(ChannelType::Telegram) <==> name == "telegram"@,
        type_named(name) == Some(ChannelType::Weixin) <==> name == "weixin"@,
        type_named(name) == Some(ChannelType::ServerChan) <==> name == "server_chan"@,
{
    law_type_names(ChannelType::Lark, name);
    law_type_names(ChannelType::Telegram, name);
    law_type_names(ChannelType::Weixin, name);
    law_type_names(ChannelType::ServerChan, name);
}

/// Finds the kind of channel that is stored as `name`.
pub fn parse_channel_type(name: &str) -> (r: Option<ChannelType>)
    ensures
        r == type_named(name@),
{
    if same_text(name, "lark") {
        Some(ChannelType::Lark)
    } else if same_text(name, "telegram") {
        Some(ChannelType::Telegram)
    } else if same_text(name, "weixin") {
        Some(ChannelType::Weixin)
    } else if same_text(name, "server_chan") {
        Some(ChannelType::ServerChan)
    } else {
        None
    }
}

/// A channel that is to be created.
#[derive(Debug)]
pub struct NewChatChannel {
    pub name: String,
    pub channel_type: String,
    pub config_json: String,
    pub enabled: bool,
    pub daily_report_enabled: bool,
    pub daily_report_time: Option<String>,
}

/// `r` is what comes of checking a channel that is to be created.
pub open spec fn create_outcome(
    channel: NewChatChannel,
    r: Result<NewChatChannel, AppCommandError>,
) -> bool {
    match type_named(channel.channel_type@) {
        Some(_) => r == Ok::<NewChatChannel, AppCommandError>(channel),
        None => r matches Err(e) && e@ == failure(
            AppErrorCode::InvalidInput,
            "Invalid channel type: "@ + channel.channel_type@,
        ),
    }
}

/// A channel is created as it was asked for if its kind is one that there is; with any other it
/// is refused, and the failure names the kind.
pub proof fn law_only_known_kinds_are_created(
    channel: NewChatChannel,
    r: Result<NewChatChannel, AppCommandError>,
)
    requires
        create_outcome(channel, r),
    ensures
        r is Ok <==> channel.channel_type@ == "lark"@ || channel.channel_type@ == "telegram"@
            || channel.channel_type@ == "weixin"@ || channel.channel_type@ == "server_chan"@,
        r matches Ok(created) ==> created == channel,
        r matches Err(e) ==> e.code == AppErrorCode::InvalidInput && e.message@
            == "Invalid channel type: "@ + channel.channel_type@ && e.detail is None,
{
    law_names_of_the_kinds(channel.channel_type@);
}

/// Checks a channel that is to be created: its kind has to be one that there is.
pub fn create_chat_channel_core(channel: NewChatChannel) -> (r: Result<
    NewChatChannel,
    AppCommandError,
>)
    ensures
        create_outcome(channel, r),
{
    match parse_channel_type(channel.channel_type.as_str()) {
        Some(_) => Ok(channel),
        None => Err(
            AppCommandError::invalid_input(
                "Invalid channel type: ".to_owned().concat(channel.channel_type.as_str()),
            ),
        ),
    }
}

/// A change to a channel. What is `None` stays as it is.
#[derive(Debug)]
pub struct ChatChannelUpdate {
    pub id: i32,
    pub name: Option<String>,
    pub enabled: Option<bool>,
    pub config_json: Option<String>,
    pub event_filter_json: Option<Option<String>>,
    pub daily_report_enabled: Option<bool>,
    pub daily_report_time: Option<Option<String>>,
}

/// A stored channel, as far as connecting it reads it.
#[derive(Debug)]
pub struct ChatChannelRow {
    pub name: String,
    pub channel_type: String,
    pub config_json: String,
}

/// A stored channel whose kind and configuration could be read.
pub struct ConfiguredChannel {
    pub id: i32,
    pub name: String,
    pub channel_type: ChannelType,
    pub config: serde_json::Value,
}

/// A [`ConfiguredChannel`] by its contents.
pub struct ConfiguredView {
    pub id: i32,
    pub name: Seq<char>,
    pub channel_type: ChannelType,
    pub config: Json,
}

impl View for ConfiguredChannel {
    type V = ConfiguredView;

    open spec fn view(&self) -> ConfiguredView {
        ConfiguredView {
            id: self.id,
            name: self.name@,
            channel_type: self.channel_type,
            config: json_of(self.config),
        }
    }
}

/// An outcome with a channel by its contents.
pub open spec fn configured_outcome(r: Result<ConfiguredChannel, AppCommandError>) -> Result<
    ConfiguredView,
    AppErrorView,
> {
    match r {
        Ok(channel) => Ok(channel@),
        Err(e) => Err(e@),
    }
}

/// What a configuration comes to, where reading it came to `config`.
pub open spec fn with_config(
    id: i32,
    name: Seq<char>,
    channel_type: ChannelType,
    config: Result<Json, Seq<char>>,
) -> Result<ConfiguredView, AppErrorView> {
    match config {
        Ok(config) => Ok(ConfiguredView { id, name, channel_type, config }),
        Err(message) => Err(
            detailed(AppErrorCode::ConfigurationInvalid, "Invalid config JSON"@, message),
        ),
    }
}

/// What opening the channel `id` comes to, given what was stored for it: it has to exist, its
/// kind has to be one that there is, and its configuration has to be JSON.
pub open spec fn open_outcome(
    id: i32,
    loaded: Result<Option<ChatChannelRow>, AppCommandError>,
) -> Result<ConfiguredView, AppErrorView> {
    match loaded {
        Err(e) => Err(e@),
        Ok(None) => Err(
            failure(
                AppErrorCode::NotFound,
                "Chat channel "@ + decimal(id as int) + " not found"@,
            ),
        ),
        Ok(Some(row)) => match type_named(row.channel_type@) {
            None => Err(
                failure(
                    AppErrorCode::ConfigurationInvalid,
                    "Invalid channel type: "@ + row.channel_type@,
                ),
            ),
            Some(channel_type) => with_config(
                id,
                row.name@,
                channel_type,
                parsed_text(row.config_json@),
            ),
        },
    }
}

/// What came of reading a configuration, by its contents.
pub open spec fn config_view(config: Result<serde_json::Value, String>) -> Result<Json, Seq<char>> {
    match config {
        Ok(v) => Ok(json_of(v)),
        Err(message) => Err(message@),
    }
}

/// The channel with its configuration, from what came of reading the latter.
pub fn accept_config(
    id: i32,
    name: String,
    channel_type: ChannelType,
    config: Result<serde_json::Value, String>,
) -> (r: Result<ConfiguredChannel, AppCommandError>)
    ensures
        configured_outcome(r) == with_config(id, name@, channel_type, config_view(config)),
{
    match config {
        Ok(config) => Ok(ConfiguredChannel { id, name, channel_type, config }),
        Err(message) => Err(
            AppCommandError::configuration_invalid("Invalid config JSON".to_owned()).with_detail(
                message,
            ),
        ),
    }
}

/// Opens the channel `id`, given what was stored for it.
pub fn open_chat_channel(
    id: i32,
    loaded: Result<Option<ChatChannelRow>, AppCommandError>,
) -> (r: Result<ConfiguredChannel, AppCommandError>)
    ensures
        configured_outcome(r) == open_outcome(id, loaded),
{
    match loaded {
        Err(e) => Err(e),
        Ok(None) => {
            let number = decimal_text(id as i64);
            Err(
                AppCommandError::not_found(
                    "Chat channel ".to_owned().concat(number.as_str()).concat(" not found"),
                ),
            )
        },
        Ok(Some(row)) => match parse_channel_type(row.channel_type.as_str()) {
            None => Err(
                AppCommandError::configuration_invalid(
                    "Invalid channel type: ".to_owned().concat(row.channel_type.as_str()),
                ),
            ),
            Some(channel_type) => {
                let config = parse_text(row.config_json.as_str());
                accept_config(id, row.name, channel_type, config)
            },
        },
    }
}

/// A channel that could be created can be opened, if its configuration is JSON.
pub proof fn law_created_channel_opens(id: i32, channel: NewChatChannel, row: ChatChannelRow)
    requires
        type_named(channel.channel_type@) is Some,
        row.name == channel.name,
        row.channel_type == channel.channel_type,
        row.config_json == channel.config_json,
    ensures
        parsed_text(channel.config_json@) is Ok <==> open_outcome(id, Ok(Some(row))) is Ok,
{
}

/// A stored channel that opens has the id that was asked for, the name in its row, the kind that
/// its row names and the configuration that its row holds. It opens if and only if the kind is
/// one that there is and the configuration is JSON; otherwise the failure tells which it was.
pub proof fn law_opened_channel_is_the_stored_one(
    id: i32,
    row: ChatChannelRow,
    r: Result<ConfiguredChannel, AppCommandError>,
)
    requires
        configured_outcome(r) == open_outcome(id, Ok(Some(row))),
    ensures
        ({
            let kind = row.channel_type@;
            let known = kind == "lark"@ || kind == "telegram"@ || kind == "weixin"@ || kind
                == "server_chan"@;
            let config = parsed_text(row.config_json@);
            &&& r is Ok <==> known && config is Ok
            &&& r matches Ok(channel) ==> {
                &&& channel.id == id
                &&& channel.name@ == row.name@
                &&& config == Ok::<Json, Seq<char>>(json_of(channel.config))
                &&& channel.channel_type == ChannelType::Lark <==> kind == "lark"@
                &&& channel.channel_type == ChannelType::Telegram <==> kind == "telegram"@
                &&& channel.channel_type == ChannelType::Weixin <==> kind == "weixin"@
                &&& channel.channel_type == ChannelType::ServerChan <==> kind == "server_chan"@
            }
            &&& !known ==> (r matches Err(e) && e.code == AppErrorCode::ConfigurationInvalid
                && e.message@ == "Invalid channel type: "@ + kind && e.detail is None)
            &&& known && config is Err ==> (r matches Err(e) && e.code
                == AppErrorCode::ConfigurationInvalid && e.message@ == "Invalid config JSON"@ && (
            e.detail matches Some(detail) && detail@ == config->Err_0))
        }),
{
    law_names_of_the_kinds(row.channel_type@);
}

/// A channel that is not stored is not found, by the number that was asked for; a failure to load
/// it stays what it is.
pub proof fn law_missing_channel_is_not_found(
    id: i32,
    cause: AppCommandError,
    r: Result<ConfiguredChannel, AppCommandError>,
)
    ensures
        configured_outcome(r) == open_outcome(id, Ok(None)) ==> (r matches Err(e) && e.code
            == AppErrorCode::NotFound && e.message@ == "Chat channel "@ + decimal(id as int)
            + " not found"@ && e.detail is None),
        configured_outcome(r) == open_outcome(id, Err(cause)) ==> (r matches Err(e) && e.code
            == cause.code && e.message@ == cause.message@ && (e.detail is Some <==> cause.detail
            is Some) && (e.detail is Some ==> e.detail->0@ == cause.detail->0@)),
{
}

/// All that a backend is made from.
pub struct BackendRequest {
    pub channel: ConfiguredChannel,
    pub token: String,
}

/// Adds the token of an opened channel, given what the keyring holds for it.
pub fn attach_token(channel: ConfiguredChannel, token: Option<String>) -> (r: Result<
    BackendRequest,
    AppCommandError,
>)
    ensures
        match token {
            Some(token) => r == Ok::<BackendRequest, AppCommandError>(
                BackendRequest { channel, token },
            ),
            None => r matches Err(e) && e@ == failure(
                AppErrorCode::ConfigurationMissing,
                "Token not set"@,
            ),
        },
{
    match token {
        Some(token) => Ok(BackendRequest { channel, token }),
        None => Err(AppCommandError::configuration_missing("Token not set".to_owned())),
    }
}

/// What a command on a channel needs next; `B` is a backend.
pub enum ChannelStep<B> {
    /// The token of the channel, out of the keyring.
    ReadToken(ConfiguredChannel),
    /// A backend made from the request.
    CreateBackend(BackendRequest),
    /// The backend run, as the channel `id` of the kind and by the name given.
    AddChannel { id: i32, name: String, channel_type: ChannelType, backend: B },
    /// The backend tried out.
    TestConnection(B),
    /// Nothing: this is the outcome.
    Done(Result<(), AppCommandError>),
}

/// What a command on a channel has learned.
pub enum ChannelEvent<B> {
    /// What is stored for the channel `id`.
    Loaded { id: i32, row: Result<Option<ChatChannelRow>, AppCommandError> },
    /// What the keyring holds for an opened channel.
    TokenRead { channel: ConfiguredChannel, token: Option<String> },
    /// What came of making a backend for an opened channel.
    BackendCreated { channel: ConfiguredChannel, backend: Result<B, AppCommandError> },
    /// What came of running the backend, or of trying it out.
    Used(Result<(), AppCommandError>),
}

/// `step` follows `event` in a command that ends in running the backend, or in trying it out.
pub open spec fn channel_goes_on<B>(
    event: ChannelEvent<B>,
    step: ChannelStep<B>,
    connect: bool,
) -> bool {
    match event {
        ChannelEvent::Loaded { id, row } => match open_outcome(id, row) {
            Ok(channel) => step matches ChannelStep::ReadToken(c) && c@ == channel,
            Err(e) => step matches ChannelStep::Done(Err(x)) && x@ == e,
        },
        ChannelEvent::TokenRead { channel, token } => match token {
            Some(token) => step == ChannelStep::<B>::CreateBackend(
                BackendRequest { channel, token },
            ),
            None => step matches ChannelStep::Done(Err(x)) && x@ == failure(
                AppErrorCode::ConfigurationMissing,
                "Token not set"@,
            ),
        },
        ChannelEvent::BackendCreated { channel, backend } => match backend {
            Ok(backend) => if connect {
                step == (ChannelStep::AddChannel {
                    id: channel.id,
                    name: channel.name,
                    channel_type: channel.channel_type,
                    backend,
                })
            } else {
                step == ChannelStep::TestConnection(backend)
            },
            Err(e) => step == ChannelStep::<B>::Done(Err(e)),
        },
        ChannelEvent::Used(outcome) => step == ChannelStep::<B>::Done(outcome),
    }
}

/// Connecting a channel, or trying it out, begins with opening what is stored for it: the token is
/// read for the channel with the id that was asked for, the name, kind and configuration of its
/// row. A channel that does not open ends it.
pub proof fn law_command_opens_the_stored_channel<B>(
    id: i32,
    row: ChatChannelRow,
    step: ChannelStep<B>,
    connect: bool,
)
    requires
        channel_goes_on(ChannelEvent::Loaded { id, row: Ok(Some(row)) }, step, connect),
    ensures
        ({
            let kind = row.channel_type@;
            let known = kind == "lark"@ || kind == "telegram"@ || kind == "weixin"@ || kind
                == "server_chan"@;
            let config = parsed_text(row.config_json@);
            &&& step is ReadToken <==> known && config is Ok
            &&& step matches ChannelStep::ReadToken(channel) ==> {
                &&& channel.id == id
                &&& channel.name@ == row.name@
                &&& config == Ok::<Json, Seq<char>>(json_of(channel.config))
                &&& channel.channel_type == ChannelType::Lark <==> kind == "lark"@
                &&& channel.channel_type == ChannelType::Telegram <==> kind == "telegram"@
                &&& channel.channel_type == ChannelType::Weixin <==> kind == "weixin"@
                &&& channel.channel_type == ChannelType::ServerChan <==> kind == "server_chan"@
            }
            &&& !known ==> (step matches ChannelStep::Done(Err(e)) && e.code
                == AppErrorCode::ConfigurationInvalid && e.message@ == "Invalid channel type: "@
                + kind && e.detail is None)
            &&& known && config is Err ==> (step matches ChannelStep::Done(Err(e)) && e.code
                == AppErrorCode::ConfigurationInvalid && e.message@ == "Invalid config JSON"@ && (
            e.detail matches Some(detail) && detail@ == config->Err_0))
        }),
{
    law_names_of_the_kinds(row.channel_type@);
}

/// A channel that is not there, or could not be loaded, is neither connected nor tried out.
pub proof fn law_command_without_a_channel<B>(
    id: i32,
    cause: AppCommandError,
    step: ChannelStep<B>,
    connect: bool,
)
    ensures
        channel_goes_on(ChannelEvent::Loaded { id, row: Ok(None) }, step, connect) ==> (
        step matches ChannelStep::Done(Err(e)) && e.code == AppErrorCode::NotFound && e.message@
            == "Chat channel "@ + decimal(id as int) + " not found"@ && e.detail is None),
        channel_goes_on(ChannelEvent::Loaded { id, row: Err(cause) }, step, connect) ==> (
        step matches ChannelStep::Done(Err(e)) && e.code == cause.code && e.message@
            == cause.message@ && (e.detail is Some <==> cause.detail is Some) && (e.detail is Some
            ==> e.detail->0@ == cause.detail->0@)),
{
}

/// An opened channel needs its token: with it, a backend is made from the very channel and the
/// very token; without it, the configuration is incomplete.
pub proof fn law_token_is_needed<B>(
    channel: ConfiguredChannel,
    token: String,
    step: ChannelStep<B>,
    connect: bool,
)
    ensures
        channel_goes_on(ChannelEvent::TokenRead { channel, token: Some(token) }, step, connect)
            ==> (step matches ChannelStep::CreateBackend(request) && request.channel == channel
            && request.token == token),
        channel_goes_on(ChannelEvent::TokenRead { channel, token: None }, step, connect) ==> (
        step matches ChannelStep::Done(Err(e)) && e.code == AppErrorCode::ConfigurationMissing
            && e.message@ == "Token not set"@ && e.detail is None),
{
}

/// The backend of a channel is run under the id, the name and the kind of the channel when it is
/// to be connected, and only tried out when it is to be tried out. What comes of that is the
/// outcome, and so is the failure to make a backend.
pub proof fn law_backend_is_used<B>(
    channel: ConfiguredChannel,
    made: B,
    cause: AppCommandError,
    outcome: Result<(), AppCommandError>,
    step: ChannelStep<B>,
    connect: bool,
)
    ensures
        channel_goes_on(ChannelEvent::BackendCreated { channel, backend: Ok(made) }, step, true)
            ==> (step matches ChannelStep::AddChannel { id, name, channel_type, backend } && id
            == channel.id && name == channel.name && channel_type == channel.channel_type
            && backend == made),
        channel_goes_on(ChannelEvent::BackendCreated { channel, backend: Ok(made) }, step, false)
            ==> (step matches ChannelStep::TestConnection(backend) && backend == made),
        channel_goes_on(ChannelEvent::BackendCreated { channel, backend: Err(cause) }, step, connect)
            ==> (step matches ChannelStep::Done(Err(e)) && e == cause),
        channel_goes_on(ChannelEvent::Used(outcome), step, connect) ==> (
        step matches ChannelStep::Done(r) && r == outcome),
{
}

fn channel_step<B>(event: ChannelEvent<B>, connect: bool) -> (r: ChannelStep<B>)
    ensures
        channel_goes_on(event, r, connect),
{
    match event {
        ChannelEvent::Loaded { id, row } => match open_chat_channel(id, row) {
            Ok(channel) => ChannelStep::ReadToken(channel),
            Err(e) => ChannelStep::Done(Err(e)),
        },
        ChannelEvent::TokenRead { channel, token } => match attach_token(channel, token) {
            Ok(request) => ChannelStep::CreateBackend(request),
            Err(e) => ChannelStep::Done(Err(e)),
        },
        ChannelEvent::BackendCreated { channel, backend } => match backend {
            Ok(backend) => if connect {
                ChannelStep::AddChannel {
                    id: channel.id,
                    name: channel.name,
                    channel_type: channel.channel_type,
                    backend,
                }
            } else {
                ChannelStep::TestConnection(backend)
            },
            Err(e) => ChannelStep::Done(Err(e)),
        },
        ChannelEvent::Used(outcome) => ChannelStep::Done(outcome),
    }
}

/// Connects a channel: what follows each thing learned, until the backend runs.
pub fn connect_chat_channel_core<B>(event: ChannelEvent<B>) -> (r: ChannelStep<B>)
    ensures
        channel_goes_on(event, r, true),
{
    channel_step(event, true)
}

/// Tries a channel out: what follows each thing learned, until the backend was tried.
pub fn test_chat_channel_core<B>(event: ChannelEvent<B>) -> (r: ChannelStep<B>)
    ensures
        channel_goes_on(event, r, false),
{
    channel_step(event, false)
}

/// What deleting a channel needs next.
#[derive(Debug)]
pub enum DeleteStep {
    /// The channel disconnected, if it is connected.
    Disconnect,
    /// The stored channel deleted.
    DeleteRow,
    /// The token deleted from the keyring, if there is one.
    DeleteToken,
    /// Nothing: this is the outcome.
    Done(Result<(), AppCommandError>),
}

/// How far deleting a channel has come.
#[derive(Debug)]
pub enum DeleteEvent {
    Asked,
    /// What came of disconnecting the channel.
    Disconnected(Result<(), AppCommandError>),
    /// What came of deleting the stored channel.
    RowDeleted(Result<(), AppCommandError>),
    /// What came of deleting the token.
    TokenDeleted(Result<(), String>),
}

/// What deleting a channel needs after `event`.
pub open spec fn delete_step(event: DeleteEvent) -> DeleteStep {
    match event {
        DeleteEvent::Asked => DeleteStep::Disconnect,
        DeleteEvent::Disconnected(_) => DeleteStep::DeleteRow,
        DeleteEvent::RowDeleted(Ok(_)) => DeleteStep::DeleteToken,
        DeleteEvent::RowDeleted(Err(e)) => DeleteStep::Done(Err(e)),
        DeleteEvent::TokenDeleted(_) => DeleteStep::Done(Ok(())),
    }
}

/// A channel is disconnected before its row is deleted, and whatever comes of that, the row is
/// deleted next; the token goes only after the row is gone, and whatever comes of that, the
/// channel is deleted. If the row cannot be deleted, that is the outcome and the token stays.
pub proof fn law_order_of_deleting(
    disconnected: Result<(), AppCommandError>,
    cause: AppCommandError,
    token: Result<(), String>,
)
    ensures
        delete_step(DeleteEvent::Asked) is Disconnect,
        delete_step(DeleteEvent::Disconnected(disconnected)) is DeleteRow,
        delete_step(DeleteEvent::RowDeleted(Ok(()))) is DeleteToken,
        delete_step(DeleteEvent::RowDeleted(Err(cause))) == DeleteStep::Done(Err(cause)),
        delete_step(DeleteEvent::TokenDeleted(token)) == DeleteStep::Done(Ok(())),
{
}

/// Deletes a channel: it is disconnected first, so that nothing runs for a channel that is not
/// there any more. Only a failure to delete the stored channel is one of the command, and it
/// leaves the token alone.
pub fn delete_chat_channel_core(event: DeleteEvent) -> (r: DeleteStep)
    ensures
        r == delete_step(event),
{
    match event {
        DeleteEvent::Asked => DeleteStep::Disconnect,
        DeleteEvent::Disconnected(_) => DeleteStep::DeleteRow,
        DeleteEvent::RowDeleted(Ok(())) => DeleteStep::DeleteToken,
        DeleteEvent::RowDeleted(Err(e)) => DeleteStep::Done(Err(e)),
        DeleteEvent::TokenDeleted(_) => DeleteStep::Done(Ok(())),
    }
}

/// How many messages a page has where that is not said.
pub const DEFAULT_MESSAGE_LIMIT: u64 = 50;

/// A page of the messages of a channel.
#[derive(Clone, Copy, Debug, PartialEq, Eq, Structural)]
pub struct MessageQuery {
    pub channel_id: i32,
    pub limit: u64,
    pub offset: u64,
}

/// The page of the messages of `channel_id` with `limit` messages from `offset` on.
pub open spec fn message_page(
    channel_id: i32,
    limit: Option<u64>,
    offset: Option<u64>,
) -> MessageQuery {
    MessageQuery {
        channel_id,
        limit: match limit {
            Some(limit) => limit,
            None => DEFAULT_MESSAGE_LIMIT,
        },
        offset: match offset {
            Some(offset) => offset,
            None => 0,
        },
    }
}

/// A page is of the channel asked for, as long as asked for and from where asked for; where that
/// is not said it has fifty messages, and begins with the first.
pub proof fn law_page_is_as_asked_for(channel_id: i32, limit: Option<u64>, offset: Option<u64>)
    ensures
        message_page(channel_id, limit, offset).channel_id == channel_id,
        limit is Some ==> message_page(channel_id, limit, offset).limit == limit->0,
        limit is None ==> message_page(channel_id, limit, offset).limit == 50,
        offset is Some ==> message_page(channel_id, limit, offset).offset == offset->0,
        offset is None ==> message_page(channel_id, limit, offset).offset == 0,
{
}

/// The page of messages that is asked for.
pub fn list_chat_channel_messages_core(
    channel_id: i32,
    limit: Option<u64>,
    offset: Option<u64>,
) -> (r: MessageQuery)
    ensures
        r == message_page(channel_id, limit, offset),
{
    MessageQuery {
        channel_id,
        limit: limit.unwrap_or(DEFAULT_MESSAGE_LIMIT),
        offset: offset.unwrap_or(0),
    }
}

} // verus!
