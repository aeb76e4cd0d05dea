//! Logging a WeChat channel in by QR code.

use crate::channels::{open_outcome, type_named, ChatChannelRow, ChatChannelUpdate};
use crate::error::{detailed, text_view, AppCommandError, AppErrorCode};
use crate::json::{document, pair_text, parsed_text, text_pair, write_pair};
use crate::text::same_text;
use crate::tokens::save_chat_channel_token_core;
use vstd::prelude::*;

verus! {

/// What the service says of a QR code.
pub struct WeixinQrcodeStatus {
    pub status: String,
    pub bot_token: Option<String>,
    pub base_url: Option<String>,
}

/// What the user is told of a QR code: never the token.
#[derive(Debug)]
pub struct WeixinQrcodeStatusPublic {
    pub status: String,
}

/// The token of a channel that is being saved, with what follows once it is.
pub struct TokenSave {
    pub channel_id: i32,
    pub token: String,
    /// The change to the channel that follows.
    pub update: Option<ChatChannelUpdate>,
    /// What the user is told in the end.
    pub answer: WeixinQrcodeStatusPublic,
}

/// A change to a channel that is being made, with what the user is told after it.
#[derive(Debug)]
pub struct ConfigUpdate {
    pub update: ChatChannelUpdate,
    pub answer: WeixinQrcodeStatusPublic,
}

/// What looking after a QR code needs next.
pub enum QrcodeStep {
    /// The token saved.
    SaveToken(TokenSave),
    /// The change to the channel made.
    UpdateChannel(ConfigUpdate),
    /// Nothing: this is the outcome.
    Done(Result<WeixinQrcodeStatusPublic, AppCommandError>),
}

impl WeixinQrcodeStatus {
    /// Whether the user has confirmed the QR code.
    pub open spec fn is_confirmed(self) -> bool {
        self.status@ == "confirmed"@
    }

    /// Whether the user has confirmed the QR code.
    pub fn confirmed(&self) -> (r: bool)
        ensures
            r == self.is_confirmed(),
    {
        same_text(self.status.as_str(), "confirmed")
    }
}

/// The change to a channel that only sets its configuration, to `config`.
pub open spec fn only_config(update: ChatChannelUpdate, id: i32, config: Seq<char>) -> bool {
    &&& update.id == id
    &&& update.config_json matches Some(json) && json@ == config
    &&& update.name is None
    &&& update.enabled is None
    &&& update.event_filter_json is None
    &&& update.daily_report_enabled is None
    &&& update.daily_report_time is None
}

/// `update` sets the configuration of the channel `id` to `config`, where there is one.
pub open spec fn sets_config(
    update: Option<ChatChannelUpdate>,
    id: i32,
    config: Option<Seq<char>>,
) -> bool {
    match config {
        Some(config) => update matches Some(update) && only_config(update, id, config),
        None => update is None,
    }
}

/// `step` makes the change `update` and ends with `answer`; without a change it ends at once.
pub open spec fn update_goes_on(
    update: Option<ChatChannelUpdate>,
    answer: WeixinQrcodeStatusPublic,
    step: QrcodeStep,
) -> bool {
    match update {
        Some(update) => step == QrcodeStep::UpdateChannel(ConfigUpdate { update, answer }),
        None => step == QrcodeStep::Done(Ok(answer)),
    }
}

/// The change to a channel that `step` makes or leads to.
pub open spec fn update_in(step: QrcodeStep) -> Option<ChatChannelUpdate> {
    match step {
        QrcodeStep::SaveToken(save) => save.update,
        QrcodeStep::UpdateChannel(update) => Some(update.update),
        QrcodeStep::Done(_) => None,
    }
}

/// `step` follows from what the service says of the QR code of the channel `channel_id`, `config`
/// being the configuration that goes with the address: the token is saved first, where there is
/// one, and nothing is kept of a QR code that is not confirmed.
pub open spec fn qrcode_goes_on(
    channel_id: i32,
    result: WeixinQrcodeStatus,
    config: Option<Seq<char>>,
    step: QrcodeStep,
) -> bool {
    let answer = WeixinQrcodeStatusPublic { status: result.status };
    if !result.is_confirmed() {
        step == QrcodeStep::Done(Ok(answer))
    } else {
        match result.bot_token {
            Some(token) => {
                step matches QrcodeStep::SaveToken(save) && save.channel_id == channel_id
                    && save.token == token && save.answer == answer && sets_config(
                    save.update,
                    channel_id,
                    config,
                )
            },
            None => sets_config(update_in(step), channel_id, config) && update_goes_on(
                update_in(step),
                answer,
                step,
            ),
        }
    }
}

/// `step` follows from what came of saving the token: a failure ends it, with the channel as it
/// was.
pub open spec fn save_goes_on(
    save: TokenSave,
    stored: Result<(), String>,
    step: QrcodeStep,
) -> bool {
    match stored {
        Ok(_) => update_goes_on(save.update, save.answer, step),
        Err(reason) => step matches QrcodeStep::Done(Err(e)) && e@ == detailed(
            AppErrorCode::Io,
            "Failed to save token"@,
            reason@,
        ),
    }
}

fn go_on(update: Option<ChatChannelUpdate>, answer: WeixinQrcodeStatusPublic) -> (r: QrcodeStep)
    ensures
        update_goes_on(update, answer, r),
{
    match update {
        Some(update) => QrcodeStep::UpdateChannel(ConfigUpdate { update, answer }),
        None => QrcodeStep::Done(Ok(answer)),
    }
}

/// Goes on with a QR code, `config` being the configuration that goes with the address.
pub fn accept_qrcode(channel_id: i32, result: WeixinQrcodeStatus, config: Option<String>) -> (r:
    QrcodeStep)
    ensures
        qrcode_goes_on(channel_id, result, text_view(config), r),
{
    if !result.confirmed() {
        return QrcodeStep::Done(Ok(WeixinQrcodeStatusPublic { status: result.status }));
    }
    let answer = WeixinQrcodeStatusPublic { status: result.status };
    let update = match config {
        Some(config) => Some(
            ChatChannelUpdate {
                id: channel_id,
                name: None,
                enabled: None,
                config_json: Some(config),
                event_filter_json: None,
                daily_report_enabled: None,
                daily_report_time: None,
            },
        ),
        None => None,
    };
    match result.bot_token {
        Some(token) => QrcodeStep::SaveToken(TokenSave { channel_id, token, update, answer }),
        None => go_on(update, answer),
    }
}

/// The configuration of a channel with the address `base_url`.
pub open spec fn address_config(base_url: Option<String>) -> Option<Seq<char>> {
    match base_url {
        Some(base_url) => Some(pair_text("base_url"@, base_url@)),
        None => None,
    }
}

/// `step` follows from what came of asking the service about the QR code of `channel_id`.
pub open spec fn check_goes_on(
    channel_id: i32,
    checked: Result<WeixinQrcodeStatus, AppCommandError>,
    step: QrcodeStep,
) -> bool {
    match checked {
        Ok(result) => qrcode_goes_on(channel_id, result, address_config(result.base_url), step),
        Err(e) => step == QrcodeStep::Done(Err(e)),
    }
}

/// Goes on with what the service says of the QR code of the channel `channel_id`. The
/// configuration that is kept is a JSON object with the address in it, and nothing else.
pub fn weixin_check_qrcode_core(
    channel_id: i32,
    checked: Result<WeixinQrcodeStatus, AppCommandError>,
) -> (r: QrcodeStep)
    ensures
        check_goes_on(channel_id, checked, r),
        checked matches Ok(result) ==> (update_in(r) matches Some(update) ==> (
        result.base_url matches Some(base_url) && parsed_text(update.config_json->0@) == document(
            text_pair("base_url"@, base_url@),
        ))),
{
    match checked {
        Ok(result) => {
            let config = match &result.base_url {
                Some(base_url) => Some(write_pair("base_url", base_url.as_str())),
                None => None,
            };
            accept_qrcode(channel_id, result, config)
        },
        Err(e) => QrcodeStep::Done(Err(e)),
    }
}

impl TokenSave {
    /// Goes on with the answer of the keyring to saving the token.
    pub fn saved(self, stored: Result<(), String>) -> (r: QrcodeStep)
        ensures
            save_goes_on(self, stored, r),
    {
        match save_chat_channel_token_core(stored) {
            Ok(()) => go_on(self.update, self.answer),
            Err(e) => QrcodeStep::Done(Err(e)),
        }
    }
}

/// What looking after a QR code ends with, where the change to the channel came to `outcome`.
pub open spec fn updated_outcome(
    change: ConfigUpdate,
    outcome: Result<(), AppCommandError>,
) -> Result<WeixinQrcodeStatusPublic, AppCommandError> {
    match outcome {
        Ok(_) => Ok(change.answer),
        Err(e) => Err(e),
    }
}

impl ConfigUpdate {
    /// Ends with the answer, or with the failure to change the channel.
    pub fn updated(self, outcome: Result<(), AppCommandError>) -> (r: Result<
        WeixinQrcodeStatusPublic,
        AppCommandError,
    >)
        ensures
            r == updated_outcome(self, outcome),
    {
        match outcome {
            Ok(()) => Ok(self.answer),
            Err(e) => Err(e),
        }
    }
}

/// Nothing is done about a QR code with any status but `confirmed`: the user is told the status,
/// and that is all. A service that could not be asked is a failure.
pub proof fn law_unconfirmed_qrcode_is_only_told(
    channel_id: i32,
    result: WeixinQrcodeStatus,
    config: Option<Seq<char>>,
    cause: AppCommandError,
    step: QrcodeStep,
)
    ensures
        result.status@ != "confirmed"@ && qrcode_goes_on(channel_id, result, config, step) ==> (
        step matches QrcodeStep::Done(Ok(answer)) && answer.status@ == result.status@),
        result.status@ != "confirmed"@ && check_goes_on(channel_id, Ok(result), step) ==> (
        step matches QrcodeStep::Done(Ok(answer)) && answer.status@ == result.status@),
        check_goes_on(channel_id, Err(cause), step) ==> (step matches QrcodeStep::Done(Err(e)) && e
            == cause),
{
}

/// A confirmed QR code has its token saved for its channel, if it has one, and then the
/// configuration of that channel set, if it has an address, and nothing else of the channel
/// changed; the user is told the status in the end.
pub proof fn law_confirmed_qrcode_is_kept(
    channel_id: i32,
    result: WeixinQrcodeStatus,
    config: Option<Seq<char>>,
    step: QrcodeStep,
)
    requires
        result.status@ == "confirmed"@,
        qrcode_goes_on(channel_id, result, config, step),
    ensures
        result.bot_token matches Some(token) ==> (step matches QrcodeStep::SaveToken(save)
            && save.channel_id == channel_id && save.token@ == token@ && save.answer.status@
            == result.status@ && (save.update is Some <==> config is Some) && (
        save.update matches Some(update) ==> update.id == channel_id && (
        update.config_json matches Some(json) && json@ == config->0) && update.name is None
            && update.enabled is None && update.event_filter_json is None
            && update.daily_report_enabled is None && update.daily_report_time is None)),
        result.bot_token is None && config is Some ==> (step matches QrcodeStep::UpdateChannel(
            change,
        ) && change.answer.status@ == result.status@ && change.update.id == channel_id && (
        change.update.config_json matches Some(json) && json@ == config->0)
            && change.update.name is None && change.update.enabled is None
            && change.update.event_filter_json is None && change.update.daily_report_enabled is None
            && change.update.daily_report_time is None),
        result.bot_token is None && config is None ==> (step matches QrcodeStep::Done(Ok(answer))
            && answer.status@ == result.status@),
{
}

/// The configuration goes with the address: an object whose only entry is `base_url`, written for
/// the very address; without an address there is none.
pub proof fn law_configuration_goes_with_the_address(
    channel_id: i32,
    result: WeixinQrcodeStatus,
    step: QrcodeStep,
)
    requires
        result.status@ == "confirmed"@,
        check_goes_on(channel_id, Ok(result), step),
    ensures
        update_in(step) is Some <==> result.base_url is Some,
        step matches QrcodeStep::SaveToken(save) ==> save.update == update_in(step),
        step matches QrcodeStep::UpdateChannel(change) ==> Some(change.update) == update_in(step),
        update_in(step) matches Some(update) ==> (update.config_json matches Some(json) && json@
            == pair_text("base_url"@, result.base_url->0@)),
        result.bot_token is Some <==> step is SaveToken,
{
}

/// Once the token is saved, the very change that was waiting is made, and the answer is kept;
/// without one it is told at once. If the token could not be saved, nothing is changed, and the
/// failure tells the keyring's reason. After the change the answer is told, or the failure.
pub proof fn law_what_follows_the_token(
    save: TokenSave,
    reason: String,
    step: QrcodeStep,
    change: ConfigUpdate,
    cause: AppCommandError,
)
    ensures
        save_goes_on(save, Ok(()), step) && save.update is Some ==> (
        step matches QrcodeStep::UpdateChannel(next) && next.update == save.update->0
            && next.answer == save.answer),
        save_goes_on(save, Ok(()), step) && save.update is None ==> (step matches QrcodeStep::Done(
            Ok(answer),
        ) && answer == save.answer),
        save_goes_on(save, Err(reason), step) ==> (step matches QrcodeStep::Done(Err(e)) && e.code
            == AppErrorCode::Io && e.message@ == "Failed to save token"@ && (
        e.detail matches Some(detail) && detail@ == reason@)),
        updated_outcome(change, Ok(())) matches Ok(answer) && answer == change.answer,
        updated_outcome(change, Err(cause)) matches Err(e) && e == cause,
{
}

/// The keyring is written only for a confirmed QR code with a token, and only for its channel.
/// The channel is changed only for a confirmed QR code with an address, and never before the
/// token is saved, where there is one; if that fails, the failure is the outcome and the channel
/// is not changed at all.
pub proof fn law_token_before_channel(
    channel_id: i32,
    result: WeixinQrcodeStatus,
    step: QrcodeStep,
    stored: Result<(), String>,
    next: QrcodeStep,
)
    requires
        qrcode_goes_on(channel_id, result, address_config(result.base_url), step),
        step matches QrcodeStep::SaveToken(save) ==> save_goes_on(save, stored, next),
    ensures
        step is SaveToken <==> result.is_confirmed() && result.bot_token is Some,
        step matches QrcodeStep::SaveToken(save) ==> save.channel_id == channel_id && Some(
            save.token,
        ) == result.bot_token,
        step is UpdateChannel <==> result.is_confirmed() && result.bot_token is None
            && result.base_url is Some,
        step is SaveToken ==> next !is SaveToken && (next is UpdateChannel <==> stored is Ok
            && result.base_url is Some),
        step is SaveToken && stored is Err ==> (next matches QrcodeStep::Done(Err(e)) && e@
            == detailed(AppErrorCode::Io, "Failed to save token"@, stored->Err_0@)),
        step matches QrcodeStep::UpdateChannel(update) ==> update.update.id == channel_id,
        step is SaveToken ==> (next matches QrcodeStep::UpdateChannel(update)
            ==> update.update.id == channel_id),
{
}

/// The user is told what the service said of the QR code, whatever was kept of it, unless
/// something failed.
pub proof fn law_answer_is_the_status(
    channel_id: i32,
    result: WeixinQrcodeStatus,
    step: QrcodeStep,
    stored: Result<(), String>,
    next: QrcodeStep,
)
    requires
        qrcode_goes_on(channel_id, result, address_config(result.base_url), step),
        step matches QrcodeStep::SaveToken(save) ==> save_goes_on(save, stored, next),
    ensures
        step matches QrcodeStep::Done(outcome) ==> (outcome matches Ok(answer) && answer.status
            == result.status),
        step matches QrcodeStep::UpdateChannel(update) ==> update.answer.status == result.status,
        step is SaveToken ==> (next matches QrcodeStep::Done(Ok(answer)) ==> answer.status
            == result.status),
        step is SaveToken ==> (next matches QrcodeStep::UpdateChannel(update)
            ==> update.answer.status == result.status),
{
}

/// The configuration that a confirmed QR code leaves can be opened, and holds the address.
pub proof fn law_confirmed_channel_opens(id: i32, row: ChatChannelRow, base_url: Seq<char>)
    requires
        parsed_text(row.config_json@) == document(text_pair("base_url"@, base_url)),
        type_named(row.channel_type@) is Some,
    ensures
        open_outcome(id, Ok(Some(row))) matches Ok(channel) && channel.config.text_at(
            "base_url"@,
        ) == Some(base_url),
{
}

} // verus!
