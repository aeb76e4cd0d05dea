//! The settings of the chat integration, which are kept as texts under keys. The functions take
//! what is stored and give what is to be stored.

use crate::error::{failure, AppCommandError, AppErrorCode, AppErrorView};
use crate::json::{names_text, names_view, parse_names, parsed_names, write_names};
use crate::text::{
    any_alphanumeric, byte_len, has_alphanumeric, law_trim_idempotent, lower_case, same_text,
    trimmed,
};
use vstd::prelude::*;
use vstd::string::*;
use vstd::utf8::*;

verus! {

/// The key of the command prefix.
pub const COMMAND_PREFIX_KEY: &'static str = "chat_command_prefix";

/// The command prefix where none is stored.
pub const DEFAULT_COMMAND_PREFIX: &'static str = "/";

/// The key of the language of messages.
pub const MESSAGE_LANGUAGE_KEY: &'static str = "chat_message_language";

/// The language of messages where none is stored.
pub const DEFAULT_MESSAGE_LANGUAGE: &'static str = "en";

/// The key of the event filter.
pub const EVENT_FILTER_KEY: &'static str = "chat_event_filter";

/// A setting that is to be stored.
#[derive(Debug)]
pub struct MetadataWrite {
    pub key: &'static str,
    pub value: String,
}

/// A [`MetadataWrite`] by the texts in it.
pub struct WriteView {
    pub key: Seq<char>,
    pub value: Seq<char>,
}

impl View for MetadataWrite {
    type V = WriteView;

    open spec fn view(&self) -> WriteView {
        WriteView { key: self.key@, value: self.value@ }
    }
}

/// An outcome with a text by the texts in it.
pub open spec fn text_outcome(r: Result<String, AppCommandError>) -> Result<
    Seq<char>,
    AppErrorView,
> {
    match r {
        Ok(s) => Ok(s@),
        Err(e) => Err(e@),
    }
}

/// An outcome with a setting by the texts in it.
pub open spec fn write_outcome(r: Result<MetadataWrite, AppCommandError>) -> Result<
    WriteView,
    AppErrorView,
> {
    match r {
        Ok(w) => Ok(w@),
        Err(e) => Err(e@),
    }
}

/// What is stored, or `default` where nothing is; a failure to load it stays one.
pub open spec fn stored_or(
    stored: Result<Option<String>, AppCommandError>,
    default: Seq<char>,
) -> Result<Seq<char>, AppErrorView> {
    match stored {
        Ok(Some(value)) => Ok(value@),
        Ok(None) => Ok(default),
        Err(e) => Err(e@),
    }
}

/// What is stored is what is read, for the command prefix as for the language; nothing stored is
/// read as a slash, or as English. A failure to load stays what it is.
pub proof fn law_stored_settings_are_read(
    value: String,
    cause: AppCommandError,
    r: Result<String, AppCommandError>,
)
    ensures
        text_outcome(r) == stored_or(Ok(Some(value)), DEFAULT_COMMAND_PREFIX@) ==> (r matches Ok(s)
            && s@ == value@),
        text_outcome(r) == stored_or(Ok(None), DEFAULT_COMMAND_PREFIX@) ==> (r matches Ok(s) && s@
            == "/"@),
        text_outcome(r) == stored_or(Ok(Some(value)), DEFAULT_MESSAGE_LANGUAGE@) ==> (
        r matches Ok(s) && s@ == value@),
        text_outcome(r) == stored_or(Ok(None), DEFAULT_MESSAGE_LANGUAGE@) ==> (r matches Ok(s)
            && s@ == "en"@),
        text_outcome(r) == stored_or(Err(cause), DEFAULT_COMMAND_PREFIX@) ==> (r matches Err(e)
            && e.code == cause.code && e.message@ == cause.message@ && (e.detail is Some
            <==> cause.detail is Some) && (e.detail is Some ==> e.detail->0@ == cause.detail->0@)),
        text_outcome(r) == stored_or(Err(cause), DEFAULT_MESSAGE_LANGUAGE@) ==> (r matches Err(e)
            && e.code == cause.code && e.message@ == cause.message@ && (e.detail is Some
            <==> cause.detail is Some) && (e.detail is Some ==> e.detail->0@ == cause.detail->0@)),
{
}

/// The command prefix, from what is stored.
pub fn get_chat_command_prefix_core(stored: Result<Option<String>, AppCommandError>) -> (r: Result<
    String,
    AppCommandError,
>)
    ensures
        text_outcome(r) == stored_or(stored, DEFAULT_COMMAND_PREFIX@),
{
    match stored {
        Ok(Some(value)) => Ok(value),
        Ok(None) => Ok(DEFAULT_COMMAND_PREFIX.to_owned()),
        Err(e) => Err(e),
    }
}

/// What storing the prefix `prefix`, which has no white space around it, comes to.
pub open spec fn prefix_outcome(prefix: Seq<char>, alphanumeric: bool) -> Result<
    WriteView,
    AppErrorView,
> {
    if 1 <= byte_len(prefix) <= 3 && !alphanumeric {
        Ok(WriteView { key: COMMAND_PREFIX_KEY@, value: prefix })
    } else {
        Err(
            failure(
                AppErrorCode::InvalidInput,
                "Prefix must be 1-3 non-alphanumeric characters"@,
            ),
        )
    }
}

/// A prefix is stored if and only if it has one to three bytes and no alphanumeric character, and
/// it is stored as it is; all others are refused alike.
pub proof fn law_which_prefixes_are_stored(
    prefix: Seq<char>,
    alphanumeric: bool,
    r: Result<MetadataWrite, AppCommandError>,
)
    requires
        write_outcome(r) == prefix_outcome(prefix, alphanumeric),
    ensures
        r is Ok <==> 1 <= encode_utf8(prefix).len() <= 3 && !alphanumeric,
        r matches Ok(write) ==> write.key@ == "chat_command_prefix"@ && write.value@ == prefix,
        r matches Err(e) ==> e.code == AppErrorCode::InvalidInput && e.message@
            == "Prefix must be 1-3 non-alphanumeric characters"@ && e.detail is None,
{
}

/// What storing the prefix `prefix` comes to.
pub open spec fn set_prefix_outcome(prefix: Seq<char>) -> Result<WriteView, AppErrorView> {
    prefix_outcome(trimmed(prefix), has_alphanumeric(trimmed(prefix)))
}

/// What is stored of a prefix is the prefix without the white space around it, if that has one to
/// three bytes and no alphanumeric character anywhere.
pub proof fn law_prefix_is_stored_trimmed(
    prefix: Seq<char>,
    r: Result<MetadataWrite, AppCommandError>,
)
    requires
        write_outcome(r) == set_prefix_outcome(prefix),
    ensures
        r is Ok <==> 1 <= encode_utf8(trimmed(prefix)).len() <= 3 && (forall|i: int|
            0 <= i < trimmed(prefix).len() ==> !crate::text::is_alphanumeric(
                #[trigger] trimmed(prefix)[i],
            )),
        r matches Ok(write) ==> write.key@ == "chat_command_prefix"@ && write.value@ == trimmed(
            prefix,
        ),
        r matches Err(e) ==> e.code == AppErrorCode::InvalidInput && e.message@
            == "Prefix must be 1-3 non-alphanumeric characters"@ && e.detail is None,
{
}

/// Accepts a prefix of one to three bytes, unless there is an alphanumeric character in it.
pub fn accept_prefix(prefix: &str, alphanumeric: bool) -> (r: Result<
    MetadataWrite,
    AppCommandError,
>)
    ensures
        write_outcome(r) == prefix_outcome(prefix@, alphanumeric),
{
    let len = prefix.as_bytes().len();
    if len == 0 || len > 3 || alphanumeric {
        Err(
            AppCommandError::invalid_input(
                "Prefix must be 1-3 non-alphanumeric characters".to_owned(),
            ),
        )
    } else {
        Ok(MetadataWrite { key: COMMAND_PREFIX_KEY, value: prefix.to_owned() })
    }
}

/// The command prefix to store: `prefix` without the white space around it.
pub fn set_chat_command_prefix_core(prefix: String) -> (r: Result<MetadataWrite, AppCommandError>)
    ensures
        write_outcome(r) == set_prefix_outcome(prefix@),
{
    let prefix = prefix.as_str().trim();
    let alphanumeric = any_alphanumeric(prefix);
    accept_prefix(prefix, alphanumeric)
}

/// Storing a prefix that is stored already stores the same prefix again.
pub proof fn law_stored_prefix_is_accepted(prefix: Seq<char>, stored: WriteView)
    requires
        prefix_outcome(trimmed(prefix), has_alphanumeric(trimmed(prefix))) == Ok::<
            WriteView,
            AppErrorView,
        >(stored),
    ensures
        prefix_outcome(trimmed(stored.value), has_alphanumeric(trimmed(stored.value))) == Ok::<
            WriteView,
            AppErrorView,
        >(stored),
{
    law_trim_idempotent(prefix);
}

/// The language of messages, from what is stored.
pub fn get_chat_message_language_core(
    stored: Result<Option<String>, AppCommandError>,
) -> (r: Result<String, AppCommandError>)
    ensures
        text_outcome(r) == stored_or(stored, DEFAULT_MESSAGE_LANGUAGE@),
{
    match stored {
        Ok(Some(value)) => Ok(value),
        Ok(None) => Ok(DEFAULT_MESSAGE_LANGUAGE.to_owned()),
        Err(e) => Err(e),
    }
}

/// The languages that messages can be in.
pub open spec fn supported_language(language: Seq<char>) -> bool {
    ||| language == "en"@
    ||| language == "zh-cn"@
    ||| language == "zh-tw"@
    ||| language == "ja"@
    ||| language == "ko"@
    ||| language == "es"@
    ||| language == "de"@
    ||| language == "fr"@
    ||| language == "pt"@
    ||| language == "ar"@
}

/// Whether messages can be in `language`.
pub fn is_supported_language(language: &str) -> (r: bool)
    ensures
        r == supported_language(language@),
{
    same_text(language, "en") || same_text(language, "zh-cn") || same_text(language, "zh-tw")
        || same_text(language, "ja") || same_text(language, "ko") || same_text(language, "es")
        || same_text(language, "de") || same_text(language, "fr") || same_text(language, "pt")
        || same_text(language, "ar")
}

/// What storing the language `language` comes to, of which `lowered` is the lower case.
pub open spec fn language_outcome(language: Seq<char>, lowered: Seq<char>) -> Result<
    WriteView,
    AppErrorView,
> {
    if supported_language(lowered) {
        Ok(WriteView { key: MESSAGE_LANGUAGE_KEY@, value: lowered })
    } else {
        Err(
            failure(
                AppErrorCode::InvalidInput,
                "Unsupported language: "@ + language
                    + ". Supported: en, zh-cn, zh-tw, ja, ko, es, de, fr, pt, ar"@,
            ),
        )
    }
}

/// A language is stored if and only if its lower case is one of the ten that there are, and it is
/// stored in lower case; any other is refused, and the failure names it as it was asked for.
pub proof fn law_which_languages_are_stored(
    language: Seq<char>,
    lowered: Seq<char>,
    r: Result<MetadataWrite, AppCommandError>,
)
    requires
        write_outcome(r) == language_outcome(language, lowered),
    ensures
        r is Ok <==> lowered == "en"@ || lowered == "zh-cn"@ || lowered == "zh-tw"@ || lowered
            == "ja"@ || lowered == "ko"@ || lowered == "es"@ || lowered == "de"@ || lowered
            == "fr"@ || lowered == "pt"@ || lowered == "ar"@,
        r matches Ok(write) ==> write.key@ == "chat_message_language"@ && write.value@ == lowered,
        r matches Err(e) ==> e.code == AppErrorCode::InvalidInput && e.message@
            == "Unsupported language: "@ + language
            + ". Supported: en, zh-cn, zh-tw, ja, ko, es, de, fr, pt, ar"@ && e.detail is None,
{
}

/// What storing the language `language` comes to.
pub open spec fn set_language_outcome(language: Seq<char>) -> Result<WriteView, AppErrorView> {
    language_outcome(language, lower_case(language))
}

/// What is stored of a language is the whole of it in lower case, if that is one of the ten that
/// there are.
pub proof fn law_language_is_stored_in_lower_case(
    language: Seq<char>,
    r: Result<MetadataWrite, AppCommandError>,
)
    requires
        write_outcome(r) == set_language_outcome(language),
    ensures
        ({
            let lowered = lower_case(language);
            r is Ok <==> lowered == "en"@ || lowered == "zh-cn"@ || lowered == "zh-tw"@ || lowered
                == "ja"@ || lowered == "ko"@ || lowered == "es"@ || lowered == "de"@ || lowered
                == "fr"@ || lowered == "pt"@ || lowered == "ar"@
        }),
        r matches Ok(write) ==> write.key@ == "chat_message_language"@ && write.value@
            == lower_case(language),
        r matches Err(e) ==> e.code == AppErrorCode::InvalidInput && e.message@
            == "Unsupported language: "@ + language
            + ". Supported: en, zh-cn, zh-tw, ja, ko, es, de, fr, pt, ar"@ && e.detail is None,
{
}

/// Accepts a language by its lower case, `lowered`.
pub fn accept_language(language: &str, lowered: String) -> (r: Result<
    MetadataWrite,
    AppCommandError,
>)
    ensures
        write_outcome(r) == language_outcome(language@, lowered@),
{
    if is_supported_language(lowered.as_str()) {
        Ok(MetadataWrite { key: MESSAGE_LANGUAGE_KEY, value: lowered })
    } else {
        Err(
            AppCommandError::invalid_input(
                "Unsupported language: ".to_owned().concat(language).concat(
                    ". Supported: en, zh-cn, zh-tw, ja, ko, es, de, fr, pt, ar",
                ),
            ),
        )
    }
}

/// The language of messages to store: `language` in lower case.
pub fn set_chat_message_language_core(language: String) -> (r: Result<
    MetadataWrite,
    AppCommandError,
>)
    ensures
        write_outcome(r) == set_language_outcome(language@),
{
    let lowered = language.as_str().to_lowercase();
    accept_language(language.as_str(), lowered)
}

/// Whatever language is asked for, what is stored is one of the supported languages.
pub proof fn law_stored_language_is_supported(
    language: Seq<char>,
    lowered: Seq<char>,
    stored: WriteView,
)
    requires
        language_outcome(language, lowered) == Ok::<WriteView, AppErrorView>(stored),
    ensures
        supported_language(stored.value),
        stored.key == MESSAGE_LANGUAGE_KEY@,
{
}

/// An event filter by the names in it: the events to pass on, or `None` for all of them.
pub open spec fn filter_view(filter: Option<Vec<String>>) -> Option<Seq<Seq<char>>> {
    match filter {
        Some(names) => Some(names.deep_view()),
        None => None,
    }
}

/// An outcome with an event filter by the texts in it.
pub open spec fn filter_outcome(r: Result<Option<Vec<String>>, AppCommandError>) -> Result<
    Option<Seq<Seq<char>>>,
    AppErrorView,
> {
    match r {
        Ok(filter) => Ok(filter_view(filter)),
        Err(e) => Err(e@),
    }
}

/// The text that is stored for an event filter.
pub open spec fn filter_text(filter: Option<Seq<Seq<char>>>) -> Seq<char> {
    match filter {
        Some(names) => names_text(names),
        None => "null"@,
    }
}

/// What a stored text comes to, where reading it came to `parsed`.
pub open spec fn parsed_filter(
    parsed: Result<Option<Seq<Seq<char>>>, Seq<char>>,
) -> Result<Option<Seq<Seq<char>>>, AppErrorView> {
    match parsed {
        Ok(filter) => Ok(filter),
        Err(message) => Err(failure(AppErrorCode::InvalidInput, message)),
    }
}

/// What the event filter comes to, from what is stored.
pub open spec fn stored_filter(stored: Result<Option<String>, AppCommandError>) -> Result<
    Option<Seq<Seq<char>>>,
    AppErrorView,
> {
    match stored {
        Ok(Some(text)) => parsed_filter(parsed_names(text@)),
        Ok(None) => Ok(None),
        Err(e) => Err(e@),
    }
}

/// The event filter is the list of names that the stored text holds, all of them in their order;
/// a null, and nothing stored, are no filter. A text that holds neither is refused with the
/// reader's reason, and a failure to load stays what it is.
pub proof fn law_stored_filter_is_read(
    text: String,
    list: Seq<Seq<char>>,
    message: Seq<char>,
    cause: AppCommandError,
    r: Result<Option<Vec<String>>, AppCommandError>,
)
    ensures
        filter_outcome(r) == stored_filter(Ok(Some(text))) && parsed_names(text@) == Ok::<
            Option<Seq<Seq<char>>>,
            Seq<char>,
        >(Some(list)) ==> (r matches Ok(Some(names)) && names@.len() == list.len() && (forall|
            i: int,
        |
            0 <= i < list.len() ==> (#[trigger] names@[i])@ == list[i])),
        filter_outcome(r) == stored_filter(Ok(Some(text))) && parsed_names(text@) == Ok::<
            Option<Seq<Seq<char>>>,
            Seq<char>,
        >(None) ==> (r matches Ok(None)),
        filter_outcome(r) == stored_filter(Ok(Some(text))) && parsed_names(text@) == Err::<
            Option<Seq<Seq<char>>>,
            Seq<char>,
        >(message) ==> (r matches Err(e) && e.code == AppErrorCode::InvalidInput && e.message@
            == message && e.detail is None),
        filter_outcome(r) == stored_filter(Ok(None)) ==> (r matches Ok(None)),
        filter_outcome(r) == stored_filter(Err(cause)) ==> (r matches Err(e) && e.code
            == cause.code && e.message@ == cause.message@ && (e.detail is Some <==> cause.detail
            is Some) && (e.detail is Some ==> e.detail->0@ == cause.detail->0@)),
{
    if filter_outcome(r) == stored_filter(Ok(Some(text))) && parsed_names(text@) == Ok::<
        Option<Seq<Seq<char>>>,
        Seq<char>,
    >(Some(list)) {
        let names = r->Ok_0->Some_0;
        assert(names.deep_view() == list);
        assert forall|i: int| 0 <= i < list.len() implies (#[trigger] names@[i])@ == list[i] by {
            assert(names.deep_view()[i] == names@[i]@);
        }
    }
}

/// The event filter, from what came of reading the stored text.
pub fn accept_filter(parsed: Result<Option<Vec<String>>, String>) -> (r: Result<
    Option<Vec<String>>,
    AppCommandError,
>)
    ensures
        filter_outcome(r) == parsed_filter(names_view(parsed)),
{
    match parsed {
        Ok(filter) => Ok(filter),
        Err(message) => Err(AppCommandError::invalid_input(message)),
    }
}

/// The event filter, from what is stored; nothing stored is no filter. What
/// [`set_chat_event_filter_core`] stored for a filter gives that filter back.
pub fn get_chat_event_filter_core(stored: Result<Option<String>, AppCommandError>) -> (r: Result<
    Option<Vec<String>>,
    AppCommandError,
>)
    ensures
        filter_outcome(r) == stored_filter(stored),
        forall|filter: Option<Seq<Seq<char>>>|
            stored matches Ok(Some(text)) && text@ == #[trigger] filter_text(filter)
                ==> filter_outcome(r) == Ok::<Option<Seq<Seq<char>>>, AppErrorView>(filter),
{
    match stored {
        Ok(Some(text)) => {
            let parsed = parse_names(text.as_str());
            accept_filter(parsed)
        },
        Ok(None) => Ok(None),
        Err(e) => Err(e),
    }
}

/// What storing a filter comes to, where writing it came to `text`.
pub open spec fn written_filter(text: Result<String, String>) -> Result<WriteView, AppErrorView> {
    match text {
        Ok(text) => Ok(WriteView { key: EVENT_FILTER_KEY@, value: text@ }),
        Err(message) => Err(failure(AppErrorCode::InvalidInput, message@)),
    }
}

/// What storing an event filter comes to.
pub open spec fn set_filter_outcome(filter: Option<Vec<String>>) -> Result<
    WriteView,
    AppErrorView,
> {
    Ok(WriteView { key: EVENT_FILTER_KEY@, value: filter_text(filter_view(filter)) })
}

/// An event filter is always stored: as the text of all its names, or as a null where there is
/// none.
pub proof fn law_every_filter_is_stored(
    filter: Option<Vec<String>>,
    r: Result<MetadataWrite, AppCommandError>,
)
    requires
        write_outcome(r) == set_filter_outcome(filter),
    ensures
        r matches Ok(write) && write.key@ == "chat_event_filter"@,
        filter is None ==> r->Ok_0.value@ == "null"@,
        filter matches Some(names) ==> r->Ok_0.value@ == names_text(
            names@.map_values(|name: String| name@),
        ),
{
    if let Some(names) = filter {
        assert(names.deep_view() =~= names@.map_values(|name: String| name@));
    }
}

/// A text that a filter was written as is stored as it is; a filter that could not be written is
/// refused with the writer's reason.
pub proof fn law_written_filter_is_stored(
    text: Result<String, String>,
    r: Result<MetadataWrite, AppCommandError>,
)
    requires
        write_outcome(r) == written_filter(text),
    ensures
        text matches Ok(t) ==> (r matches Ok(write) && write.key@ == "chat_event_filter"@
            && write.value@ == t@),
        text matches Err(message) ==> (r matches Err(e) && e.code == AppErrorCode::InvalidInput
            && e.message@ == message@ && e.detail is None),
{
}

/// The event filter to store, from what came of writing it as a text.
pub fn accept_filter_text(text: Result<String, String>) -> (r: Result<
    MetadataWrite,
    AppCommandError,
>)
    ensures
        write_outcome(r) == written_filter(text),
{
    match text {
        Ok(text) => Ok(MetadataWrite { key: EVENT_FILTER_KEY, value: text }),
        Err(message) => Err(AppCommandError::invalid_input(message)),
    }
}

/// The event filter to store; no filter is stored as a null.
pub fn set_chat_event_filter_core(filter: Option<Vec<String>>) -> (r: Result<
    MetadataWrite,
    AppCommandError,
>)
    ensures
        write_outcome(r) == set_filter_outcome(filter),
{
    match filter {
        Some(names) => {
            let text = write_names(&names);
            accept_filter_text(text)
        },
        None => accept_filter_text(Ok("null".to_owned())),
    }
}

} // verus!
