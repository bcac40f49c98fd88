//! The settings data model: the stored record, the patch document, the
//! provider enums, the default constants, and the spec-level views.

use vstd::prelude::*;
use crate::tristate::Setting;

verus! {

/// Default system prompt handed to the model at the start of a conversation.
pub const DEFAULT_CHAT_SYSTEM_PROMPT: &'static str = "You are a helpful search assistant. Answer using only the documents returned by the search tool.";

/// Default description of the search tool itself.
pub const DEFAULT_CHAT_SEARCH_DESCRIPTION_PROMPT: &'static str = "Search the documents of an index and return the most relevant ones.";

/// Default description of the search tool's query parameter.
pub const DEFAULT_CHAT_SEARCH_Q_PARAM_PROMPT: &'static str = "The query string to search for, written in natural language.";

/// Default description of the search tool's index parameter.
pub const DEFAULT_CHAT_SEARCH_INDEX_UID_PARAM_PROMPT: &'static str = "The identifier of the index to search in.";

/// Default text prepended to the conversation before the user's query.
pub const DEFAULT_CHAT_PRE_QUERY_PROMPT: &'static str = "Answer the question that follows using the search results.";

/// Fixed sentinel that replaces a stored API key on read paths.
pub const MASKED_API_KEY: &'static str = "XXX...";

/// Provider selector as it appears on the wire.
#[derive(Debug, Clone, Copy, PartialEq, Eq, Structural)]
pub enum ChatCompletionSource {
    OpenAi,
}

/// Provider selector as it is stored. Kept separate from the wire enum so
/// that stored variants need not all be reachable from the wire.
#[derive(Debug, Clone, Copy, PartialEq, Eq, Structural)]
pub enum DbChatCompletionSource {
    OpenAi,
}

/// Translation applied to the wire enum on the `SetTo` branch of a merge.
pub open spec fn spec_source_of(source: ChatCompletionSource) -> DbChatCompletionSource {
    match source {
        ChatCompletionSource::OpenAi => DbChatCompletionSource::OpenAi,
    }
}

impl core::default::Default for DbChatCompletionSource {
    fn default() -> (r: Self)
        ensures
            r == DbChatCompletionSource::OpenAi,
    {
        DbChatCompletionSource::OpenAi
    }
}

impl core::default::Default for ChatCompletionSource {
    fn default() -> (r: Self)
        ensures
            r == ChatCompletionSource::OpenAi,
    {
        ChatCompletionSource::OpenAi
    }
}

impl From<ChatCompletionSource> for DbChatCompletionSource {
    fn from(source: ChatCompletionSource) -> (r: Self)
        ensures
            r == spec_source_of(source),
    {
        match source {
            ChatCompletionSource::OpenAi => DbChatCompletionSource::OpenAi,
        }
    }
}

impl vstd::std_specs::convert::FromSpecImpl<ChatCompletionSource> for DbChatCompletionSource {
    open spec fn obeys_from_spec() -> bool {
        true
    }

    open spec fn from_spec(source: ChatCompletionSource) -> Self {
        spec_source_of(source)
    }
}

/// The five prompt texts of a stored record. Always fully populated.
#[derive(Debug, PartialEq)]
pub struct ChatCompletionPrompts {
    pub system: String,
    pub search_description: String,
    pub search_q_param: String,
    pub search_index_uid_param: String,
    pub pre_query: String,
}

/// A stored settings record. Every field carries either an explicit value
/// or its documented default; storage has no "unset" state.
#[derive(Debug, PartialEq)]
pub struct ChatCompletionSettings {
    pub source: DbChatCompletionSource,
    pub base_api: Option<String>,
    pub api_key: Option<String>,
    pub prompts: ChatCompletionPrompts,
}

/// Spec-level image of `ChatCompletionPrompts`.
#[verifier::ext_equal]
pub struct PromptsView {
    pub system: Seq<char>,
    pub search_description: Seq<char>,
    pub search_q_param: Seq<char>,
    pub search_index_uid_param: Seq<char>,
    pub pre_query: Seq<char>,
}

/// Spec-level image of `ChatCompletionSettings`.
#[verifier::ext_equal]
pub struct SettingsView {
    pub source: DbChatCompletionSource,
    pub base_api: Option<Seq<char>>,
    pub api_key: Option<Seq<char>>,
    pub prompts: PromptsView,
}

impl View for ChatCompletionPrompts {
    type V = PromptsView;

    open spec fn view(&self) -> PromptsView {
        PromptsView {
            system: self.system@,
            search_description: self.search_description@,
            search_q_param: self.search_q_param@,
            search_index_uid_param: self.search_index_uid_param@,
            pre_query: self.pre_query@,
        }
    }
}

impl View for ChatCompletionSettings {
    type V = SettingsView;

    open spec fn view(&self) -> SettingsView {
        SettingsView {
            source: self.source,
            base_api: match self.base_api {
                Some(s) => Some(s@),
                None => None,
            },
            api_key: match self.api_key {
                Some(s) => Some(s@),
                None => None,
            },
            prompts: self.prompts@,
        }
    }
}

/// The all-default prompt set, at the spec level.
pub open spec fn spec_default_prompts() -> PromptsView {
    PromptsView {
        system: DEFAULT_CHAT_SYSTEM_PROMPT@,
        search_description: DEFAULT_CHAT_SEARCH_DESCRIPTION_PROMPT@,
        search_q_param: DEFAULT_CHAT_SEARCH_Q_PARAM_PROMPT@,
        search_index_uid_param: DEFAULT_CHAT_SEARCH_INDEX_UID_PARAM_PROMPT@,
        pre_query: DEFAULT_CHAT_PRE_QUERY_PROMPT@,
    }
}

/// The all-default settings record, at the spec level.
pub open spec fn spec_default_settings() -> SettingsView {
    SettingsView {
        source: DbChatCompletionSource::OpenAi,
        base_api: None,
        api_key: None,
        prompts: spec_default_prompts(),
    }
}

impl core::default::Default for ChatCompletionPrompts {
    fn default() -> (r: Self)
        ensures
            r@ == spec_default_prompts(),
    {
        ChatCompletionPrompts {
            system: DEFAULT_CHAT_SYSTEM_PROMPT.to_owned(),
            search_description: DEFAULT_CHAT_SEARCH_DESCRIPTION_PROMPT.to_owned(),
            search_q_param: DEFAULT_CHAT_SEARCH_Q_PARAM_PROMPT.to_owned(),
            search_index_uid_param: DEFAULT_CHAT_SEARCH_INDEX_UID_PARAM_PROMPT.to_owned(),
            pre_query: DEFAULT_CHAT_PRE_QUERY_PROMPT.to_owned(),
        }
    }
}

impl core::default::Default for ChatCompletionSettings {
    fn default() -> (r: Self)
        ensures
            r@ == spec_default_settings(),
    {
        ChatCompletionSettings {
            source: DbChatCompletionSource::OpenAi,
            base_api: None,
            api_key: None,
            prompts: ChatCompletionPrompts::default(),
        }
    }
}

impl Clone for ChatCompletionPrompts {
    fn clone(&self) -> (r: Self)
        ensures
            r == *self,
    {
        ChatCompletionPrompts {
            system: self.system.clone(),
            search_description: self.search_description.clone(),
            search_q_param: self.search_q_param.clone(),
            search_index_uid_param: self.search_index_uid_param.clone(),
            pre_query: self.pre_query.clone(),
        }
    }
}

impl Clone for ChatCompletionSettings {
    fn clone(&self) -> (r: Self)
        ensures
            r == *self,
    {
        ChatCompletionSettings {
            source: self.source,
            base_api: match &self.base_api {
                Some(s) => Some(s.clone()),
                None => None,
            },
            api_key: match &self.api_key {
                Some(s) => Some(s.clone()),
                None => None,
            },
            prompts: self.prompts.clone(),
        }
    }
}

/// The image of a record after redaction: the API key, if present, is
/// replaced by the fixed masked sentinel; every other field is untouched.
pub open spec fn spec_redact(s: SettingsView) -> SettingsView {
    SettingsView {
        api_key: match s.api_key {
            Some(_) => Some(MASKED_API_KEY@),
            None => None,
        },
        ..s
    }
}

impl ChatCompletionSettings {
    /// Mask the secret-bearing field in place. Applied only to owned copies
    /// on read paths, never to the value handed to the store.
    pub fn hide_secrets(&mut self)
        ensures
            final(self)@ == spec_redact(old(self)@),
    {
        match &self.api_key {
            Some(_) => {
                self.api_key = Some(MASKED_API_KEY.to_owned());
            },
            None => {},
        }
    }
}

/// A patch for the prompt sub-object: each prompt independently tri-stated.
#[derive(Debug, Clone)]
pub struct ChatPrompts {
    pub system: Setting<String>,
    pub search_description: Setting<String>,
    pub search_q_param: Setting<String>,
    pub search_index_uid_param: Setting<String>,
    pub pre_query: Setting<String>,
}

/// A patch document: structurally the stored record with every field
/// tri-stated, the prompt sub-object itself tri-stated as a whole.
#[derive(Debug, Clone)]
pub struct GlobalChatSettings {
    pub source: Setting<ChatCompletionSource>,
    pub base_api: Setting<String>,
    pub api_key: Setting<String>,
    pub prompts: Setting<ChatPrompts>,
}

/// The prompt sub-patch that mentions nothing.
pub open spec fn spec_empty_prompts_patch() -> ChatPrompts {
    ChatPrompts {
        system: Setting::NotSet,
        search_description: Setting::NotSet,
        search_q_param: Setting::NotSet,
        search_index_uid_param: Setting::NotSet,
        pre_query: Setting::NotSet,
    }
}

/// The patch that mentions nothing: every field `NotSet`.
pub open spec fn spec_empty_patch() -> GlobalChatSettings {
    GlobalChatSettings {
        source: Setting::NotSet,
        base_api: Setting::NotSet,
        api_key: Setting::NotSet,
        prompts: Setting::NotSet,
    }
}

impl core::default::Default for ChatPrompts {
    fn default() -> (r: Self)
        ensures
            r == spec_empty_prompts_patch(),
    {
        ChatPrompts {
            system: Setting::NotSet,
            search_description: Setting::NotSet,
            search_q_param: Setting::NotSet,
            search_index_uid_param: Setting::NotSet,
            pre_query: Setting::NotSet,
        }
    }
}

impl core::default::Default for GlobalChatSettings {
    fn default() -> (r: Self)
        ensures
            r == spec_empty_patch(),
    {
        GlobalChatSettings {
            source: Setting::NotSet,
            base_api: Setting::NotSet,
            api_key: Setting::NotSet,
            prompts: Setting::NotSet,
        }
    }
}

} // verus!
