//! The settings merge engine: pure, total and deterministic. Given the
//! current record (the stored one, or the all-defaults record when none is
//! stored) and a patch, it resolves every field independently:
//! `NotSet` carries the current value over, `Reset` restores the field's
//! documented default, and `SetTo` installs the new value.

use vstd::prelude::*;
use crate::tristate::Setting;
use crate::model::{
    ChatCompletionPrompts, ChatCompletionSettings, ChatPrompts,
    DbChatCompletionSource, GlobalChatSettings, PromptsView, SettingsView, spec_default_prompts,
    spec_source_of, DEFAULT_CHAT_PRE_QUERY_PROMPT, DEFAULT_CHAT_SEARCH_DESCRIPTION_PROMPT,
    DEFAULT_CHAT_SEARCH_INDEX_UID_PARAM_PROMPT, DEFAULT_CHAT_SEARCH_Q_PARAM_PROMPT,
    DEFAULT_CHAT_SYSTEM_PROMPT,
};

verus! {

/// Resolution of the `prompts` composite field. `Reset` restores the whole
/// all-default prompt set; `SetTo` resolves each of the five prompts
/// independently against the current ones, so a prompt the sub-patch does
/// not mention is carried over, never defaulted.
pub open spec fn spec_merge_prompts(current: PromptsView, patch: Setting<ChatPrompts>) -> PromptsView {
    match patch {
        Setting::SetTo(sub) => PromptsView {
            system: match sub.system {
                Setting::SetTo(s) => s@,
                Setting::Reset => DEFAULT_CHAT_SYSTEM_PROMPT@,
                Setting::NotSet => current.system,
            },
            search_description: match sub.search_description {
                Setting::SetTo(s) => s@,
                Setting::Reset => DEFAULT_CHAT_SEARCH_DESCRIPTION_PROMPT@,
                Setting::NotSet => current.search_description,
            },
            search_q_param: match sub.search_q_param {
                Setting::SetTo(s) => s@,
                Setting::Reset => DEFAULT_CHAT_SEARCH_Q_PARAM_PROMPT@,
                Setting::NotSet => current.search_q_param,
            },
            search_index_uid_param: match sub.search_index_uid_param {
                Setting::SetTo(s) => s@,
                Setting::Reset => DEFAULT_CHAT_SEARCH_INDEX_UID_PARAM_PROMPT@,
                Setting::NotSet => current.search_index_uid_param,
            },
            pre_query: match sub.pre_query {
                Setting::SetTo(s) => s@,
                Setting::Reset => DEFAULT_CHAT_PRE_QUERY_PROMPT@,
                Setting::NotSet => current.pre_query,
            },
        },
        Setting::Reset => spec_default_prompts(),
        Setting::NotSet => current,
    }
}

/// Resolution of a whole patch against the current record. The `source`
/// field translates the wire enum only on the `SetTo` branch; its `Reset`
/// branch uses the storage enum's own default.
pub open spec fn spec_merge(current: SettingsView, patch: GlobalChatSettings) -> SettingsView {
    SettingsView {
        source: match patch.source {
            Setting::SetTo(s) => spec_source_of(s),
            Setting::Reset => DbChatCompletionSource::OpenAi,
            Setting::NotSet => current.source,
        },
        base_api: match patch.base_api {
            Setting::SetTo(s) => Some(s@),
            Setting::Reset => None,
            Setting::NotSet => current.base_api,
        },
        api_key: match patch.api_key {
            Setting::SetTo(s) => Some(s@),
            Setting::Reset => None,
            Setting::NotSet => current.api_key,
        },
        prompts: spec_merge_prompts(current.prompts, patch.prompts),
    }
}

/// Apply a patch to the current record. Never fails: a malformed patch is
/// rejected at the boundary before a `GlobalChatSettings` exists.
pub fn merge_settings(old_settings: ChatCompletionSettings, new: GlobalChatSettings) -> (r: ChatCompletionSettings)
    ensures
        r@ == spec_merge(old_settings@, new),
{
    let prompts = match new.prompts {
        Setting::SetTo(new_prompts) => ChatCompletionPrompts {
            system: match new_prompts.system {
                Setting::SetTo(new_system) => new_system,
                Setting::Reset => DEFAULT_CHAT_SYSTEM_PROMPT.to_owned(),
                Setting::NotSet => old_settings.prompts.system,
            },
            search_description: match new_prompts.search_description {
                Setting::SetTo(new_description) => new_description,
                Setting::Reset => DEFAULT_CHAT_SEARCH_DESCRIPTION_PROMPT.to_owned(),
                Setting::NotSet => old_settings.prompts.search_description,
            },
            search_q_param: match new_prompts.search_q_param {
                Setting::SetTo(new_description) => new_description,
                Setting::Reset => DEFAULT_CHAT_SEARCH_Q_PARAM_PROMPT.to_owned(),
                Setting::NotSet => old_settings.prompts.search_q_param,
            },
            search_index_uid_param: match new_prompts.search_index_uid_param {
                Setting::SetTo(new_description) => new_description,
                Setting::Reset => DEFAULT_CHAT_SEARCH_INDEX_UID_PARAM_PROMPT.to_owned(),
                Setting::NotSet => old_settings.prompts.search_index_uid_param,
            },
            pre_query: match new_prompts.pre_query {
                Setting::SetTo(new_description) => new_description,
                Setting::Reset => DEFAULT_CHAT_PRE_QUERY_PROMPT.to_owned(),
                Setting::NotSet => old_settings.prompts.pre_query,
            },
        },
        Setting::Reset => ChatCompletionPrompts::default(),
        Setting::NotSet => old_settings.prompts,
    };

    ChatCompletionSettings {
        source: match new.source {
            Setting::SetTo(new_source) => DbChatCompletionSource::from(new_source),
            Setting::Reset => DbChatCompletionSource::default(),
            Setting::NotSet => old_settings.source,
        },
        base_api: match new.base_api {
            Setting::SetTo(new_base_api) => Some(new_base_api),
            Setting::Reset => None,
            Setting::NotSet => old_settings.base_api,
        },
        api_key: match new.api_key {
            Setting::SetTo(new_api_key) => Some(new_api_key),
            Setting::Reset => None,
            Setting::NotSet => old_settings.api_key,
        },
        prompts,
    }
}

} // verus!
