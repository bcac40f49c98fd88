use chat_settings::merge::merge_settings;
use chat_settings::model::{
    ChatCompletionPrompts, ChatCompletionSettings, ChatCompletionSource, ChatPrompts,
    DbChatCompletionSource, GlobalChatSettings, DEFAULT_CHAT_PRE_QUERY_PROMPT,
    DEFAULT_CHAT_SEARCH_DESCRIPTION_PROMPT, DEFAULT_CHAT_SEARCH_INDEX_UID_PARAM_PROMPT,
    DEFAULT_CHAT_SEARCH_Q_PARAM_PROMPT, DEFAULT_CHAT_SYSTEM_PROMPT,
};
use chat_settings::tristate::Setting;

fn empty_patch() -> GlobalChatSettings {
    GlobalChatSettings {
        source: Setting::NotSet,
        base_api: Setting::NotSet,
        api_key: Setting::NotSet,
        prompts: Setting::NotSet,
    }
}

fn empty_prompts_patch() -> ChatPrompts {
    ChatPrompts {
        system: Setting::NotSet,
        search_description: Setting::NotSet,
        search_q_param: Setting::NotSet,
        search_index_uid_param: Setting::NotSet,
        pre_query: Setting::NotSet,
    }
}

fn custom_record() -> ChatCompletionSettings {
    ChatCompletionSettings {
        source: DbChatCompletionSource::OpenAi,
        base_api: Some("https://example.invalid/v1".to_string()),
        api_key: Some("sk-secret".to_string()),
        prompts: ChatCompletionPrompts {
            system: "custom system".to_string(),
            search_description: "custom search description".to_string(),
            search_q_param: "custom q param".to_string(),
            search_index_uid_param: "custom index param".to_string(),
            pre_query: "custom pre query".to_string(),
        },
    }
}

#[test]
fn default_record_is_fully_populated() {
    let d = ChatCompletionSettings::default();
    assert_eq!(d.source, DbChatCompletionSource::OpenAi);
    assert_eq!(d.base_api, None);
    assert_eq!(d.api_key, None);
    assert_eq!(d.prompts.system, DEFAULT_CHAT_SYSTEM_PROMPT);
    assert_eq!(d.prompts.search_description, DEFAULT_CHAT_SEARCH_DESCRIPTION_PROMPT);
    assert_eq!(d.prompts.search_q_param, DEFAULT_CHAT_SEARCH_Q_PARAM_PROMPT);
    assert_eq!(
        d.prompts.search_index_uid_param,
        DEFAULT_CHAT_SEARCH_INDEX_UID_PARAM_PROMPT
    );
    assert_eq!(d.prompts.pre_query, DEFAULT_CHAT_PRE_QUERY_PROMPT);
}

#[test]
fn reset_restores_every_default() {
    let mut patch = empty_patch();
    patch.source = Setting::Reset;
    patch.base_api = Setting::Reset;
    patch.api_key = Setting::Reset;
    patch.prompts = Setting::Reset;
    let merged = merge_settings(custom_record(), patch);
    assert_eq!(merged, ChatCompletionSettings::default());
}

#[test]
fn reset_of_one_prompt_uses_its_own_default() {
    let mut sub = empty_prompts_patch();
    sub.system = Setting::Reset;
    let mut patch = empty_patch();
    patch.prompts = Setting::SetTo(sub);
    let merged = merge_settings(custom_record(), patch);
    assert_eq!(merged.prompts.system, DEFAULT_CHAT_SYSTEM_PROMPT);
    // the other prompts keep the stored values, not the defaults
    assert_eq!(merged.prompts.search_description, "custom search description");
    assert_eq!(merged.prompts.pre_query, "custom pre query");
    assert_eq!(merged.api_key, Some("sk-secret".to_string()));
}

#[test]
fn unspecified_patch_changes_nothing() {
    let merged = merge_settings(custom_record(), empty_patch());
    assert_eq!(merged, custom_record());
}

#[test]
fn empty_patch_on_defaults_keeps_defaults() {
    let merged = merge_settings(ChatCompletionSettings::default(), empty_patch());
    assert_eq!(merged, ChatCompletionSettings::default());
}

#[test]
fn setting_system_leaves_all_other_fields_alone() {
    let mut sub = empty_prompts_patch();
    sub.system = Setting::SetTo("X".to_string());
    let mut patch = empty_patch();
    patch.prompts = Setting::SetTo(sub);
    let merged = merge_settings(custom_record(), patch);
    let expected = ChatCompletionSettings {
        prompts: ChatCompletionPrompts {
            system: "X".to_string(),
            ..custom_record().prompts
        },
        ..custom_record()
    };
    assert_eq!(merged, expected);
}

#[test]
fn set_source_translates_the_wire_enum() {
    let mut patch = empty_patch();
    patch.source = Setting::SetTo(ChatCompletionSource::OpenAi);
    let merged = merge_settings(ChatCompletionSettings::default(), patch);
    assert_eq!(merged.source, DbChatCompletionSource::OpenAi);
}

#[test]
fn set_and_reset_of_optional_fields() {
    let mut patch = empty_patch();
    patch.base_api = Setting::SetTo("https://api.example.invalid".to_string());
    let merged = merge_settings(ChatCompletionSettings::default(), patch);
    assert_eq!(merged.base_api, Some("https://api.example.invalid".to_string()));

    let mut patch2 = empty_patch();
    patch2.base_api = Setting::Reset;
    let merged2 = merge_settings(merged, patch2);
    assert_eq!(merged2.base_api, None);
}

#[test]
fn from_wire_source_to_storage_source() {
    assert_eq!(
        DbChatCompletionSource::from(ChatCompletionSource::OpenAi),
        DbChatCompletionSource::OpenAi
    );
    assert_eq!(DbChatCompletionSource::default(), DbChatCompletionSource::OpenAi);
}
