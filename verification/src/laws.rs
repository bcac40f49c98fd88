//! Laws of the merge engine and of redaction, stated once over all inputs
//! and proved against the spec functions the executable contracts use.

use vstd::prelude::*;
use crate::tristate::Setting;
use crate::model::{
    ChatPrompts, DbChatCompletionSource, GlobalChatSettings, PromptsView, SettingsView,
    spec_default_prompts, spec_default_settings, spec_empty_patch, spec_redact,
    DEFAULT_CHAT_PRE_QUERY_PROMPT, DEFAULT_CHAT_SEARCH_DESCRIPTION_PROMPT,
    DEFAULT_CHAT_SEARCH_INDEX_UID_PARAM_PROMPT, DEFAULT_CHAT_SEARCH_Q_PARAM_PROMPT,
    DEFAULT_CHAT_SYSTEM_PROMPT, MASKED_API_KEY,
};
use crate::merge::{spec_merge, spec_merge_prompts};

verus! {

/// A field patched with `Reset` always comes out at its documented default,
/// whatever the current record held: this holds of each top-level field,
/// of the prompt sub-object as a whole, and of each prompt inside a
/// `SetTo` sub-patch.
pub proof fn lemma_reset_restores_default(current: SettingsView, patch: GlobalChatSettings)
    ensures
        patch.source is Reset ==> spec_merge(current, patch).source == DbChatCompletionSource::OpenAi,
        patch.base_api is Reset ==> spec_merge(current, patch).base_api is None,
        patch.api_key is Reset ==> spec_merge(current, patch).api_key is None,
        patch.prompts is Reset ==> spec_merge(current, patch).prompts == spec_default_prompts(),
        forall|sub: ChatPrompts|
            patch.prompts == Setting::SetTo(sub) && sub.system is Reset
                ==> spec_merge(current, patch).prompts.system == DEFAULT_CHAT_SYSTEM_PROMPT@,
        forall|sub: ChatPrompts|
            patch.prompts == Setting::SetTo(sub) && sub.search_description is Reset
                ==> spec_merge(current, patch).prompts.search_description
                    == DEFAULT_CHAT_SEARCH_DESCRIPTION_PROMPT@,
        forall|sub: ChatPrompts|
            patch.prompts == Setting::SetTo(sub) && sub.search_q_param is Reset
                ==> spec_merge(current, patch).prompts.search_q_param
                    == DEFAULT_CHAT_SEARCH_Q_PARAM_PROMPT@,
        forall|sub: ChatPrompts|
            patch.prompts == Setting::SetTo(sub) && sub.search_index_uid_param is Reset
                ==> spec_merge(current, patch).prompts.search_index_uid_param
                    == DEFAULT_CHAT_SEARCH_INDEX_UID_PARAM_PROMPT@,
        forall|sub: ChatPrompts|
            patch.prompts == Setting::SetTo(sub) && sub.pre_query is Reset
                ==> spec_merge(current, patch).prompts.pre_query
                    == DEFAULT_CHAT_PRE_QUERY_PROMPT@,
{
}

/// A patch whose fields are all `NotSet` changes nothing: the merge returns
/// the current record exactly.
pub proof fn lemma_unspecified_is_identity(current: SettingsView, patch: GlobalChatSettings)
    requires
        patch.source is NotSet,
        patch.base_api is NotSet,
        patch.api_key is NotSet,
        patch.prompts is NotSet,
    ensures
        spec_merge(current, patch) == current,
{
    assert(spec_merge(current, patch) =~= current);
}

/// Merging the empty patch into the all-defaults record yields the
/// all-defaults record again: merging is total and never leaves a field
/// unpopulated.
pub proof fn lemma_total_defaulting()
    ensures
        spec_merge(spec_default_settings(), spec_empty_patch()) == spec_default_settings(),
{
    lemma_unspecified_is_identity(spec_default_settings(), spec_empty_patch());
}

/// Fields resolve independently: a patch that touches nothing but the
/// `system` prompt leaves every top-level field and every other prompt
/// exactly as the current record had it.
pub proof fn lemma_independence(current: SettingsView, patch: GlobalChatSettings, sub: ChatPrompts)
    requires
        patch.source is NotSet,
        patch.base_api is NotSet,
        patch.api_key is NotSet,
        patch.prompts == Setting::SetTo(sub),
        sub.search_description is NotSet,
        sub.search_q_param is NotSet,
        sub.search_index_uid_param is NotSet,
        sub.pre_query is NotSet,
    ensures
        spec_merge(current, patch).source == current.source,
        spec_merge(current, patch).base_api == current.base_api,
        spec_merge(current, patch).api_key == current.api_key,
        spec_merge(current, patch).prompts.search_description == current.prompts.search_description,
        spec_merge(current, patch).prompts.search_q_param == current.prompts.search_q_param,
        spec_merge(current, patch).prompts.search_index_uid_param == current.prompts.search_index_uid_param,
        spec_merge(current, patch).prompts.pre_query == current.prompts.pre_query,
{
}

/// Inside a `SetTo` sub-patch, `NotSet` means "carry the current prompt
/// over", never "restore the default": a sub-patch that sets only `system`
/// yields the new `system` next to the current record's other four prompts,
/// whether or not those match the global defaults.
pub proof fn lemma_nested_reset_granularity(current: PromptsView, sub: ChatPrompts, text: String)
    requires
        sub.system == Setting::SetTo(text),
        sub.search_description is NotSet,
        sub.search_q_param is NotSet,
        sub.search_index_uid_param is NotSet,
        sub.pre_query is NotSet,
    ensures
        spec_merge_prompts(current, Setting::SetTo(sub)) == (PromptsView {
            system: text@,
            ..current
        }),
{
    assert(spec_merge_prompts(current, Setting::SetTo(sub)) =~= PromptsView { system: text@, ..current });
}

/// Redaction masks the API key and nothing else: the redacted copy's key is
/// the fixed sentinel when one was stored and absent otherwise, and every
/// other field equals the input's. It is a copy that is masked; the stored
/// record itself is never rewritten.
pub proof fn lemma_redaction_masks_only_the_key(s: SettingsView)
    ensures
        s.api_key is Some ==> spec_redact(s).api_key == Some(MASKED_API_KEY@),
        s.api_key is None ==> spec_redact(s).api_key is None,
        spec_redact(s).source == s.source,
        spec_redact(s).base_api == s.base_api,
        spec_redact(s).prompts == s.prompts,
{
}

/// Deleting removes exactly the named workspace: the new contents hold no
/// record for it — so a later read reports it not found — while every
/// other workspace keeps its record unchanged. Deleting a workspace that
/// holds no record changes nothing (the delete operation's own contract
/// already leaves the store untouched in that case).
pub proof fn lemma_delete_semantics(m: Map<Seq<char>, SettingsView>, workspace_uid: Seq<char>)
    ensures
        !m.remove(workspace_uid).contains_key(workspace_uid),
        forall|k: Seq<char>|
            k != workspace_uid
                ==> #[trigger] m.remove(workspace_uid).contains_key(k) == m.contains_key(k),
        forall|k: Seq<char>|
            k != workspace_uid && m.contains_key(k)
                ==> #[trigger] m.remove(workspace_uid)[k] == m[k],
{
}

} // verus!
