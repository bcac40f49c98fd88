//! The settings service: read, patch, delete and list operations over the
//! store, with not-found semantics and redaction on the read path.

use vstd::prelude::*;
use vstd::string::StringExecFns;
use crate::model::{
    ChatCompletionSettings, SettingsView, spec_default_settings, spec_redact,
};
use crate::merge::{merge_settings, spec_merge};
use crate::model::GlobalChatSettings;
use crate::store::{ChatSettingsDb, spec_page_len};

verus! {

/// The path parameter of every per-workspace route.
pub struct ChatsParam {
    pub workspace_uid: String,
}

/// How many workspaces a listing page holds when the query picks nothing.
pub const PAGINATION_DEFAULT_LIMIT: usize = 20;

/// Listing window, as a query carries it.
#[derive(Debug, Clone, Copy)]
pub struct ListChats {
    /// How many workspaces to skip before retrieving anything.
    pub offset: usize,
    /// How many workspaces to retrieve.
    pub limit: usize,
}

impl core::default::Default for ListChats {
    /// A query that names no window starts at the first workspace and
    /// takes the default page size.
    fn default() -> (r: Self)
        ensures
            r.offset == 0,
            r.limit == PAGINATION_DEFAULT_LIMIT,
    {
        ListChats { offset: 0, limit: PAGINATION_DEFAULT_LIMIT }
    }
}

/// Listing window, resolved.
#[derive(Debug, Clone, Copy)]
pub struct Pagination {
    pub offset: usize,
    pub limit: usize,
}

impl ListChats {
    pub fn as_pagination(self) -> (r: Pagination)
        ensures
            r.offset == self.offset,
            r.limit == self.limit,
    {
        Pagination { offset: self.offset, limit: self.limit }
    }
}

/// One workspace in a listing.
#[derive(Debug)]
pub struct ChatWorkspaceView {
    /// Unique identifier of the workspace.
    pub uid: String,
}

/// What a settings operation can fail with. Malformed patches never reach
/// this layer: they are rejected while the document is decoded.
#[derive(Debug)]
pub enum SettingsError {
    /// The named workspace has no settings record.
    ChatWorkspaceNotFound { workspace_uid: String },
}

impl SettingsError {
    /// The client-facing description of the failure.
    pub open spec fn spec_message(&self) -> Seq<char> {
        match self {
            SettingsError::ChatWorkspaceNotFound { workspace_uid } =>
                "Chat `"@ + workspace_uid@ + "` not found"@,
        }
    }

    /// Render the client-facing message.
    pub fn message(&self) -> (r: String)
        ensures
            r@ == self.spec_message(),
    {
        match self {
            SettingsError::ChatWorkspaceNotFound { workspace_uid } => {
                let mut msg = "Chat `".to_owned();
                msg.append(workspace_uid.as_str());
                msg.append("` not found");
                msg
            },
        }
    }
}

/// The record a patch merges into: the stored one, or the all-defaults
/// record when the workspace has none yet.
pub open spec fn spec_current_or_default(m: Map<Seq<char>, SettingsView>, k: Seq<char>) -> SettingsView {
    if m.contains_key(k) {
        m[k]
    } else {
        spec_default_settings()
    }
}

/// Read a workspace's settings, redacted for display. Fails with
/// `ChatWorkspaceNotFound` exactly when no record is stored; the store is
/// never changed.
pub fn get_settings(db: &ChatSettingsDb, workspace_uid: &String) -> (r: Result<
    ChatCompletionSettings,
    SettingsError,
>)
    requires
        db.wf(),
    ensures
        match r {
            Ok(settings) => db.contents().contains_key(workspace_uid@)
                && settings@ == spec_redact(db.contents()[workspace_uid@]),
            Err(SettingsError::ChatWorkspaceNotFound { workspace_uid: u }) =>
                !db.contents().contains_key(workspace_uid@) && u@ == workspace_uid@,
        },
{
    match db.chat_settings(workspace_uid) {
        Some(settings) => {
            let mut settings = settings.clone();
            settings.hide_secrets();
            Ok(settings)
        },
        None => Err(
            SettingsError::ChatWorkspaceNotFound { workspace_uid: workspace_uid.clone() },
        ),
    }
}

/// Apply a patch to a workspace's settings and persist the result. Absence
/// of a prior record is not an error: the patch merges into the
/// all-defaults record, so a workspace is created on first patch. Returns
/// the new record unredacted: the caller that issued the write is trusted
/// with its own secret.
pub fn patch_settings(db: &mut ChatSettingsDb, workspace_uid: &String, new: GlobalChatSettings) -> (r:
    ChatCompletionSettings)
    requires
        old(db).wf(),
    ensures
        final(db).wf(),
        r@ == spec_merge(spec_current_or_default(old(db).contents(), workspace_uid@), new),
        final(db).contents() == old(db).contents().insert(workspace_uid@, r@),
{
    let old_settings = match db.chat_settings(workspace_uid) {
        Some(settings) => settings.clone(),
        None => ChatCompletionSettings::default(),
    };
    let settings = merge_settings(old_settings, new);
    db.put_chat_settings(workspace_uid, &settings);
    settings
}

/// Delete a workspace's settings. Reports `Ok` only when a record existed
/// and is now gone; deleting an absent workspace fails with
/// `ChatWorkspaceNotFound` and leaves the store exactly as it was.
pub fn delete_settings(db: &mut ChatSettingsDb, workspace_uid: &String) -> (r: Result<
    (),
    SettingsError,
>)
    requires
        old(db).wf(),
    ensures
        final(db).wf(),
        match r {
            Ok(()) => old(db).contents().contains_key(workspace_uid@)
                && final(db).contents() == old(db).contents().remove(workspace_uid@),
            Err(SettingsError::ChatWorkspaceNotFound { workspace_uid: u }) =>
                !old(db).contents().contains_key(workspace_uid@)
                && *final(db) == *old(db)
                && u@ == workspace_uid@,
        },
{
    if db.delete_chat_settings(workspace_uid) {
        Ok(())
    } else {
        Err(SettingsError::ChatWorkspaceNotFound { workspace_uid: workspace_uid.clone() })
    }
}

/// List stored workspaces: the total count and one page of identifiers,
/// wrapped for display.
pub fn list_workspaces(db: &ChatSettingsDb, paginate: Pagination) -> (r: (usize, Vec<
    ChatWorkspaceView,
>))
    ensures
        r.0 == db.key_seq().len(),
        r.1@.len() == spec_page_len(db.key_seq().len() as int, paginate.offset as int, paginate.limit as int),
        forall|j: int| 0 <= j < r.1@.len()
            ==> (#[trigger] r.1@[j]).uid@ == db.key_seq()[paginate.offset + j],
{
    let (total, uids) = db.paginated_chat_workspace_uids(paginate.offset, paginate.limit);
    let mut workspaces: Vec<ChatWorkspaceView> = Vec::new();
    let mut i: usize = 0;
    while i < uids.len()
        invariant
            i <= uids@.len(),
            workspaces@.len() == i,
            forall|j: int| 0 <= j < i
                ==> (#[trigger] workspaces@[j]).uid@ == uids@[j]@,
        decreases uids@.len() - i,
    {
        workspaces.push(ChatWorkspaceView { uid: uids[i].clone() });
        i += 1;
    }
    (total, workspaces)
}

} // verus!
