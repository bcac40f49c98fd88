use chat_settings::model::ChatCompletionSettings;
use chat_settings::store::ChatSettingsDb;

#[test]
fn fresh_store_is_empty() {
    let db = ChatSettingsDb::new();
    let uid = "w".to_string();
    assert!(db.chat_settings(&uid).is_none());
    let (total, uids) = db.paginated_chat_workspace_uids(0, 10);
    assert_eq!(total, 0);
    assert!(uids.is_empty());
}

#[test]
fn put_then_get_returns_the_record() {
    let mut db = ChatSettingsDb::new();
    let uid = "w".to_string();
    let mut record = ChatCompletionSettings::default();
    record.api_key = Some("sk-1".to_string());
    db.put_chat_settings(&uid, &record);
    let got = db.chat_settings(&uid).expect("stored");
    assert_eq!(*got, record);
}

#[test]
fn put_replaces_an_existing_record() {
    let mut db = ChatSettingsDb::new();
    let uid = "w".to_string();
    let mut first = ChatCompletionSettings::default();
    first.base_api = Some("https://one.invalid".to_string());
    let mut second = ChatCompletionSettings::default();
    second.base_api = Some("https://two.invalid".to_string());
    db.put_chat_settings(&uid, &first);
    db.put_chat_settings(&uid, &second);
    let got = db.chat_settings(&uid).expect("stored");
    assert_eq!(got.base_api, Some("https://two.invalid".to_string()));
    let (total, _) = db.paginated_chat_workspace_uids(0, 10);
    assert_eq!(total, 1);
}

#[test]
fn delete_reports_whether_a_record_existed() {
    let mut db = ChatSettingsDb::new();
    let uid = "w".to_string();
    assert!(!db.delete_chat_settings(&uid));
    db.put_chat_settings(&uid, &ChatCompletionSettings::default());
    assert!(db.delete_chat_settings(&uid));
    assert!(db.chat_settings(&uid).is_none());
    assert!(!db.delete_chat_settings(&uid));
}

#[test]
fn records_of_other_workspaces_survive_a_delete() {
    let mut db = ChatSettingsDb::new();
    let a = "a".to_string();
    let b = "b".to_string();
    let c = "c".to_string();
    db.put_chat_settings(&a, &ChatCompletionSettings::default());
    db.put_chat_settings(&b, &ChatCompletionSettings::default());
    db.put_chat_settings(&c, &ChatCompletionSettings::default());
    assert!(db.delete_chat_settings(&b));
    assert!(db.chat_settings(&a).is_some());
    assert!(db.chat_settings(&b).is_none());
    assert!(db.chat_settings(&c).is_some());
    let (total, uids) = db.paginated_chat_workspace_uids(0, 10);
    assert_eq!(total, 2);
    let names: Vec<&str> = uids.iter().map(|s| s.as_str()).collect();
    assert_eq!(names, vec!["a", "c"]);
}

#[test]
fn pagination_clamps_to_the_stored_range() {
    let mut db = ChatSettingsDb::new();
    for name in ["a", "b", "c"] {
        db.put_chat_settings(&name.to_string(), &ChatCompletionSettings::default());
    }
    let (total, page) = db.paginated_chat_workspace_uids(1, 1);
    assert_eq!(total, 3);
    assert_eq!(page, vec!["b".to_string()]);
    let (_, all) = db.paginated_chat_workspace_uids(0, usize::MAX);
    assert_eq!(all.len(), 3);
    let (_, none) = db.paginated_chat_workspace_uids(usize::MAX, 1);
    assert!(none.is_empty());
    let (_, zero) = db.paginated_chat_workspace_uids(0, 0);
    assert!(zero.is_empty());
}
