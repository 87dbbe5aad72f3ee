use aliri_extra_reqwest::{
    lookup_url, single_match, user_subject, user_url, SubjectError, username_search_url, ContentTypeEnum, Error,
    FetchError, FetchErrorKind, FindUserWays, UserMatchError, WatcherInitError,
};

#[test]
fn user_urls_follow_admin_api_layout() {
    assert_eq!(user_url("http://kc", "main", "42"), "http://kc/admin/realms/main/users/42");
    assert_eq!(
        username_search_url("http://kc", "main", "bob"),
        "http://kc/admin/realms/main/users/?username=bob"
    );
    assert_eq!(
        lookup_url("http://kc", "main", &FindUserWays::Username("bob".to_string())),
        "http://kc/admin/realms/main/users/?username=bob"
    );
    assert_eq!(
        lookup_url("http://kc", "main", &FindUserWays::Sub("42".to_string())),
        "http://kc/admin/realms/main/users/42"
    );
}

#[test]
fn username_search_must_match_one_user() {
    assert_eq!(single_match(1), Ok(()));
    assert_eq!(single_match(0), Err(UserMatchError::NoUser));
    assert_eq!(single_match(2), Err(UserMatchError::SeveralUsers));
}

#[test]
fn content_type_parses_option_values() {
    assert_eq!(ContentTypeEnum::parse("json"), Some(ContentTypeEnum::Json));
    assert_eq!(ContentTypeEnum::parse("form"), Some(ContentTypeEnum::Form));
    assert_eq!(ContentTypeEnum::parse("xml"), None);
    assert_eq!(ContentTypeEnum::parse("jsonx"), None);
}

#[test]
fn error_messages_name_the_stage() {
    assert_eq!(
        Error::BuildingClient("bad tls".to_string()).message(),
        "Error building client: bad tls"
    );
    let init = WatcherInitError {
        cause: FetchError { kind: FetchErrorKind::Status, cause: "401".to_string() },
    };
    let e = Error::from_watcher_init(init);
    assert_eq!(e, Error::BuildingTokenWatcher("401".to_string()));
    assert_eq!(e.message(), "Error building token watcher: 401");
}

#[test]
fn user_subject_reads_uuid_text() {
    assert_eq!(
        user_subject(Some("550e8400-e29b-41d4-a716-446655440000")),
        Ok(0x550e8400_e29b_41d4_a716_446655440000u128)
    );
    assert_eq!(
        user_subject(Some("550e8400e29b41d4a716446655440000")),
        Ok(0x550e8400_e29b_41d4_a716_446655440000u128)
    );
    assert_eq!(user_subject(Some("not-a-uuid")), Err(SubjectError::Malformed));
    assert_eq!(user_subject(Some("")), Err(SubjectError::Malformed));
    assert_eq!(user_subject(None), Err(SubjectError::Missing));
}
