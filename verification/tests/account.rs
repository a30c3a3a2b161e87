use axolotl_client_api::account::{
    Authenticate, BasicUserInfo, NameStep, NameUpdates, OldUsername, QueryChannelInvite, SessionAnswer, Settings,
    SettingsPatch, Username,
};
use axolotl_client_api::token::AccessToken;
use axolotl_client_api::errors::{ApiError, TaskError};
use axolotl_client_api::extractors::{Authentication, TokenRecord, UserAgent};
use axolotl_client_api::id::{Id, IdSource};

#[test]
fn usernames_wrap_text() {
    let name = Username::new("Axolotl_42".to_string());
    assert_eq!(name.as_str(), "Axolotl_42");
    assert_eq!(name.clone().into_string(), "Axolotl_42");
    let claim = Authenticate { username: name, server_id: "abc".to_string() };
    assert_eq!(claim.username.as_str(), "Axolotl_42");
}

#[test]
fn session_answers_are_read_from_the_status() {
    assert_eq!(SessionAnswer::of_status(200), SessionAnswer::Profile);
    assert_eq!(SessionAnswer::of_status(204), SessionAnswer::Unknown);
    assert_eq!(SessionAnswer::of_status(500), SessionAnswer::Failed);
    assert_eq!(SessionAnswer::of_status(404), SessionAnswer::Failed);
}

#[test]
fn earlier_names_are_kept_when_they_differ() {
    assert!(OldUsername::is_due(Some("Old"), "New"));
    assert!(!OldUsername::is_due(Some("Same"), "Same"));
    assert!(!OldUsername::is_due(None, "New"));
}

#[test]
fn patches_replace_what_they_give() {
    let held = Settings {
        show_registered: true,
        retain_usernames: false,
        show_last_online: true,
        show_activity: true,
        allow_friends_image_access: false,
    };
    let patch = SettingsPatch {
        show_registered: Some(false),
        retain_usernames: None,
        show_last_online: None,
        show_activity: Some(false),
        allow_friends_image_access: Some(true),
    };
    assert_eq!(
        held.patched(&patch),
        Settings {
            show_registered: false,
            retain_usernames: false,
            show_last_online: true,
            show_activity: false,
            allow_friends_image_access: true,
        }
    );
    assert!(patch.hides_activity());
    let nothing = SettingsPatch {
        show_registered: None,
        retain_usernames: None,
        show_last_online: None,
        show_activity: None,
        allow_friends_image_access: None,
    };
    assert_eq!(held.patched(&nothing), held);
    assert!(!nothing.hides_activity());
    assert!(!SettingsPatch { show_activity: Some(true), ..nothing }.hides_activity());
}

#[test]
fn invite_answers_name_the_channel() {
    let answer = QueryChannelInvite { id: Id(5), accept: true };
    assert_eq!(answer.id.value(), 5);
    assert!(answer.accept);
}

#[test]
fn errors_have_status_codes() {
    assert_eq!(ApiError::BadRequest.status(), 400);
    assert_eq!(ApiError::Unauthorized.status(), 401);
    assert_eq!(ApiError::Forbidden.status(), 403);
    assert_eq!(ApiError::NotFound.status(), 404);
    assert_eq!(ApiError::RateLimited { retry_after: 5 }.status(), 429);
    assert_eq!(ApiError::NotImplemented.status(), 501);
    assert_eq!(ApiError::Internal.status(), 500);
    assert_eq!(ApiError::handle_internal_error(), ApiError::Internal);
    assert_eq!(TaskError::handle(), TaskError);
}

#[test]
fn tokens_stand_for_their_user_while_valid() {
    assert_eq!(
        Authentication::of_token(TokenRecord { valid: true, player: Some(7) }),
        Some(Authentication(7))
    );
    assert_eq!(Authentication::of_token(TokenRecord { valid: false, player: Some(7) }), None);
    assert_eq!(Authentication::of_token(TokenRecord { valid: true, player: None }), None);
}

#[test]
fn user_agents_lose_quotes_and_backslashes() {
    assert_eq!(UserAgent::of_header("Axolotl\\Client \"3.1\"").as_str(), "AxolotlClient 3.1");
    assert_eq!(UserAgent::of_header("plain").as_str(), "plain");
    assert_eq!(UserAgent::of_header("\"\\\"").as_str(), "");
}

#[test]
fn ids_are_composed_of_time_thread_and_counter() {
    assert_eq!(Id::compose(1, 0, 0).value(), 1 << 22);
    assert_eq!(Id::compose(0, 1, 0).value(), 1 << 12);
    assert_eq!(Id::compose(0, 0, 1).value(), 1);
    assert_eq!(Id::compose(1_700_000_000_000, 31, 4095).value(), (1_700_000_000_000u64 << 22) | (31 << 12) | 4095);
}

#[test]
fn id_sources_count_and_start_over() {
    assert!(IdSource::new(32).is_none());
    let mut source = IdSource::new(3).unwrap();
    assert_eq!(Id::new(&mut source, 10).value(), (10 << 22) | (3 << 12));
    assert_eq!(Id::new(&mut source, 10).value(), (10 << 22) | (3 << 12) | 1);
    for _ in 2..4095 {
        source.next(10);
    }
    assert_eq!(source.next(11).value(), (11 << 22) | (3 << 12) | 4095);
    assert_eq!(source.next(11).value(), (11 << 22) | (3 << 12));
}

#[test]
fn usernames_are_validated_by_the_pattern() {
    assert!(Username::new("Steve".to_string()).validate());
    assert!(Username::new("a_1".to_string()).validate());
    assert!(Username::new("sixteen_chars_ok".to_string()).validate());
    assert!(!Username::new("ab".to_string()).validate());
    assert!(!Username::new("".to_string()).validate());
    assert!(!Username::new("a-b-c".to_string()).validate());
    assert!(Username::new("x!abc".to_string()).validate());
}

#[test]
fn session_answers_decide_how_the_request_goes_on() {
    assert_eq!(SessionAnswer::Profile.check(), Ok(()));
    assert_eq!(SessionAnswer::Unknown.check(), Err(ApiError::Unauthorized));
    assert_eq!(SessionAnswer::Failed.check(), Err(ApiError::Internal));
}

#[test]
fn banned_players_are_turned_away() {
    assert_eq!(axolotl_client_api::account::check_ban(Some(true)), Err(ApiError::Forbidden));
    assert_eq!(axolotl_client_api::account::check_ban(Some(false)), Ok(()));
    assert_eq!(axolotl_client_api::account::check_ban(None), Ok(()));
}

#[test]
fn name_conflicts_are_dealt_with_holder_first() {
    let steve = BasicUserInfo { uuid: 1, username: Username::new("Steve".to_string()) };
    let alex = BasicUserInfo { uuid: 2, username: Username::new("Alex".to_string()) };
    let mut updates = NameUpdates::new(steve.clone());
    assert_eq!(updates.next(), NameStep::Check(steve.clone()));
    updates.conflict(steve.clone(), alex.clone());
    assert_eq!(updates.next(), NameStep::Check(alex));
    assert_eq!(updates.next(), NameStep::Check(steve));
    assert_eq!(updates.next(), NameStep::Done);
    assert_eq!(updates.next(), NameStep::Done);
}

#[test]
fn requests_without_a_token_are_not_authorized() {
    assert_eq!(AccessToken::of_request(None), Err(ApiError::Unauthorized));
    assert_eq!(AccessToken::of_request(Some(b"***")), Err(ApiError::Unauthorized));
    assert_eq!(AccessToken::of_request(Some(b"AQID")), Ok(vec![1, 2, 3]));
}
