use mogcord::api::{
    advance_relation_request, advance_sign_up, begin_relation_request, check_chat_membership,
    check_chat_not_existing, check_create_chat_request, check_login_allowed, check_refresh_cookies,
    check_refresh_token, is_user_part_of_chat, login_reuses_token, AuthCookie, AuthRefusal, CreateChatRequest, CreateUserRequest, RelationRequest, RelationStep,
    RequestError, SignUpStep,
};
use mogcord::db::mongol::channel::Channel;
use mogcord::db::mongol::helper::CalendarDateTime;
use mogcord::db::mongol::refresh_token::{RefreshToken, RefreshTokenFlag};
use mogcord::db::mongol::user::UserFlag;
use mogcord::db::mongol::channel_parent::{Chat, Group, Private};
use mogcord::dto::{vec_to_dto, ObjectToDTO};

fn s(t: &str) -> String {
    t.to_string()
}

#[test]
fn private_chat_must_include_the_requester() {
    let req = CreateChatRequest::Private { owner_ids: vec![s("a"), s("b")] };
    assert_eq!(check_create_chat_request(&req, &s("a")), Ok(()));
    assert_eq!(check_create_chat_request(&req, &s("c")), Err(RequestError::UserCreatingIsNotOwner));
}

#[test]
fn group_and_server_must_be_owned_by_the_requester() {
    let g = CreateChatRequest::Group { name: s("g"), owner_id: s("a"), user_ids: vec![] };
    assert_eq!(check_create_chat_request(&g, &s("a")), Ok(()));
    assert_eq!(check_create_chat_request(&g, &s("b")), Err(RequestError::UserCreatingIsNotOwner));
    let sv = CreateChatRequest::Server { name: s("s"), owner_id: s("a") };
    assert_eq!(check_create_chat_request(&sv, &s("b")), Err(RequestError::UserCreatingIsNotOwner));
    assert_eq!(check_chat_not_existing(true), Err(RequestError::ChatAlreadyExists));
    assert_eq!(check_chat_not_existing(false), Ok(()));
}

#[test]
fn adding_yourself_is_refused() {
    assert_eq!(begin_relation_request(&s("a"), &s("a")), Err(RequestError::UserYoureAddingCantBeSelf));
    assert_eq!(begin_relation_request(&s("a"), &s("b")), Ok(RelationStep::CheckUserExists));
}

fn run(request: RelationRequest, answers: &[bool]) -> Result<RelationStep, RequestError> {
    let mut step = begin_relation_request(&s("a"), &s("b"))?;
    for &a in answers {
        step = advance_relation_request(request, step, a)?;
    }
    Ok(step)
}

#[test]
fn friend_request_checks_in_order() {
    let f = RelationRequest::Friend;
    assert_eq!(run(f, &[true, false, false]), Ok(RelationStep::Proceed));
    assert_eq!(run(f, &[false]), Err(RequestError::UserYoureAddingNotFound));
    assert_eq!(run(f, &[true, true]), Err(RequestError::UserYoureAddingIsBlocked));
    assert_eq!(run(f, &[true, false, true]), Err(RequestError::UserIsAlreadyFriend));
}

#[test]
fn block_request_checks_in_order() {
    let b = RelationRequest::Block;
    assert_eq!(run(b, &[true, false]), Ok(RelationStep::Proceed));
    assert_eq!(run(b, &[false]), Err(RequestError::UserYoureAddingNotFound));
    assert_eq!(run(b, &[true, true]), Err(RequestError::UserIsAlreadyBlocked));
}

#[test]
fn sign_up_checks_username_then_mail() {
    assert_eq!(advance_sign_up(SignUpStep::CheckUsername, true), Err(RequestError::UsernameAlreadyInUse));
    assert_eq!(advance_sign_up(SignUpStep::CheckUsername, false), Ok(SignUpStep::CheckMail));
    assert_eq!(advance_sign_up(SignUpStep::CheckMail, true), Err(RequestError::MailAlreadyInUse));
    assert_eq!(advance_sign_up(SignUpStep::CheckMail, false), Ok(SignUpStep::Create));
    let req = CreateUserRequest { user_name: s("ann"), user_mail: s("a@x") };
    assert_eq!(req.user_name, "ann");
}

#[derive(Debug, PartialEq)]
struct Shout(String);

impl ObjectToDTO<&str> for Shout {
    fn obj_to_dto(model_input: &str) -> Self {
        Shout(model_input.to_uppercase())
    }
}

#[test]
fn vec_to_dto_converts_each_in_order() {
    let out: Vec<Shout> = vec_to_dto(vec!["a", "b"]);
    assert_eq!(out, vec![Shout(s("A")), Shout(s("B"))]);
    let none: Vec<Shout> = vec_to_dto(Vec::<&str>::new());
    assert!(none.is_empty());
}

#[test]
fn vec_to_dto_of_joined_lists_joins_the_results() {
    let joined: Vec<Shout> = vec_to_dto(vec!["a", "b", "c"]);
    let mut parts: Vec<Shout> = vec_to_dto(vec!["a"]);
    parts.extend(vec_to_dto::<&str, Shout>(vec!["b", "c"]));
    assert_eq!(joined, parts);
}

#[test]
fn only_members_see_a_chat() {
    let channel = Channel { id: "c".to_string(), name: None, roles: vec![] };
    let private = Chat::Private(Private {
        id: "p".to_string(),
        owner_ids: vec!["a".to_string(), "b".to_string()],
        channel,
    });
    assert!(is_user_part_of_chat(&private, &"b".to_string()));
    assert_eq!(check_chat_membership(&private, &"z".to_string()), Err(RequestError::ChatDoesNotContainThisUser));
    let group = Chat::Group(Group {
        id: "g".to_string(),
        name: "n".to_string(),
        owner_id: "o".to_string(),
        user_ids: vec!["u".to_string()],
        channel: Channel { id: "c".to_string(), name: None, roles: vec![] },
    });
    assert_eq!(check_chat_membership(&group, &"o".to_string()), Ok(()));
    assert_eq!(check_chat_membership(&group, &"u".to_string()), Ok(()));
    assert!(!is_user_part_of_chat(&group, &"x".to_string()));
}

#[test]
fn refresh_reports_the_first_missing_cookie() {
    let v = s("x");
    assert_eq!(check_refresh_cookies(None, None), Err(AuthRefusal::AuthCookieNotFound(AuthCookie::Refresh)));
    assert_eq!(check_refresh_cookies(Some(&v), None), Err(AuthRefusal::AuthCookieNotFound(AuthCookie::DeviceId)));
    assert_eq!(check_refresh_cookies(Some(&v), Some(&v)), Ok(()));
}

#[test]
fn refresh_token_must_match_the_cookie() {
    assert_eq!(check_refresh_token(UserFlag::Admin, &s("t"), &s("t")), Ok(()));
    assert_eq!(
        check_refresh_token(UserFlag::NoFlag, &s("t"), &s("u")),
        Err(AuthRefusal::RefreshTokenDoesNotMatchDeviceId)
    );
    assert_eq!(check_login_allowed(UserFlag::Owner), Ok(()));
}

#[test]
fn login_reuses_only_the_users_own_token() {
    let token = RefreshToken {
        value: s("v"),
        device_id: s("d"),
        expiration_date: CalendarDateTime { year: 2024, month: 1, day: 1, hour: 0, minute: 0, second: 0 },
        flag: RefreshTokenFlag::NoFlag,
        owner_id: s("me"),
    };
    assert!(login_reuses_token(Some(&token), &s("me")));
    assert!(!login_reuses_token(Some(&token), &s("other")));
    assert!(!login_reuses_token(None, &s("me")));
}
