use vstd::prelude::*;

use crate::db::mongol::channel_parent::{Chat, Group, Private};
use crate::db::mongol::refresh_token::RefreshToken;
use crate::db::mongol::user::UserFlag;

verus! {

/// Why a request is refused before it reaches storage.
#[derive(Clone, Copy, Debug, PartialEq, Eq, Structural)]
pub enum RequestError {
    UserYoureAddingCantBeSelf,
    UserYoureAddingNotFound,
    UserYoureAddingIsBlocked,
    UserIsAlreadyFriend,
    UserIsAlreadyBlocked,
    UsernameAlreadyInUse,
    MailAlreadyInUse,
    /// The user creating a chat is not among its owners.
    UserCreatingIsNotOwner,
    ChatAlreadyExists,
    /// The requesting user is not a member of the chat it asked for.
    ChatDoesNotContainThisUser,
}

/// The body of a request to create a chat.
#[derive(Debug)]
pub enum CreateChatRequest {
    Private { owner_ids: Vec<String> },
    Group { name: String, owner_id: String, user_ids: Vec<String> },
    Server { name: String, owner_id: String },
}

/// The body of a request to create a user.
#[derive(Debug)]
pub struct CreateUserRequest {
    pub user_name: String,
    pub user_mail: String,
}

/// Whether `ids` holds `id`.
fn contains_text(ids: &Vec<String>, id: &String) -> (r: bool)
    ensures
        r == ids@.map_values(|s: String| s@).contains(id@),
{
    let ghost texts = ids@.map_values(|s: String| s@);
    let mut i: usize = 0;
    while i < ids.len()
        invariant
            texts == ids@.map_values(|s: String| s@),
            i <= ids@.len(),
            forall|j: int| 0 <= j < i ==> texts[j] != id@,
        decreases ids@.len() - i,
    {
        if ids[i] == *id {
            assert(texts[i as int] == id@);
            return true;
        }
        i += 1;
    }
    false
}

/// The owner check of a chat creation: the requesting user must be one of
/// the owners of a private chat, and the owner of a group or server.
pub open spec fn chat_request_allowed(payload: CreateChatRequest, ctx_user_id: Seq<char>) -> bool {
    match payload {
        CreateChatRequest::Private { owner_ids } => owner_ids@.map_values(|s: String| s@).contains(
            ctx_user_id,
        ),
        CreateChatRequest::Group { owner_id, .. } => owner_id@ == ctx_user_id,
        CreateChatRequest::Server { owner_id, .. } => owner_id@ == ctx_user_id,
    }
}

/// A text is among the texts of a list exactly when some element of the
/// list has it.
pub proof fn lemma_listed_iff_contains(ids: Seq<String>, id: Seq<char>)
    ensures
        ids.map_values(|s: String| s@).contains(id) <==> exists|i: int|
            0 <= i < ids.len() && (#[trigger] ids[i])@ == id,
{
    let texts = ids.map_values(|s: String| s@);
    if texts.contains(id) {
        let k = choose|k: int| 0 <= k < texts.len() && texts[k] == id;
        assert(ids[k]@ == id);
    }
    if exists|i: int| 0 <= i < ids.len() && (#[trigger] ids[i])@ == id {
        let i = choose|i: int| 0 <= i < ids.len() && (#[trigger] ids[i])@ == id;
        assert(texts[i] == id);
    }
}

/// Only the named owner may create a group chat, whoever else it lists.
pub proof fn law_group_chat_created_only_by_its_owner(
    name: String,
    owner_id: String,
    user_ids: Vec<String>,
    ctx_user_id: Seq<char>,
)
    ensures
        chat_request_allowed(CreateChatRequest::Group { name, owner_id, user_ids }, ctx_user_id)
            <==> owner_id@ == ctx_user_id,
{
}

/// Only the named owner may create a server.
pub proof fn law_server_created_only_by_its_owner(name: String, owner_id: String, ctx_user_id: Seq<char>)
    ensures
        chat_request_allowed(CreateChatRequest::Server { name, owner_id }, ctx_user_id)
            <==> owner_id@ == ctx_user_id,
{
}

/// A private chat may be created by any of its owners, wherever it stands
/// in the list, and by nobody else.
pub proof fn law_private_chat_created_by_any_owner(owner_ids: Vec<String>, ctx_user_id: Seq<char>)
    ensures
        chat_request_allowed(CreateChatRequest::Private { owner_ids }, ctx_user_id) <==> exists|i: int|
            0 <= i < owner_ids@.len() && (#[trigger] owner_ids@[i])@ == ctx_user_id,
{
    lemma_listed_iff_contains(owner_ids@, ctx_user_id);
}

/// Checks that the requesting user may create the requested chat.
pub fn check_create_chat_request(payload: &CreateChatRequest, ctx_user_id: &String) -> (r: Result<
    (),
    RequestError,
>)
    ensures
        r is Ok <==> chat_request_allowed(*payload, ctx_user_id@),
        r is Err ==> r == Err::<(), RequestError>(RequestError::UserCreatingIsNotOwner),
        payload matches CreateChatRequest::Private { owner_ids } ==> (r is Ok <==> exists|i: int|
            0 <= i < owner_ids@.len() && (#[trigger] owner_ids@[i])@ == ctx_user_id@),
        payload matches CreateChatRequest::Group { owner_id, .. } ==> (r is Ok <==> owner_id@
            == ctx_user_id@),
        payload matches CreateChatRequest::Server { owner_id, .. } ==> (r is Ok <==> owner_id@
            == ctx_user_id@),
{
    proof {
        if let CreateChatRequest::Private { owner_ids } = payload {
            lemma_listed_iff_contains(owner_ids@, ctx_user_id@);
        }
    }
    let allowed = match payload {
        CreateChatRequest::Private { owner_ids } => contains_text(owner_ids, ctx_user_id),
        CreateChatRequest::Group { owner_id, .. } => *owner_id == *ctx_user_id,
        CreateChatRequest::Server { owner_id, .. } => *owner_id == *ctx_user_id,
    };
    if allowed {
        Ok(())
    } else {
        Err(RequestError::UserCreatingIsNotOwner)
    }
}

/// Whether `user_id` is a member of the chat: an owner of a private chat,
/// or the owner or a user of a group chat.
pub open spec fn is_member(chat: Chat, user_id: Seq<char>) -> bool {
    match chat {
        Chat::Private(p) => p.owner_ids@.map_values(|s: String| s@).contains(user_id),
        Chat::Group(g) => g.owner_id@ == user_id || g.user_ids@.map_values(|s: String| s@).contains(
            user_id,
        ),
    }
}

/// Every owner of a private chat is a member of it, wherever it stands in
/// the list of owners.
pub proof fn law_every_private_owner_is_member(p: Private, i: int)
    requires
        0 <= i < p.owner_ids@.len(),
    ensures
        is_member(Chat::Private(p), p.owner_ids@[i]@),
{
    lemma_listed_iff_contains(p.owner_ids@, p.owner_ids@[i]@);
}

/// The members of a private chat are its owners.
pub proof fn law_private_members_are_owners(p: Private, user_id: Seq<char>)
    ensures
        is_member(Chat::Private(p), user_id) ==> exists|i: int|
            0 <= i < p.owner_ids@.len() && (#[trigger] p.owner_ids@[i])@ == user_id,
{
    lemma_listed_iff_contains(p.owner_ids@, user_id);
}

/// The members of a group chat are its owner and its listed users.
pub proof fn law_group_members_are_owner_and_users(g: Group, user_id: Seq<char>)
    ensures
        is_member(Chat::Group(g), user_id) <==> g.owner_id@ == user_id || exists|i: int|
            0 <= i < g.user_ids@.len() && (#[trigger] g.user_ids@[i])@ == user_id,
{
    lemma_listed_iff_contains(g.user_ids@, user_id);
}

/// Whether the user is a member of the chat.
pub fn is_user_part_of_chat(chat: &Chat, user_id: &String) -> (r: bool)
    ensures
        r == is_member(*chat, user_id@),
        chat matches Chat::Private(p) ==> (r <==> exists|i: int|
            0 <= i < p.owner_ids@.len() && (#[trigger] p.owner_ids@[i])@ == user_id@),
        chat matches Chat::Group(g) ==> (r <==> g.owner_id@ == user_id@ || exists|i: int|
            0 <= i < g.user_ids@.len() && (#[trigger] g.user_ids@[i])@ == user_id@),
{
    proof {
        match chat {
            Chat::Private(p) => lemma_listed_iff_contains(p.owner_ids@, user_id@),
            Chat::Group(g) => lemma_listed_iff_contains(g.user_ids@, user_id@),
        }
    }
    match chat {
        Chat::Private(p) => contains_text(&p.owner_ids, user_id),
        Chat::Group(g) => g.owner_id == *user_id || contains_text(&g.user_ids, user_id),
    }
}

/// A chat is shown only to its members.
pub fn check_chat_membership(chat: &Chat, ctx_user_id: &String) -> (r: Result<(), RequestError>)
    ensures
        r == (if is_member(*chat, ctx_user_id@) {
            Ok(())
        } else {
            Err(RequestError::ChatDoesNotContainThisUser)
        }),
{
    if is_user_part_of_chat(chat, ctx_user_id) {
        Ok(())
    } else {
        Err(RequestError::ChatDoesNotContainThisUser)
    }
}

/// A chat that already exists is not created again.
pub fn check_chat_not_existing(chat_exists: bool) -> (r: Result<(), RequestError>)
    ensures
        r == (if chat_exists {
            Err(RequestError::ChatAlreadyExists)
        } else {
            Ok(())
        }),
{
    if chat_exists {
        Err(RequestError::ChatAlreadyExists)
    } else {
        Ok(())
    }
}

/// A relation request: asking a user as friend, or blocking a user.
#[derive(Clone, Copy, Debug, PartialEq, Eq, Structural)]
pub enum RelationRequest {
    Friend,
    Block,
}

/// The next thing to do for a relation request.
#[derive(Clone, Copy, Debug, PartialEq, Eq, Structural)]
pub enum RelationStep {
    /// Ask storage whether the other user exists.
    CheckUserExists,
    /// Ask storage whether the requesting user blocked the other.
    CheckBlocked,
    /// Ask storage whether the two are friends already.
    CheckFriendship,
    /// All checks passed: make the friend request, or the block.
    Proceed,
}

/// The first step of a relation request: a user cannot relate to itself.
pub open spec fn relation_start(ctx_user_id: Seq<char>, other_user_id: Seq<char>) -> Result<
    RelationStep,
    RequestError,
> {
    if ctx_user_id == other_user_id {
        Err(RequestError::UserYoureAddingCantBeSelf)
    } else {
        Ok(RelationStep::CheckUserExists)
    }
}

/// The answer of storage that refuses a check: "no" to whether the other
/// user exists, "yes" to whether it is blocked or already a friend.
pub open spec fn refusing_answer(step: RelationStep) -> bool {
    !(step is CheckUserExists)
}

/// Why a check refuses a request.
pub open spec fn refusal(request: RelationRequest, step: RelationStep) -> RequestError {
    match (step, request) {
        (RelationStep::CheckBlocked, RelationRequest::Friend) => RequestError::UserYoureAddingIsBlocked,
        (RelationStep::CheckBlocked, RelationRequest::Block) => RequestError::UserIsAlreadyBlocked,
        (RelationStep::CheckFriendship, _) => RequestError::UserIsAlreadyFriend,
        _ => RequestError::UserYoureAddingNotFound,
    }
}

/// The check after a passed one: existence, then blocking, then (for a
/// friend request only) friendship, then the request itself.
pub open spec fn successor(request: RelationRequest, step: RelationStep) -> RelationStep {
    match (step, request) {
        (RelationStep::CheckUserExists, _) => RelationStep::CheckBlocked,
        (RelationStep::CheckBlocked, RelationRequest::Friend) => RelationStep::CheckFriendship,
        _ => RelationStep::Proceed,
    }
}

/// The step after `step` once storage answered its question with `answer`:
/// the refusal of the check where the answer refuses it, else the next check.
pub open spec fn relation_next(request: RelationRequest, step: RelationStep, answer: bool) -> Result<
    RelationStep,
    RequestError,
> {
    if step is Proceed {
        Ok(RelationStep::Proceed)
    } else if answer == refusing_answer(step) {
        Err(refusal(request, step))
    } else {
        Ok(successor(request, step))
    }
}

/// Starts a relation request of the requesting user for the other user.
pub fn begin_relation_request(ctx_user_id: &String, other_user_id: &String) -> (r: Result<
    RelationStep,
    RequestError,
>)
    ensures
        r == relation_start(ctx_user_id@, other_user_id@),
{
    if *ctx_user_id == *other_user_id {
        Err(RequestError::UserYoureAddingCantBeSelf)
    } else {
        Ok(RelationStep::CheckUserExists)
    }
}

/// Advances a relation request with storage's answer to the current step.
pub fn advance_relation_request(request: RelationRequest, step: RelationStep, answer: bool) -> (r:
    Result<RelationStep, RequestError>)
    ensures
        r == relation_next(request, step, answer),
{
    match step {
        RelationStep::CheckUserExists => if answer {
            Ok(RelationStep::CheckBlocked)
        } else {
            Err(RequestError::UserYoureAddingNotFound)
        },
        RelationStep::CheckBlocked => if answer {
            match request {
                RelationRequest::Friend => Err(RequestError::UserYoureAddingIsBlocked),
                RelationRequest::Block => Err(RequestError::UserIsAlreadyBlocked),
            }
        } else {
            match request {
                RelationRequest::Friend => Ok(RelationStep::CheckFriendship),
                RelationRequest::Block => Ok(RelationStep::Proceed),
            }
        },
        RelationStep::CheckFriendship => if answer {
            Err(RequestError::UserIsAlreadyFriend)
        } else {
            Ok(RelationStep::Proceed)
        },
        RelationStep::Proceed => Ok(RelationStep::Proceed),
    }
}

/// The next thing to do for a sign-up.
#[derive(Clone, Copy, Debug, PartialEq, Eq, Structural)]
pub enum SignUpStep {
    /// Ask storage whether the username is taken.
    CheckUsername,
    /// Ask storage whether the mail address is taken.
    CheckMail,
    /// Hash the password and store the user.
    Create,
}

/// Why a taken value refuses a sign-up.
pub open spec fn taken_error(step: SignUpStep) -> RequestError {
    if step is CheckUsername {
        RequestError::UsernameAlreadyInUse
    } else {
        RequestError::MailAlreadyInUse
    }
}

/// The step after `step` once storage answered "is it taken?" with `taken`:
/// a taken value refuses the sign-up; otherwise the username check is
/// followed by the mail check, and that by the creation.
pub open spec fn sign_up_next(step: SignUpStep, taken: bool) -> Result<SignUpStep, RequestError> {
    if step is Create {
        Ok(SignUpStep::Create)
    } else if taken {
        Err(taken_error(step))
    } else if step is CheckUsername {
        Ok(SignUpStep::CheckMail)
    } else {
        Ok(SignUpStep::Create)
    }
}

/// Advances a sign-up with storage's answer to the current step.
pub fn advance_sign_up(step: SignUpStep, taken: bool) -> (r: Result<SignUpStep, RequestError>)
    ensures
        r == sign_up_next(step, taken),
{
    match step {
        SignUpStep::CheckUsername => if taken {
            Err(RequestError::UsernameAlreadyInUse)
        } else {
            Ok(SignUpStep::CheckMail)
        },
        SignUpStep::CheckMail => if taken {
            Err(RequestError::MailAlreadyInUse)
        } else {
            Ok(SignUpStep::Create)
        },
        SignUpStep::Create => Ok(SignUpStep::Create),
    }
}

/// A friend request goes through, with the other user existing, not blocked
/// and not yet a friend, exactly when the requesting user is not the other
/// user and storage answers yes, no, no; each refusal names the first check
/// that failed.
pub proof fn law_friend_request_checks(
    ctx_user_id: Seq<char>,
    other_user_id: Seq<char>,
    user_exists: bool,
    blocked: bool,
    friends: bool,
)
    ensures
        ({
            let run = match relation_start(ctx_user_id, other_user_id) {
                Err(e) => Err(e),
                Ok(s1) => match relation_next(RelationRequest::Friend, s1, user_exists) {
                    Err(e) => Err(e),
                    Ok(s2) => match relation_next(RelationRequest::Friend, s2, blocked) {
                        Err(e) => Err(e),
                        Ok(s3) => relation_next(RelationRequest::Friend, s3, friends),
                    },
                },
            };
            &&& (run == Ok::<RelationStep, RequestError>(RelationStep::Proceed) <==> (
            ctx_user_id != other_user_id && user_exists && !blocked && !friends))
            &&& ctx_user_id == other_user_id ==> run == Err::<RelationStep, RequestError>(
                RequestError::UserYoureAddingCantBeSelf,
            )
            &&& ctx_user_id != other_user_id && !user_exists ==> run == Err::<
                RelationStep,
                RequestError,
            >(RequestError::UserYoureAddingNotFound)
            &&& ctx_user_id != other_user_id && user_exists && blocked ==> run == Err::<
                RelationStep,
                RequestError,
            >(RequestError::UserYoureAddingIsBlocked)
            &&& ctx_user_id != other_user_id && user_exists && !blocked && friends ==> run == Err::<
                RelationStep,
                RequestError,
            >(RequestError::UserIsAlreadyFriend)
        }),
{
}

/// A block goes through exactly when the requesting user is not the other
/// user, the other user exists and is not blocked yet; each refusal names the
/// first check that failed.
pub proof fn law_block_request_checks(
    ctx_user_id: Seq<char>,
    other_user_id: Seq<char>,
    user_exists: bool,
    blocked: bool,
)
    ensures
        ({
            let run = match relation_start(ctx_user_id, other_user_id) {
                Err(e) => Err(e),
                Ok(s1) => match relation_next(RelationRequest::Block, s1, user_exists) {
                    Err(e) => Err(e),
                    Ok(s2) => relation_next(RelationRequest::Block, s2, blocked),
                },
            };
            &&& (run == Ok::<RelationStep, RequestError>(RelationStep::Proceed) <==> (
            ctx_user_id != other_user_id && user_exists && !blocked))
            &&& ctx_user_id == other_user_id ==> run == Err::<RelationStep, RequestError>(
                RequestError::UserYoureAddingCantBeSelf,
            )
            &&& ctx_user_id != other_user_id && !user_exists ==> run == Err::<
                RelationStep,
                RequestError,
            >(RequestError::UserYoureAddingNotFound)
            &&& ctx_user_id != other_user_id && user_exists && blocked ==> run == Err::<
                RelationStep,
                RequestError,
            >(RequestError::UserIsAlreadyBlocked)
        }),
{
}

/// A sign-up reaches the creation step exactly when neither the username nor
/// the mail address is taken; a taken username is reported before a taken
/// mail address.
pub proof fn law_sign_up_checks(username_taken: bool, mail_taken: bool)
    ensures
        ({
            let run = match sign_up_next(SignUpStep::CheckUsername, username_taken) {
                Err(e) => Err(e),
                Ok(s) => sign_up_next(s, mail_taken),
            };
            &&& (run == Ok::<SignUpStep, RequestError>(SignUpStep::Create) <==> (!username_taken
                && !mail_taken))
            &&& username_taken ==> run == Err::<SignUpStep, RequestError>(
                RequestError::UsernameAlreadyInUse,
            )
            &&& !username_taken && mail_taken ==> run == Err::<SignUpStep, RequestError>(
                RequestError::MailAlreadyInUse,
            )
        }),
{
}

/// The cookies of an authenticated session.
#[derive(Clone, Copy, Debug, PartialEq, Eq, Structural)]
pub enum AuthCookie {
    Access,
    Refresh,
    DeviceId,
}

/// Why a login or a refresh of the access token is refused.
#[derive(Clone, Copy, Debug, PartialEq, Eq, Structural)]
pub enum AuthRefusal {
    /// The named cookie is missing.
    AuthCookieNotFound(AuthCookie),
    /// The account's flag does not allow it on Mogcord.
    IncorrectUserPermissions(UserFlag),
    /// The refresh token cookie does not hold the device's token.
    RefreshTokenDoesNotMatchDeviceId,
}

/// Whether an account with this flag may use Mogcord: the flags that the
/// valid-user filter of storage lists (no flag, admin, owner), which are
/// all flags an account can have.
pub open spec fn allowed_on_mogcord(flag: UserFlag) -> bool {
    flag is NoFlag || flag is Admin || flag is Owner
}

/// Whether an account with this flag may use Mogcord.
pub fn is_allowed_on_mogcord(flag: UserFlag) -> (r: bool)
    ensures
        r == allowed_on_mogcord(flag),
{
    match flag {
        UserFlag::NoFlag => true,
        UserFlag::Admin => true,
        UserFlag::Owner => true,
    }
}

/// A login first checks that the account may use Mogcord.
pub fn check_login_allowed(flag: UserFlag) -> (r: Result<(), AuthRefusal>)
    ensures
        r == (if allowed_on_mogcord(flag) {
            Ok(())
        } else {
            Err(AuthRefusal::IncorrectUserPermissions(flag))
        }),
{
    if is_allowed_on_mogcord(flag) {
        Ok(())
    } else {
        Err(AuthRefusal::IncorrectUserPermissions(flag))
    }
}

/// A login keeps the usable token found for the device cookie when it
/// belongs to the user logging in; otherwise a new token is made.
pub fn login_reuses_token(found: Option<&RefreshToken>, user_id: &String) -> (r: bool)
    ensures
        r == (found matches Some(t) && t.owner_id@ == user_id@),
{
    match found {
        Some(t) => t.owner_id == *user_id,
        None => false,
    }
}

/// The cookies that a refresh needs after the access cookie (whose claims
/// are read first): the refresh token cookie, then the device id cookie;
/// the first missing one is reported.
pub fn check_refresh_cookies(refresh: Option<&String>, device_id: Option<&String>) -> (r: Result<
    (),
    AuthRefusal,
>)
    ensures
        r == (if refresh is None {
            Err(AuthRefusal::AuthCookieNotFound(AuthCookie::Refresh))
        } else if device_id is None {
            Err(AuthRefusal::AuthCookieNotFound(AuthCookie::DeviceId))
        } else {
            Ok(())
        }),
{
    if refresh.is_none() {
        Err(AuthRefusal::AuthCookieNotFound(AuthCookie::Refresh))
    } else if device_id.is_none() {
        Err(AuthRefusal::AuthCookieNotFound(AuthCookie::DeviceId))
    } else {
        Ok(())
    }
}

/// The checks of a refresh on the device's usable token: its owner must be
/// allowed on Mogcord (else the access and refresh cookies are dropped),
/// then the refresh cookie must hold the token's value.
pub fn check_refresh_token(owner_flag: UserFlag, token_value: &String, refresh_cookie: &String) -> (r:
    Result<(), AuthRefusal>)
    ensures
        r == (if !allowed_on_mogcord(owner_flag) {
            Err(AuthRefusal::IncorrectUserPermissions(owner_flag))
        } else if token_value@ != refresh_cookie@ {
            Err(AuthRefusal::RefreshTokenDoesNotMatchDeviceId)
        } else {
            Ok(())
        }),
{
    if !is_allowed_on_mogcord(owner_flag) {
        Err(AuthRefusal::IncorrectUserPermissions(owner_flag))
    } else if *token_value != *refresh_cookie {
        Err(AuthRefusal::RefreshTokenDoesNotMatchDeviceId)
    } else {
        Ok(())
    }
}

} // verus!
