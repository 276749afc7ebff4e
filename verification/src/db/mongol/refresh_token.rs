use vstd::prelude::*;

use crate::db::mongol::bucket::is_date_error;
use crate::db::mongol::helper::{
    all_parse, convert_domain_id_to_mongol, first_invalid_id_error, lemma_all_parse_concat,
    lemma_invalid_after_valid, lemma_invalid_before_rest, lemma_single_invalid,
    CalendarDateTime, MongolHelper, add_text_pair, is_invalid_id_error, text_pair, utc_rfc3339, utc_rfc3339_text,
};
use crate::db::mongol::stages::{
    single, stages_view, token_join_after, token_join_stages, PipelineStage, StageView,
};
use crate::db::mongol::relation::{convert_user_pair, pair_error, pair_parses, parsed_id};
use crate::error::{Kind, OnType, ServerError};
use crate::ids::{parsed_uuid, MongolId};

verus! {

/// Where the errors of the refresh token conversion say they were raised.
pub const REFRESH_TOKEN_STACK: &'static str = "src/db/mongol/refresh_token.rs";

/// The state of a refresh token.
#[derive(Clone, Copy, Debug, PartialEq, Eq, Structural)]
pub enum RefreshTokenFlag {
    /// A usable token (stored as "None").
    NoFlag,
    Revoked,
}

/// A refresh token as the domain knows it.
#[derive(Debug)]
pub struct RefreshToken {
    pub value: String,
    pub device_id: String,
    pub expiration_date: CalendarDateTime,
    pub flag: RefreshTokenFlag,
    pub owner_id: String,
}

/// The stored refresh token; `expiration_date` in milliseconds since the epoch.
#[derive(Debug)]
pub struct MongolRefreshToken {
    pub value: String,
    pub device_id: MongolId,
    pub expiration_date: i64,
    pub flag: RefreshTokenFlag,
    pub owner_id: MongolId,
}

/// The debug pair of an expiration date: its RFC 3339 text, where chrono
/// has that time.
pub open spec fn expiration_pairs(date: CalendarDateTime) -> Seq<(Seq<char>, Seq<char>)> {
    text_pair(
        "expiration date"@,
        utc_rfc3339_text(date.year, date.month, date.day, date.hour, date.minute, date.second),
    )
}

/// The stored token of a domain token, or why there is none: the device id
/// and owner id are converted first, then the expiration date.
pub open spec fn token_conversion(r: Result<MongolRefreshToken, ServerError>, value: RefreshToken) -> bool {
    let ids = seq![value.device_id@, value.owner_id@];
    match r {
        Ok(m) => {
            &&& all_parse(ids)
            &&& m.value@ == value.value@
            &&& m.device_id == MongolId(parsed_uuid(value.device_id@)->0)
            &&& m.owner_id == MongolId(parsed_uuid(value.owner_id@)->0)
            &&& value.expiration_date.bson_datetime() == Some(m.expiration_date)
            &&& m.flag == value.flag
        },
        Err(e) => {
            ||| first_invalid_id_error(e, ids)
            ||| all_parse(ids) && value.expiration_date.bson_datetime() is None && e.debug_view()
                == expiration_pairs(value.expiration_date) && is_date_error(
                e,
                Kind::InValid,
                REFRESH_TOKEN_STACK@,
            )
        },
    }
}

impl MongolRefreshToken {
    /// The stored form of a refresh token.
    pub fn try_from(value: &RefreshToken) -> (r: Result<MongolRefreshToken, ServerError>)
        ensures
            token_conversion(r, *value),
            value.expiration_date.is_valid() && all_parse(seq![value.device_id@, value.owner_id@])
                ==> r is Ok,
    {
        let ghost a = seq![value.device_id@];
        let ghost b = seq![value.owner_id@];
        assert(seq![value.device_id@, value.owner_id@] =~= a + b);
        let device_id = match convert_domain_id_to_mongol(value.device_id.as_str()) {
            Ok(v) => v,
            Err(e) => {
                proof {
                    lemma_single_invalid(e, value.device_id@);
                    lemma_invalid_before_rest(e, a, b);
                }
                return Err(e);
            },
        };
        assert(all_parse(a)) by {
            assert(a[0] == value.device_id@);
        }
        let owner_id = match convert_domain_id_to_mongol(value.owner_id.as_str()) {
            Ok(v) => v,
            Err(e) => {
                proof {
                    lemma_single_invalid(e, value.owner_id@);
                    lemma_invalid_after_valid(e, a, b);
                }
                return Err(e);
            },
        };
        proof {
            assert(all_parse(b)) by {
                assert(b[0] == value.owner_id@);
            }
            lemma_all_parse_concat(a, b);
        }
        let expiration_date = match value.expiration_date.convert_to_bson_datetime() {
            Ok(d) => d,
            Err(_) => {
                let e = ServerError::new(Kind::InValid, OnType::Date, REFRESH_TOKEN_STACK);
                let e = add_text_pair(e, "expiration date", utc_rfc3339(&value.expiration_date));
                assert(e.debug_view() =~= expiration_pairs(value.expiration_date));
                return Err(e);
            },
        };
        Ok(
            MongolRefreshToken {
                value: value.value.clone(),
                device_id,
                expiration_date,
                flag: value.flag,
                owner_id,
            },
        )
    }
}

/// The stored refresh tokens that the active-token stage selects for
/// device `device_id` at instant `now`: tokens of that device that expire at
/// `now` or later and are not revoked.
pub open spec fn token_is_active(t: MongolRefreshToken, device_id: MongolId, now: i64) -> bool {
    &&& t.device_id == device_id
    &&& t.expiration_date >= now
    &&& t.flag == RefreshTokenFlag::NoFlag
}

/// Whether the active-token stage selects the token.
pub fn is_active_token(t: &MongolRefreshToken, device_id: MongolId, now: i64) -> (r: bool)
    ensures
        r == token_is_active(*t, device_id, now),
{
    t.device_id == device_id && t.expiration_date >= now && t.flag == RefreshTokenFlag::NoFlag
}

/// The pipeline that reads the usable refresh token of device `device_id`
/// at instant `now` (milliseconds since the epoch): the tokens that
/// `token_is_active` selects, joined with their owner.
pub fn valid_token_pipeline(device_id: MongolId, now: i64) -> (r: Vec<PipelineStage>)
    ensures
        stages_view(r@) == seq![StageView::MatchActiveToken { device_id, now }]
            + token_join_stages(),
{
    token_join_after(single(PipelineStage::MatchActiveToken { device_id, now }))
}

/// The error for a device without a usable token: not found, on a refresh
/// token, showing the client the device id as public information.
pub open spec fn is_token_not_found(e: ServerError, device_id: Seq<char>) -> bool {
    &&& e.kind == Kind::NotFound
    &&& e.on_type == OnType::RefreshToken
    &&& e.stack@ == REFRESH_TOKEN_STACK@
    &&& e.debug_info@.len() == 0
    &&& (e.pub_info matches Some(p) && p@ == device_id)
    &&& e.client is None
    &&& e.child is None
}

/// The last step of reading the usable token of a device: the token found,
/// or else a not-found error on a refresh token that shows the client the
/// device id.
pub fn valid_token_result(found: Option<RefreshToken>, device_id: &str) -> (r: Result<
    RefreshToken,
    ServerError,
>)
    ensures
        match found {
            Some(t) => r == Ok::<RefreshToken, ServerError>(t),
            None => r matches Err(e) && is_token_not_found(e, device_id@),
        },
{
    match found {
        Some(t) => Ok(t),
        None => Err(
            ServerError::new(Kind::NotFound, OnType::RefreshToken, REFRESH_TOKEN_STACK)
                .expose_public_info(device_id.to_string()),
        ),
    }
}

/// Which stored refresh tokens a revocation turns to `Revoked`: the tokens
/// of `owner_id`, only of `device_id` where one is given, and only the
/// active ones at `active_at` (not revoked, expiring then or later) where an
/// instant is given.
#[derive(Clone, Copy, Debug)]
pub struct TokenRevocation {
    pub owner_id: MongolId,
    pub device_id: Option<MongolId>,
    pub active_at: Option<i64>,
}

/// Whether a revocation selects the token.
pub open spec fn revocation_selects(r: TokenRevocation, t: MongolRefreshToken) -> bool {
    &&& t.owner_id == r.owner_id
    &&& (r.device_id matches Some(d) ==> t.device_id == d)
    &&& (r.active_at matches Some(now) ==> t.flag == RefreshTokenFlag::NoFlag && t.expiration_date
        >= now)
}

/// Whether the revocation selects the token.
pub fn revocation_selects_token(r: &TokenRevocation, t: &MongolRefreshToken) -> (b: bool)
    ensures
        b == revocation_selects(*r, *t),
{
    let device_ok = match r.device_id {
        Some(d) => t.device_id == d,
        None => true,
    };
    let active_ok = match r.active_at {
        Some(now) => t.flag == RefreshTokenFlag::NoFlag && t.expiration_date >= now,
        None => true,
    };
    t.owner_id == r.owner_id && device_ok && active_ok
}

/// Revoking the token of one device of a user: both ids converted, the
/// user's first.
pub fn revoke_token_plan(user_id: &str, device_id: &str) -> (r: Result<TokenRevocation, ServerError>)
    ensures
        match r {
            Ok(p) => pair_parses(user_id@, device_id@) && p.owner_id == parsed_id(user_id@)
                && p.device_id == Some(parsed_id(device_id@)) && p.active_at is None,
            Err(e) => !pair_parses(user_id@, device_id@) && pair_error(e, user_id@, device_id@),
        },
{
    let (owner, device) = convert_user_pair(user_id, device_id)?;
    Ok(TokenRevocation { owner_id: owner, device_id: Some(device), active_at: None })
}

/// Revoking every active token of a user at instant `now`.
pub fn revoke_all_plan(user_id: &str, now: i64) -> (r: Result<TokenRevocation, ServerError>)
    ensures
        match r {
            Ok(p) => parsed_uuid(user_id@) is Some && p.owner_id == parsed_id(user_id@)
                && p.device_id is None && p.active_at == Some(now),
            Err(e) => parsed_uuid(user_id@) is None && is_invalid_id_error(e, user_id@),
        },
{
    let owner = convert_domain_id_to_mongol(user_id)?;
    Ok(TokenRevocation { owner_id: owner, device_id: None, active_at: Some(now) })
}

/// A token that is active at an instant is active at every earlier one; a
/// revoked token, a token of another device, or one that expired before the
/// instant is never active; an unrevoked token is active up to its
/// expiration date.
pub proof fn law_active_tokens(t: MongolRefreshToken, device_id: MongolId, now: i64, earlier: i64)
    ensures
        token_is_active(t, device_id, now) && earlier <= now ==> token_is_active(t, device_id, earlier),
        t.flag == RefreshTokenFlag::Revoked ==> !token_is_active(t, device_id, now),
        t.device_id != device_id ==> !token_is_active(t, device_id, now),
        t.expiration_date < now ==> !token_is_active(t, device_id, now),
        t.flag == RefreshTokenFlag::NoFlag ==> token_is_active(t, t.device_id, t.expiration_date),
{
}

/// Revoking every active token of a user selects exactly the user's tokens
/// that are active then, whatever their device; revoking the token of one
/// device selects the user's tokens of that device, active or not.
pub proof fn law_revocations_select(owner_id: MongolId, device_id: MongolId, now: i64, t: MongolRefreshToken)
    ensures
        revocation_selects(
            TokenRevocation { owner_id, device_id: None, active_at: Some(now) },
            t,
        ) <==> t.owner_id == owner_id && token_is_active(t, t.device_id, now),
        revocation_selects(
            TokenRevocation { owner_id, device_id: Some(device_id), active_at: None },
            t,
        ) <==> t.owner_id == owner_id && t.device_id == device_id,
{
}

} // verus!
