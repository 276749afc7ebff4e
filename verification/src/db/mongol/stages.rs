use vstd::prelude::*;

use crate::ids::MongolId;

verus! {

/// One field that an `$addFields` stage sets.
#[derive(Clone, Copy, Debug, PartialEq, Eq)]
pub enum FieldSetting {
    /// `target` set to the UUID under `source` as text.
    KeyToString { target: &'static str, source: &'static str },
    /// `target` set to the array under `source` whose elements get `renamed`
    /// set to the UUID under `key` as text.
    KeysToString {
        target: &'static str,
        source: &'static str,
        key: &'static str,
        renamed: &'static str,
    },
    /// `target` set to an object that maps each element of the array under
    /// `source` by its field `key`.
    ToMap { target: &'static str, source: &'static str, key: &'static str },
}

/// One stage of an aggregation pipeline, as plain values; the storage layer
/// turns each into one BSON stage document.
#[derive(Clone, Debug)]
pub enum PipelineStage {
    /// `$match` on documents whose `field` holds (or contains) `id`.
    MatchId { field: &'static str, id: MongolId },
    /// `$match` on refresh tokens that `token_is_active` selects for device
    /// `device_id` at instant `now` (milliseconds since the epoch).
    MatchActiveToken { device_id: MongolId, now: i64 },
    /// `$match` on messages that `message_is_listed` selects for channel
    /// `channel_id`.
    MatchValidMessages { channel_id: MongolId },
    /// `$lookup`: the documents of `from` whose `foreign_field` equals (one
    /// of) the values of `local_field`, put under `as_field`.
    Lookup {
        from: &'static str,
        local_field: &'static str,
        foreign_field: &'static str,
        as_field: &'static str,
    },
    /// `$unwind` of the array under `path`.
    Unwind { path: &'static str },
    /// `$addFields` of the given fields, in one stage.
    AddFields { fields: Vec<FieldSetting> },
    /// `$unset` of the given fields, in one stage.
    Unset { fields: Vec<&'static str> },
    /// `$project` of the value under `source` as `target` only.
    Project { target: &'static str, source: &'static str },
    /// `$replaceWith` of a document holding the whole current one under `field`.
    WrapRoot { field: &'static str },
    /// `$sort` from the greatest value of `field` to the least.
    SortDescending { field: &'static str },
    /// `$skip` of the first `count` documents.
    Skip { count: i32 },
    /// `$limit` to the first `count` documents.
    Limit { count: i32 },
}

/// A pipeline stage with its lists as sequences.
pub enum StageView {
    MatchId { field: &'static str, id: MongolId },
    MatchActiveToken { device_id: MongolId, now: i64 },
    MatchValidMessages { channel_id: MongolId },
    Lookup {
        from: &'static str,
        local_field: &'static str,
        foreign_field: &'static str,
        as_field: &'static str,
    },
    Unwind { path: &'static str },
    AddFields { fields: Seq<FieldSetting> },
    Unset { fields: Seq<&'static str> },
    Project { target: &'static str, source: &'static str },
    WrapRoot { field: &'static str },
    SortDescending { field: &'static str },
    Skip { count: i32 },
    Limit { count: i32 },
}

impl View for PipelineStage {
    type V = StageView;

    open spec fn view(&self) -> StageView {
        match self {
            PipelineStage::MatchId { field, id } => StageView::MatchId { field: *field, id: *id },
            PipelineStage::MatchActiveToken { device_id, now } => StageView::MatchActiveToken {
                device_id: *device_id,
                now: *now,
            },
            PipelineStage::MatchValidMessages { channel_id } => StageView::MatchValidMessages {
                channel_id: *channel_id,
            },
            PipelineStage::Lookup { from, local_field, foreign_field, as_field } => StageView::Lookup {
                from: *from,
                local_field: *local_field,
                foreign_field: *foreign_field,
                as_field: *as_field,
            },
            PipelineStage::Unwind { path } => StageView::Unwind { path: *path },
            PipelineStage::AddFields { fields } => StageView::AddFields { fields: fields@ },
            PipelineStage::Unset { fields } => StageView::Unset { fields: fields@ },
            PipelineStage::Project { target, source } => StageView::Project {
                target: *target,
                source: *source,
            },
            PipelineStage::WrapRoot { field } => StageView::WrapRoot { field: *field },
            PipelineStage::SortDescending { field } => StageView::SortDescending { field: *field },
            PipelineStage::Skip { count } => StageView::Skip { count: *count },
            PipelineStage::Limit { count } => StageView::Limit { count: *count },
        }
    }
}

/// The stages of a pipeline with their lists as sequences.
pub open spec fn stages_view(stages: Seq<PipelineStage>) -> Seq<StageView> {
    stages.map_values(|s: PipelineStage| s@)
}

/// A pipeline of one stage.
pub fn single(stage: PipelineStage) -> (r: Vec<PipelineStage>)
    ensures
        stages_view(r@) == seq![stage@],
{
    let r = vec![stage];
    assert(stages_view(r@) =~= seq![stage@]);
    r
}

/// A count as a pipeline count: itself where it fits in an `i32`, else 0.
pub open spec fn count_or_zero(n: u64) -> i32 {
    if n <= i32::MAX as u64 {
        n as i32
    } else {
        0
    }
}

/// A count as a pipeline count: itself where it fits in an `i32`, else 0.
pub fn pipeline_count(n: u64) -> (r: i32)
    ensures
        r == count_or_zero(n),
{
    if n <= 2147483647 {
        n as i32
    } else {
        0
    }
}

/// The stages that join a matched private chat with its owners and channel
/// and turn its ids into text.
pub open spec fn private_chat_stages() -> Seq<StageView> {
    seq![
        StageView::Lookup { from: "users", local_field: "Private.owner_ids", foreign_field: "_id", as_field: "Private.owners" },
        StageView::Lookup { from: "channels", local_field: "Private.channel_id", foreign_field: "_id", as_field: "Private.channel" },
        StageView::Unwind { path: "$Private.channel" },
        StageView::AddFields { fields: seq![FieldSetting::KeyToString { target: "Private.id", source: "$Private._id" }, FieldSetting::KeyToString { target: "Private.channel.id", source: "$Private.channel._id" }, FieldSetting::KeysToString { target: "Private.owners", source: "$Private.owners", key: "_id", renamed: "id" }] },
        StageView::Unset { fields: seq!["_id", "Private.owner_ids", "Private.owners._id", "Private.channel._id"] },
    ]
}

/// Appends the stages of `private_chat_stages`.
pub fn private_chat_after(r: Vec<PipelineStage>) -> (out: Vec<PipelineStage>)
    ensures
        stages_view(out@) == stages_view(r@) + private_chat_stages(),
{
    let ghost start = stages_view(r@);
    let mut out = r;
    out.push(PipelineStage::Lookup { from: "users", local_field: "Private.owner_ids", foreign_field: "_id", as_field: "Private.owners" });
    out.push(PipelineStage::Lookup { from: "channels", local_field: "Private.channel_id", foreign_field: "_id", as_field: "Private.channel" });
    out.push(PipelineStage::Unwind { path: "$Private.channel" });
    let f3 = vec![FieldSetting::KeyToString { target: "Private.id", source: "$Private._id" }, FieldSetting::KeyToString { target: "Private.channel.id", source: "$Private.channel._id" }, FieldSetting::KeysToString { target: "Private.owners", source: "$Private.owners", key: "_id", renamed: "id" }];
    assert(f3@ =~= seq![FieldSetting::KeyToString { target: "Private.id", source: "$Private._id" }, FieldSetting::KeyToString { target: "Private.channel.id", source: "$Private.channel._id" }, FieldSetting::KeysToString { target: "Private.owners", source: "$Private.owners", key: "_id", renamed: "id" }]);
    out.push(PipelineStage::AddFields { fields: f3 });
    let f4: Vec<&'static str> = vec!["_id", "Private.owner_ids", "Private.owners._id", "Private.channel._id"];
    assert(f4@ =~= seq!["_id", "Private.owner_ids", "Private.owners._id", "Private.channel._id"]);
    out.push(PipelineStage::Unset { fields: f4 });
    assert(stages_view(out@) =~= start + private_chat_stages());
    out
}

/// The stages that join a matched group chat with its owner, channel and
/// users, turn its ids into text and key its users by id.
pub open spec fn group_chat_stages() -> Seq<StageView> {
    seq![
        StageView::Lookup { from: "users", local_field: "Group.owner_id", foreign_field: "_id", as_field: "Group.owner" },
        StageView::Unwind { path: "$Group.owner" },
        StageView::Lookup { from: "channels", local_field: "Group.channel_id", foreign_field: "_id", as_field: "Group.channel" },
        StageView::Unwind { path: "$Group.channel" },
        StageView::Lookup { from: "users", local_field: "Group.user_ids", foreign_field: "_id", as_field: "Group.users" },
        StageView::AddFields { fields: seq![FieldSetting::KeyToString { target: "Group.id", source: "$Group._id" }, FieldSetting::KeyToString { target: "Group.owner.id", source: "$Group.owner._id" }, FieldSetting::KeyToString { target: "Group.channel.id", source: "$Group.channel._id" }, FieldSetting::KeysToString { target: "Group.users", source: "$Group.users", key: "_id", renamed: "id" }] },
        StageView::AddFields { fields: seq![FieldSetting::ToMap { target: "Group.users", source: "$Group.users", key: "id" }] },
        StageView::Unset { fields: seq!["_id", "Group._id", "Group.owner_id", "Group.owner._id", "Group.user_ids", "Group.channel._id"] },
    ]
}

/// Appends the stages of `group_chat_stages`.
pub fn group_chat_after(r: Vec<PipelineStage>) -> (out: Vec<PipelineStage>)
    ensures
        stages_view(out@) == stages_view(r@) + group_chat_stages(),
{
    let ghost start = stages_view(r@);
    let mut out = r;
    out.push(PipelineStage::Lookup { from: "users", local_field: "Group.owner_id", foreign_field: "_id", as_field: "Group.owner" });
    out.push(PipelineStage::Unwind { path: "$Group.owner" });
    out.push(PipelineStage::Lookup { from: "channels", local_field: "Group.channel_id", foreign_field: "_id", as_field: "Group.channel" });
    out.push(PipelineStage::Unwind { path: "$Group.channel" });
    out.push(PipelineStage::Lookup { from: "users", local_field: "Group.user_ids", foreign_field: "_id", as_field: "Group.users" });
    let f5 = vec![FieldSetting::KeyToString { target: "Group.id", source: "$Group._id" }, FieldSetting::KeyToString { target: "Group.owner.id", source: "$Group.owner._id" }, FieldSetting::KeyToString { target: "Group.channel.id", source: "$Group.channel._id" }, FieldSetting::KeysToString { target: "Group.users", source: "$Group.users", key: "_id", renamed: "id" }];
    assert(f5@ =~= seq![FieldSetting::KeyToString { target: "Group.id", source: "$Group._id" }, FieldSetting::KeyToString { target: "Group.owner.id", source: "$Group.owner._id" }, FieldSetting::KeyToString { target: "Group.channel.id", source: "$Group.channel._id" }, FieldSetting::KeysToString { target: "Group.users", source: "$Group.users", key: "_id", renamed: "id" }]);
    out.push(PipelineStage::AddFields { fields: f5 });
    let f6 = vec![FieldSetting::ToMap { target: "Group.users", source: "$Group.users", key: "id" }];
    assert(f6@ =~= seq![FieldSetting::ToMap { target: "Group.users", source: "$Group.users", key: "id" }]);
    out.push(PipelineStage::AddFields { fields: f6 });
    let f7: Vec<&'static str> = vec!["_id", "Group._id", "Group.owner_id", "Group.owner._id", "Group.user_ids", "Group.channel._id"];
    assert(f7@ =~= seq!["_id", "Group._id", "Group.owner_id", "Group.owner._id", "Group.user_ids", "Group.channel._id"]);
    out.push(PipelineStage::Unset { fields: f7 });
    assert(stages_view(out@) =~= start + group_chat_stages());
    out
}

/// The stages that join a matched server with its owner, users and
/// channels, turn its ids into text and key its users and channels by id.
pub open spec fn server_stages() -> Seq<StageView> {
    seq![
        StageView::Lookup { from: "users", local_field: "owner_id", foreign_field: "_id", as_field: "owner" },
        StageView::Unwind { path: "$owner" },
        StageView::Lookup { from: "users", local_field: "user_ids", foreign_field: "_id", as_field: "users" },
        StageView::Lookup { from: "channels", local_field: "channel_ids", foreign_field: "_id", as_field: "channels" },
        StageView::AddFields { fields: seq![FieldSetting::KeyToString { target: "id", source: "$_id" }, FieldSetting::KeyToString { target: "owner.id", source: "$owner._id" }, FieldSetting::KeysToString { target: "users", source: "$users", key: "_id", renamed: "id" }, FieldSetting::KeysToString { target: "channels", source: "$channels", key: "_id", renamed: "id" }] },
        StageView::AddFields { fields: seq![FieldSetting::ToMap { target: "users", source: "$users", key: "id" }, FieldSetting::ToMap { target: "channels", source: "$channels", key: "id" }] },
        StageView::Unset { fields: seq!["_id", "owner_id", "user_ids", "owner._id", "channel_ids", "channels._id"] },
    ]
}

/// Appends the stages of `server_stages`.
pub fn server_after(r: Vec<PipelineStage>) -> (out: Vec<PipelineStage>)
    ensures
        stages_view(out@) == stages_view(r@) + server_stages(),
{
    let ghost start = stages_view(r@);
    let mut out = r;
    out.push(PipelineStage::Lookup { from: "users", local_field: "owner_id", foreign_field: "_id", as_field: "owner" });
    out.push(PipelineStage::Unwind { path: "$owner" });
    out.push(PipelineStage::Lookup { from: "users", local_field: "user_ids", foreign_field: "_id", as_field: "users" });
    out.push(PipelineStage::Lookup { from: "channels", local_field: "channel_ids", foreign_field: "_id", as_field: "channels" });
    let f4 = vec![FieldSetting::KeyToString { target: "id", source: "$_id" }, FieldSetting::KeyToString { target: "owner.id", source: "$owner._id" }, FieldSetting::KeysToString { target: "users", source: "$users", key: "_id", renamed: "id" }, FieldSetting::KeysToString { target: "channels", source: "$channels", key: "_id", renamed: "id" }];
    assert(f4@ =~= seq![FieldSetting::KeyToString { target: "id", source: "$_id" }, FieldSetting::KeyToString { target: "owner.id", source: "$owner._id" }, FieldSetting::KeysToString { target: "users", source: "$users", key: "_id", renamed: "id" }, FieldSetting::KeysToString { target: "channels", source: "$channels", key: "_id", renamed: "id" }]);
    out.push(PipelineStage::AddFields { fields: f4 });
    let f5 = vec![FieldSetting::ToMap { target: "users", source: "$users", key: "id" }, FieldSetting::ToMap { target: "channels", source: "$channels", key: "id" }];
    assert(f5@ =~= seq![FieldSetting::ToMap { target: "users", source: "$users", key: "id" }, FieldSetting::ToMap { target: "channels", source: "$channels", key: "id" }]);
    out.push(PipelineStage::AddFields { fields: f5 });
    let f6: Vec<&'static str> = vec!["_id", "owner_id", "user_ids", "owner._id", "channel_ids", "channels._id"];
    assert(f6@ =~= seq!["_id", "owner_id", "user_ids", "owner._id", "channel_ids", "channels._id"]);
    out.push(PipelineStage::Unset { fields: f6 });
    assert(stages_view(out@) =~= start + server_stages());
    out
}

/// The stages that join a matched refresh token with its owner and turn its
/// ids into text.
pub open spec fn token_join_stages() -> Seq<StageView> {
    seq![
        StageView::Lookup { from: "users", local_field: "owner_id", foreign_field: "_id", as_field: "owner" },
        StageView::Unwind { path: "$owner" },
        StageView::AddFields { fields: seq![FieldSetting::KeyToString { target: "device_id", source: "$device_id" }, FieldSetting::KeyToString { target: "owner.id", source: "$owner._id" }] },
        StageView::Unset { fields: seq!["_id", "owner_id", "owner._id"] },
    ]
}

/// Appends the stages of `token_join_stages`.
pub fn token_join_after(r: Vec<PipelineStage>) -> (out: Vec<PipelineStage>)
    ensures
        stages_view(out@) == stages_view(r@) + token_join_stages(),
{
    let ghost start = stages_view(r@);
    let mut out = r;
    out.push(PipelineStage::Lookup { from: "users", local_field: "owner_id", foreign_field: "_id", as_field: "owner" });
    out.push(PipelineStage::Unwind { path: "$owner" });
    let f2 = vec![FieldSetting::KeyToString { target: "device_id", source: "$device_id" }, FieldSetting::KeyToString { target: "owner.id", source: "$owner._id" }];
    assert(f2@ =~= seq![FieldSetting::KeyToString { target: "device_id", source: "$device_id" }, FieldSetting::KeyToString { target: "owner.id", source: "$owner._id" }]);
    out.push(PipelineStage::AddFields { fields: f2 });
    let f3: Vec<&'static str> = vec!["_id", "owner_id", "owner._id"];
    assert(f3@ =~= seq!["_id", "owner_id", "owner._id"]);
    out.push(PipelineStage::Unset { fields: f3 });
    assert(stages_view(out@) =~= start + token_join_stages());
    out
}

/// The stages that join a matched message with its chat and owner and turn
/// its ids into text.
pub open spec fn message_join_stages() -> Seq<StageView> {
    seq![
        StageView::Lookup { from: "chats", local_field: "channel_id", foreign_field: "_id", as_field: "channel" },
        StageView::Lookup { from: "users", local_field: "owner_id", foreign_field: "_id", as_field: "owner" },
        StageView::Unwind { path: "$chat" },
        StageView::Unwind { path: "$owner" },
        StageView::Lookup { from: "users", local_field: "chat.owner_ids", foreign_field: "_id", as_field: "chat.owners" },
        StageView::Lookup { from: "users", local_field: "chat.user_ids", foreign_field: "_id", as_field: "chat.users" },
        StageView::AddFields { fields: seq![FieldSetting::KeyToString { target: "id", source: "$_id" }, FieldSetting::KeyToString { target: "bucket_id", source: "$bucket_id" }, FieldSetting::KeyToString { target: "chat.id", source: "$chat._id" }, FieldSetting::KeyToString { target: "owner.id", source: "$owner._id" }, FieldSetting::KeysToString { target: "chat.owners", source: "$chat.owners", key: "_id", renamed: "id" }, FieldSetting::KeysToString { target: "chat.users", source: "$chat.users", key: "_id", renamed: "id" }] },
        StageView::Unset { fields: seq!["_id", "owner_id", "chat_id", "chat._id", "chat.owner_ids", "chat.user_ids", "chat.bucket_ids", "chat.owners._id", "chat.users._id", "owner._id"] },
    ]
}

/// Appends the stages of `message_join_stages`.
pub fn message_join_after(r: Vec<PipelineStage>) -> (out: Vec<PipelineStage>)
    ensures
        stages_view(out@) == stages_view(r@) + message_join_stages(),
{
    let ghost start = stages_view(r@);
    let mut out = r;
    out.push(PipelineStage::Lookup { from: "chats", local_field: "channel_id", foreign_field: "_id", as_field: "channel" });
    out.push(PipelineStage::Lookup { from: "users", local_field: "owner_id", foreign_field: "_id", as_field: "owner" });
    out.push(PipelineStage::Unwind { path: "$chat" });
    out.push(PipelineStage::Unwind { path: "$owner" });
    out.push(PipelineStage::Lookup { from: "users", local_field: "chat.owner_ids", foreign_field: "_id", as_field: "chat.owners" });
    out.push(PipelineStage::Lookup { from: "users", local_field: "chat.user_ids", foreign_field: "_id", as_field: "chat.users" });
    let f6 = vec![FieldSetting::KeyToString { target: "id", source: "$_id" }, FieldSetting::KeyToString { target: "bucket_id", source: "$bucket_id" }, FieldSetting::KeyToString { target: "chat.id", source: "$chat._id" }, FieldSetting::KeyToString { target: "owner.id", source: "$owner._id" }, FieldSetting::KeysToString { target: "chat.owners", source: "$chat.owners", key: "_id", renamed: "id" }, FieldSetting::KeysToString { target: "chat.users", source: "$chat.users", key: "_id", renamed: "id" }];
    assert(f6@ =~= seq![FieldSetting::KeyToString { target: "id", source: "$_id" }, FieldSetting::KeyToString { target: "bucket_id", source: "$bucket_id" }, FieldSetting::KeyToString { target: "chat.id", source: "$chat._id" }, FieldSetting::KeyToString { target: "owner.id", source: "$owner._id" }, FieldSetting::KeysToString { target: "chat.owners", source: "$chat.owners", key: "_id", renamed: "id" }, FieldSetting::KeysToString { target: "chat.users", source: "$chat.users", key: "_id", renamed: "id" }]);
    out.push(PipelineStage::AddFields { fields: f6 });
    let f7: Vec<&'static str> = vec!["_id", "owner_id", "chat_id", "chat._id", "chat.owner_ids", "chat.user_ids", "chat.bucket_ids", "chat.owners._id", "chat.users._id", "owner._id"];
    assert(f7@ =~= seq!["_id", "owner_id", "chat_id", "chat._id", "chat.owner_ids", "chat.user_ids", "chat.bucket_ids", "chat.owners._id", "chat.users._id", "owner._id"]);
    out.push(PipelineStage::Unset { fields: f7 });
    assert(stages_view(out@) =~= start + message_join_stages());
    out
}

/// The stages that turn a user's id into text.
pub open spec fn user_text_stages() -> Seq<StageView> {
    seq![
        StageView::AddFields { fields: seq![FieldSetting::KeyToString { target: "id", source: "$_id" }] },
        StageView::Unset { fields: seq!["_id"] },
    ]
}

/// Appends the stages of `user_text_stages`.
pub fn user_text_after(r: Vec<PipelineStage>) -> (out: Vec<PipelineStage>)
    ensures
        stages_view(out@) == stages_view(r@) + user_text_stages(),
{
    let ghost start = stages_view(r@);
    let mut out = r;
    let f0 = vec![FieldSetting::KeyToString { target: "id", source: "$_id" }];
    assert(f0@ =~= seq![FieldSetting::KeyToString { target: "id", source: "$_id" }]);
    out.push(PipelineStage::AddFields { fields: f0 });
    let f1: Vec<&'static str> = vec!["_id"];
    assert(f1@ =~= seq!["_id"]);
    out.push(PipelineStage::Unset { fields: f1 });
    assert(stages_view(out@) =~= start + user_text_stages());
    out
}

/// The stages that read a private chat of the first layout in full.
pub open spec fn first_private_stages() -> Seq<StageView> {
    seq![
        StageView::Project { target: "Private", source: "$chat.Private" },
        StageView::Lookup { from: "users", local_field: "Private.owner_ids", foreign_field: "_id", as_field: "Private.owners" },
        StageView::AddFields { fields: seq![FieldSetting::KeyToString { target: "Private.id", source: "$_id" }, FieldSetting::KeyToString { target: "Private.chat_info.id", source: "$Private.chat_info._id" }, FieldSetting::KeysToString { target: "Private.owners", source: "$Private.owners", key: "_id", renamed: "id" }] },
        StageView::Unset { fields: seq!["_id", "Private.owner_ids", "Private.owners._id", "Private.chat_info._id"] },
    ]
}

/// Appends the stages of `first_private_stages`.
pub fn first_private_after(r: Vec<PipelineStage>) -> (out: Vec<PipelineStage>)
    ensures
        stages_view(out@) == stages_view(r@) + first_private_stages(),
{
    let ghost start = stages_view(r@);
    let mut out = r;
    out.push(PipelineStage::Project { target: "Private", source: "$chat.Private" });
    out.push(PipelineStage::Lookup { from: "users", local_field: "Private.owner_ids", foreign_field: "_id", as_field: "Private.owners" });
    let f2 = vec![FieldSetting::KeyToString { target: "Private.id", source: "$_id" }, FieldSetting::KeyToString { target: "Private.chat_info.id", source: "$Private.chat_info._id" }, FieldSetting::KeysToString { target: "Private.owners", source: "$Private.owners", key: "_id", renamed: "id" }];
    assert(f2@ =~= seq![FieldSetting::KeyToString { target: "Private.id", source: "$_id" }, FieldSetting::KeyToString { target: "Private.chat_info.id", source: "$Private.chat_info._id" }, FieldSetting::KeysToString { target: "Private.owners", source: "$Private.owners", key: "_id", renamed: "id" }]);
    out.push(PipelineStage::AddFields { fields: f2 });
    let f3: Vec<&'static str> = vec!["_id", "Private.owner_ids", "Private.owners._id", "Private.chat_info._id"];
    assert(f3@ =~= seq!["_id", "Private.owner_ids", "Private.owners._id", "Private.chat_info._id"]);
    out.push(PipelineStage::Unset { fields: f3 });
    assert(stages_view(out@) =~= start + first_private_stages());
    out
}

/// The stages that read a group chat of the first layout in full.
pub open spec fn first_group_stages() -> Seq<StageView> {
    seq![
        StageView::Project { target: "Group", source: "$chat.Group" },
        StageView::Lookup { from: "users", local_field: "Group.owner_id", foreign_field: "_id", as_field: "Group.owner" },
        StageView::Unwind { path: "$Group.owner" },
        StageView::Lookup { from: "users", local_field: "Group.user_ids", foreign_field: "_id", as_field: "Group.users" },
        StageView::AddFields { fields: seq![FieldSetting::KeyToString { target: "Group.id", source: "$_id" }, FieldSetting::KeyToString { target: "Group.owner", source: "$Group.owner._id" }, FieldSetting::KeyToString { target: "Group.chat_info.id", source: "$Group.chat_info._id" }, FieldSetting::KeysToString { target: "Group.users", source: "$Group.users", key: "_id", renamed: "id" }] },
        StageView::Unset { fields: seq!["_id", "Group.owner_id", "Group.user_ids", "Group.owner._id", "Group.chat_info._id"] },
    ]
}

/// Appends the stages of `first_group_stages`.
pub fn first_group_after(r: Vec<PipelineStage>) -> (out: Vec<PipelineStage>)
    ensures
        stages_view(out@) == stages_view(r@) + first_group_stages(),
{
    let ghost start = stages_view(r@);
    let mut out = r;
    out.push(PipelineStage::Project { target: "Group", source: "$chat.Group" });
    out.push(PipelineStage::Lookup { from: "users", local_field: "Group.owner_id", foreign_field: "_id", as_field: "Group.owner" });
    out.push(PipelineStage::Unwind { path: "$Group.owner" });
    out.push(PipelineStage::Lookup { from: "users", local_field: "Group.user_ids", foreign_field: "_id", as_field: "Group.users" });
    let f4 = vec![FieldSetting::KeyToString { target: "Group.id", source: "$_id" }, FieldSetting::KeyToString { target: "Group.owner", source: "$Group.owner._id" }, FieldSetting::KeyToString { target: "Group.chat_info.id", source: "$Group.chat_info._id" }, FieldSetting::KeysToString { target: "Group.users", source: "$Group.users", key: "_id", renamed: "id" }];
    assert(f4@ =~= seq![FieldSetting::KeyToString { target: "Group.id", source: "$_id" }, FieldSetting::KeyToString { target: "Group.owner", source: "$Group.owner._id" }, FieldSetting::KeyToString { target: "Group.chat_info.id", source: "$Group.chat_info._id" }, FieldSetting::KeysToString { target: "Group.users", source: "$Group.users", key: "_id", renamed: "id" }]);
    out.push(PipelineStage::AddFields { fields: f4 });
    let f5: Vec<&'static str> = vec!["_id", "Group.owner_id", "Group.user_ids", "Group.owner._id", "Group.chat_info._id"];
    assert(f5@ =~= seq!["_id", "Group.owner_id", "Group.user_ids", "Group.owner._id", "Group.chat_info._id"]);
    out.push(PipelineStage::Unset { fields: f5 });
    assert(stages_view(out@) =~= start + first_group_stages());
    out
}

/// The stages that read a server chat of the first layout in full; they
/// start without a match stage, so every server chat is read.
pub open spec fn first_server_stages() -> Seq<StageView> {
    seq![
        StageView::Project { target: "Server", source: "$chat.Server" },
        StageView::Lookup { from: "users", local_field: "Server.owner_id", foreign_field: "_id", as_field: "Server.owner" },
        StageView::Unwind { path: "$Server.owner" },
        StageView::Lookup { from: "users", local_field: "Server.user_ids", foreign_field: "_id", as_field: "Server.users" },
        StageView::AddFields { fields: seq![FieldSetting::KeyToString { target: "Server.id", source: "$_id" }, FieldSetting::KeyToString { target: "Server.owner", source: "$Server.owner._id" }, FieldSetting::KeysToString { target: "Server.users", source: "$Server.users", key: "_id", renamed: "id" }, FieldSetting::KeysToString { target: "Server.chat_infos", source: "$Server.chat_infos", key: "_id", renamed: "id" }] },
        StageView::Unset { fields: seq!["_id", "Server.owner_id", "Server.user_ids", "Server.owner._id", "Server.chat_infos._id"] },
    ]
}

/// Appends the stages of `first_server_stages`.
pub fn first_server_after(r: Vec<PipelineStage>) -> (out: Vec<PipelineStage>)
    ensures
        stages_view(out@) == stages_view(r@) + first_server_stages(),
{
    let ghost start = stages_view(r@);
    let mut out = r;
    out.push(PipelineStage::Project { target: "Server", source: "$chat.Server" });
    out.push(PipelineStage::Lookup { from: "users", local_field: "Server.owner_id", foreign_field: "_id", as_field: "Server.owner" });
    out.push(PipelineStage::Unwind { path: "$Server.owner" });
    out.push(PipelineStage::Lookup { from: "users", local_field: "Server.user_ids", foreign_field: "_id", as_field: "Server.users" });
    let f4 = vec![FieldSetting::KeyToString { target: "Server.id", source: "$_id" }, FieldSetting::KeyToString { target: "Server.owner", source: "$Server.owner._id" }, FieldSetting::KeysToString { target: "Server.users", source: "$Server.users", key: "_id", renamed: "id" }, FieldSetting::KeysToString { target: "Server.chat_infos", source: "$Server.chat_infos", key: "_id", renamed: "id" }];
    assert(f4@ =~= seq![FieldSetting::KeyToString { target: "Server.id", source: "$_id" }, FieldSetting::KeyToString { target: "Server.owner", source: "$Server.owner._id" }, FieldSetting::KeysToString { target: "Server.users", source: "$Server.users", key: "_id", renamed: "id" }, FieldSetting::KeysToString { target: "Server.chat_infos", source: "$Server.chat_infos", key: "_id", renamed: "id" }]);
    out.push(PipelineStage::AddFields { fields: f4 });
    let f5: Vec<&'static str> = vec!["_id", "Server.owner_id", "Server.user_ids", "Server.owner._id", "Server.chat_infos._id"];
    assert(f5@ =~= seq!["_id", "Server.owner_id", "Server.user_ids", "Server.owner._id", "Server.chat_infos._id"]);
    out.push(PipelineStage::Unset { fields: f5 });
    assert(stages_view(out@) =~= start + first_server_stages());
    out
}

/// `stages` fill `as_field` by a lookup, and only that way: a stage looks up
/// the documents of `from` whose `_id` is among the values under `local`
/// and puts them under `as_field`, and every lookup that fills `as_field`
/// is that one.
pub open spec fn fills_by_lookup(
    stages: Seq<StageView>,
    as_field: &'static str,
    from: &'static str,
    local: &'static str,
) -> bool {
    &&& exists|k: int|
        0 <= k < stages.len() && #[trigger] stages[k] == (StageView::Lookup {
            from,
            local_field: local,
            foreign_field: "_id",
            as_field,
        })
    &&& forall|k: int|
        0 <= k < stages.len() ==> match #[trigger] stages[k] {
            StageView::Lookup { from: f, local_field: l, foreign_field: g, as_field: a } => a
                == as_field ==> f == from && l == local && g == "_id",
            _ => true,
        }
}

/// The lookup at `k` fills `as_field` from `from` by `local`, and an unwind
/// of `as_field` follows it right away.
pub open spec fn lookup_then_unwind(
    stages: Seq<StageView>,
    k: int,
    as_field: &'static str,
    from: &'static str,
    local: &'static str,
    path: &'static str,
) -> bool {
    &&& 0 <= k && k + 1 < stages.len()
    &&& stages[k] == (StageView::Lookup { from, local_field: local, foreign_field: "_id", as_field })
    &&& stages[k + 1] == (StageView::Unwind { path })
}

/// The field names the joins write are different texts.
proof fn lemma_join_targets_differ()
    ensures
        "Group.owner" != "Group.users",
        "Group.channel" != "Group.users",
        "Group.owner" != "Group.channel",
        "owner" != "users",
        "owner" != "channels",
        "users" != "channels",
        "Private.owners" != "Private.channel",
        "channel" != "owner",
        "channel" != "chat.owners",
        "channel" != "chat.users",
        "owner" != "chat.owners",
        "owner" != "chat.users",
        "chat.owners" != "chat.users",
        "Server.owner" != "Server.users",
{
    reveal_strlit("Group.owner");
    reveal_strlit("Group.users");
    reveal_strlit("Group.channel");
    reveal_strlit("owner");
    reveal_strlit("users");
    reveal_strlit("channels");
    reveal_strlit("Private.owners");
    reveal_strlit("Private.channel");
    assert("Group.owner"@[6] != "Group.users"@[6]);
    assert("Group.channel"@.len() != "Group.users"@.len());
    assert("Group.owner"@.len() != "Group.channel"@.len());
    assert("owner"@[0] != "users"@[0]);
    assert("owner"@.len() != "channels"@.len());
    assert("users"@.len() != "channels"@.len());
    assert("Private.owners"@.len() != "Private.channel"@.len());
    reveal_strlit("channel");
    reveal_strlit("chat.owners");
    reveal_strlit("chat.users");
    reveal_strlit("Server.owner");
    reveal_strlit("Server.users");
    assert("channel"@.len() != "owner"@.len());
    assert("channel"@.len() != "chat.owners"@.len());
    assert("channel"@.len() != "chat.users"@.len());
    assert("owner"@.len() != "chat.owners"@.len());
    assert("owner"@.len() != "chat.users"@.len());
    assert("chat.owners"@.len() != "chat.users"@.len());
    assert("Server.owner"@[7] != "Server.users"@[7]);
}

/// Reading a group chat joins its owner from `Group.owner_id`, its channel
/// from `Group.channel_id` and its users from `Group.user_ids`, each from
/// the collection that holds them; the owner and the channel are unwound to
/// single documents right after their lookups.
pub proof fn law_group_read_joins_owner_channel_and_users()
    ensures
        fills_by_lookup(group_chat_stages(), "Group.owner", "users", "Group.owner_id"),
        fills_by_lookup(group_chat_stages(), "Group.channel", "channels", "Group.channel_id"),
        fills_by_lookup(group_chat_stages(), "Group.users", "users", "Group.user_ids"),
        exists|k: int|
            lookup_then_unwind(
                group_chat_stages(),
                k,
                "Group.owner",
                "users",
                "Group.owner_id",
                "$Group.owner",
            ),
        exists|k: int|
            lookup_then_unwind(
                group_chat_stages(),
                k,
                "Group.channel",
                "channels",
                "Group.channel_id",
                "$Group.channel",
            ),
{
    lemma_join_targets_differ();
    let s = group_chat_stages();
    assert(lookup_then_unwind(s, 0, "Group.owner", "users", "Group.owner_id", "$Group.owner"));
    assert(lookup_then_unwind(s, 2, "Group.channel", "channels", "Group.channel_id", "$Group.channel"));
    assert(s[4] == (StageView::Lookup {
        from: "users",
        local_field: "Group.user_ids",
        foreign_field: "_id",
        as_field: "Group.users",
    }));
}

/// Reading a private chat joins its owners from `Private.owner_ids` and its
/// channel from `Private.channel_id`.
pub proof fn law_private_read_joins_owners_and_channel()
    ensures
        fills_by_lookup(private_chat_stages(), "Private.owners", "users", "Private.owner_ids"),
        fills_by_lookup(
            private_chat_stages(),
            "Private.channel",
            "channels",
            "Private.channel_id",
        ),
{
    lemma_join_targets_differ();
    let s = private_chat_stages();
    assert(s[0] == (StageView::Lookup {
        from: "users",
        local_field: "Private.owner_ids",
        foreign_field: "_id",
        as_field: "Private.owners",
    }));
    assert(s[1] == (StageView::Lookup {
        from: "channels",
        local_field: "Private.channel_id",
        foreign_field: "_id",
        as_field: "Private.channel",
    }));
}

/// Reading a server joins its owner from `owner_id` (unwound to one
/// document), its users from `user_ids` and its channels, from the
/// channels collection, from `channel_ids`.
pub proof fn law_server_read_joins_owner_users_and_channels()
    ensures
        fills_by_lookup(server_stages(), "owner", "users", "owner_id"),
        fills_by_lookup(server_stages(), "users", "users", "user_ids"),
        fills_by_lookup(server_stages(), "channels", "channels", "channel_ids"),
        exists|k: int| lookup_then_unwind(server_stages(), k, "owner", "users", "owner_id", "$owner"),
{
    lemma_join_targets_differ();
    let s = server_stages();
    assert(lookup_then_unwind(s, 0, "owner", "users", "owner_id", "$owner"));
    assert(s[2] == (StageView::Lookup {
        from: "users",
        local_field: "user_ids",
        foreign_field: "_id",
        as_field: "users",
    }));
    assert(s[3] == (StageView::Lookup {
        from: "channels",
        local_field: "channel_ids",
        foreign_field: "_id",
        as_field: "channels",
    }));
}

/// Reading a refresh token joins its owner, the user whose `_id` is the
/// token's `owner_id`, unwound to one document right after the lookup.
pub proof fn law_token_read_joins_its_owner()
    ensures
        fills_by_lookup(token_join_stages(), "owner", "users", "owner_id"),
        exists|k: int| lookup_then_unwind(token_join_stages(), k, "owner", "users", "owner_id", "$owner"),
{
    let s = token_join_stages();
    assert(lookup_then_unwind(s, 0, "owner", "users", "owner_id", "$owner"));
}

/// A lookup at `k` fills `as_field` from `from` by `local`, and some later
/// stage unwinds `path`.
pub open spec fn lookup_later_unwound(
    stages: Seq<StageView>,
    k: int,
    as_field: &'static str,
    from: &'static str,
    local: &'static str,
    path: &'static str,
) -> bool {
    &&& 0 <= k < stages.len()
    &&& stages[k] == (StageView::Lookup { from, local_field: local, foreign_field: "_id", as_field })
    &&& exists|j: int| k < j < stages.len() && #[trigger] stages[j] == (StageView::Unwind { path })
}

/// Reading a message joins its owner, the user whose `_id` is the message's
/// `owner_id` (unwound to one document later), puts the documents of the
/// chats collection whose `_id` is the message's `channel_id` under
/// `channel`, and joins the chat's owners and users from `chat.owner_ids`
/// and `chat.user_ids`.
pub proof fn law_message_read_joins_owner_and_chat_members()
    ensures
        fills_by_lookup(message_join_stages(), "owner", "users", "owner_id"),
        fills_by_lookup(message_join_stages(), "channel", "chats", "channel_id"),
        fills_by_lookup(message_join_stages(), "chat.owners", "users", "chat.owner_ids"),
        fills_by_lookup(message_join_stages(), "chat.users", "users", "chat.user_ids"),
        exists|k: int|
            lookup_later_unwound(message_join_stages(), k, "owner", "users", "owner_id", "$owner"),
{
    lemma_join_targets_differ();
    let s = message_join_stages();
    assert(s[0] == (StageView::Lookup {
        from: "chats",
        local_field: "channel_id",
        foreign_field: "_id",
        as_field: "channel",
    }));
    assert(s[3] == (StageView::Unwind { path: "$owner" }));
    assert(lookup_later_unwound(s, 1, "owner", "users", "owner_id", "$owner"));
    assert(s[4] == (StageView::Lookup {
        from: "users",
        local_field: "chat.owner_ids",
        foreign_field: "_id",
        as_field: "chat.owners",
    }));
    assert(s[5] == (StageView::Lookup {
        from: "users",
        local_field: "chat.user_ids",
        foreign_field: "_id",
        as_field: "chat.users",
    }));
}

/// Reading a chat of the first layout joins the members from the stored
/// ids: a private chat's owners from `Private.owner_ids`; a group's owner
/// from `Group.owner_id` (unwound right after) and users from
/// `Group.user_ids`; a server's owner from `Server.owner_id` (unwound right
/// after) and users from `Server.user_ids`.
pub proof fn law_first_layout_reads_join_members()
    ensures
        fills_by_lookup(first_private_stages(), "Private.owners", "users", "Private.owner_ids"),
        fills_by_lookup(first_group_stages(), "Group.owner", "users", "Group.owner_id"),
        fills_by_lookup(first_group_stages(), "Group.users", "users", "Group.user_ids"),
        fills_by_lookup(first_server_stages(), "Server.owner", "users", "Server.owner_id"),
        fills_by_lookup(first_server_stages(), "Server.users", "users", "Server.user_ids"),
        exists|k: int|
            lookup_then_unwind(
                first_group_stages(),
                k,
                "Group.owner",
                "users",
                "Group.owner_id",
                "$Group.owner",
            ),
        exists|k: int|
            lookup_then_unwind(
                first_server_stages(),
                k,
                "Server.owner",
                "users",
                "Server.owner_id",
                "$Server.owner",
            ),
{
    lemma_join_targets_differ();
    let p = first_private_stages();
    assert(p[1] == (StageView::Lookup {
        from: "users",
        local_field: "Private.owner_ids",
        foreign_field: "_id",
        as_field: "Private.owners",
    }));
    let g = first_group_stages();
    assert(lookup_then_unwind(g, 1, "Group.owner", "users", "Group.owner_id", "$Group.owner"));
    assert(g[3] == (StageView::Lookup {
        from: "users",
        local_field: "Group.user_ids",
        foreign_field: "_id",
        as_field: "Group.users",
    }));
    let v = first_server_stages();
    assert(lookup_then_unwind(v, 1, "Server.owner", "users", "Server.owner_id", "$Server.owner"));
    assert(v[3] == (StageView::Lookup {
        from: "users",
        local_field: "Server.user_ids",
        foreign_field: "_id",
        as_field: "Server.users",
    }));
}

/// A stage before the stages keeps what they fill.
pub proof fn lemma_fills_after(
    first: StageView,
    stages: Seq<StageView>,
    as_field: &'static str,
    from: &'static str,
    local: &'static str,
)
    requires
        fills_by_lookup(stages, as_field, from, local),
        !(first is Lookup),
    ensures
        fills_by_lookup(seq![first] + stages, as_field, from, local),
{
    let all = seq![first] + stages;
    let k = choose|k: int|
        0 <= k < stages.len() && #[trigger] stages[k] == (StageView::Lookup {
            from,
            local_field: local,
            foreign_field: "_id",
            as_field,
        });
    assert(all[k + 1] == stages[k]);
    assert forall|j: int| 0 <= j < all.len() implies match #[trigger] all[j] {
        StageView::Lookup { from: f, local_field: l, foreign_field: g, as_field: a } => a == as_field
            ==> f == from && l == local && g == "_id",
        _ => true,
    } by {
        if j > 0 {
            assert(all[j] == stages[j - 1]);
        }
    }
}

/// Stages after the stages that are no lookups keep what they fill.
pub proof fn lemma_fills_before(
    stages: Seq<StageView>,
    rest: Seq<StageView>,
    as_field: &'static str,
    from: &'static str,
    local: &'static str,
)
    requires
        fills_by_lookup(stages, as_field, from, local),
        forall|j: int| 0 <= j < rest.len() ==> !(#[trigger] rest[j] is Lookup),
    ensures
        fills_by_lookup(stages + rest, as_field, from, local),
{
    let all = stages + rest;
    let k = choose|k: int|
        0 <= k < stages.len() && #[trigger] stages[k] == (StageView::Lookup {
            from,
            local_field: local,
            foreign_field: "_id",
            as_field,
        });
    assert(all[k] == stages[k]);
    assert forall|j: int| 0 <= j < all.len() implies match #[trigger] all[j] {
        StageView::Lookup { from: f, local_field: l, foreign_field: g, as_field: a } => a == as_field
            ==> f == from && l == local && g == "_id",
        _ => true,
    } by {
        if j < stages.len() {
            assert(all[j] == stages[j]);
        } else {
            assert(all[j] == rest[j - stages.len()]);
        }
    }
}

} // verus!
