use vstd::prelude::*;

use crate::db::mongol::bucket::{has_error_text_after, is_date_error, MongolBucket};
use crate::db::mongol::helper::{
    all_parse, convert_domain_id_to_mongol, first_invalid_id_error, lemma_all_parse_concat,
    lemma_invalid_after_valid, lemma_invalid_before_rest, lemma_single_invalid,
    CalendarDateTime, MongolHelper, datetime_error_text, days_from_civil,
    lemma_calendar_millis_fits,
};
use crate::db::mongol::stages::{
    count_or_zero, message_join_after, message_join_stages, pipeline_count, single, stages_view,
    PipelineStage, StageView,
};
use crate::error::{Kind, OnType, ServerError};
use crate::ids::{parsed_uuid, uuid_text, uuid_to_string, MongolId};

verus! {

/// The state of a message.
#[derive(Clone, Copy, Debug, PartialEq, Eq, Structural)]
pub enum MessageFlag {
    /// An unchanged message (stored as "None").
    NoFlag,
    /// A message edited at the given instant (milliseconds since the epoch).
    Edited { date: i64 },
}

/// A message as the domain knows it. Its instant is `timestamp` (UTC
/// calendar components to the second) plus `timestamp_subsec_millis`
/// milliseconds (below 1000).
#[derive(Debug)]
pub struct Message {
    pub id: String,
    pub value: String,
    pub timestamp: CalendarDateTime,
    pub timestamp_subsec_millis: u16,
    pub owner_id: String,
    pub channel_id: String,
    pub bucket_id: Option<String>,
    pub flag: MessageFlag,
}

/// The stored message.
#[derive(Debug)]
pub struct MongolMessage {
    pub _id: MongolId,
    pub value: String,
    pub timestamp: i64,
    pub owner_id: MongolId,
    pub channel_id: MongolId,
    pub bucket_id: Option<MongolId>,
    pub flag: MessageFlag,
}

/// The ids of a message in the order they are converted.
pub open spec fn message_ids(value: Message) -> Seq<Seq<char>> {
    seq![value.id@, value.owner_id@, value.channel_id@] + bucket_texts(value.bucket_id)
}

/// The bucket id of a message, where it has one, as a list of texts.
pub open spec fn bucket_texts(bucket_id: Option<String>) -> Seq<Seq<char>> {
    match bucket_id {
        Some(b) => seq![b@],
        None => seq![],
    }
}

/// The stored message of a domain message.
pub open spec fn message_stored(m: MongolMessage, value: Message) -> bool {
    &&& m._id == MongolId(parsed_uuid(value.id@)->0)
    &&& m.value@ == value.value@
    &&& value.timestamp.bson_datetime() is Some
    &&& m.timestamp == value.timestamp.bson_datetime()->0 + value.timestamp_subsec_millis
    &&& m.owner_id == MongolId(parsed_uuid(value.owner_id@)->0)
    &&& m.channel_id == MongolId(parsed_uuid(value.channel_id@)->0)
    &&& m.bucket_id == match value.bucket_id {
        Some(b) => Some(MongolId(parsed_uuid(b@)->0)),
        None => None,
    }
    &&& m.flag == value.flag
}

/// The error of a message time that BSON cannot build: a parse error on a
/// date, carrying the BSON error's text under "error".
fn date_error(err: &bson::datetime::Error) -> (e: ServerError)
    ensures
        is_date_error(e, Kind::Parse, MESSAGE_STACK@),
        has_error_text_after(e, seq![]),
{
    let e = ServerError::new(Kind::Parse, OnType::Date, MESSAGE_STACK);
    let e = e.add_debug_info("error", datetime_error_text(err));
    assert(e.debug_view().len() == 1);
    assert(e.debug_view().take(0) =~= Seq::<(Seq<char>, Seq<char>)>::empty());
    e
}

impl MongolMessage {
    /// The stored form of a message, with its instant in milliseconds;
    /// fails on its first id that is not a UUID, in the order: message id,
    /// owner id, channel id, bucket id; then when its calendar time cannot be
    /// built in BSON (a parse error on a date, with the BSON error's text).
    pub fn try_from(value: &Message) -> (r: Result<MongolMessage, ServerError>)
        ensures
            match r {
                Ok(m) => all_parse(message_ids(*value)) && message_stored(m, *value),
                Err(e) => {
                    ||| first_invalid_id_error(e, message_ids(*value))
                    ||| all_parse(message_ids(*value)) && value.timestamp.bson_datetime() is None
                        && is_date_error(e, Kind::Parse, MESSAGE_STACK@) && has_error_text_after(
                        e,
                        seq![],
                    )
                },
            },
            value.timestamp.is_valid() && all_parse(message_ids(*value)) ==> r is Ok,
    {
        let ghost a = seq![value.id@];
        let ghost b = seq![value.owner_id@];
        let ghost c = seq![value.channel_id@];
        let ghost d = bucket_texts(value.bucket_id);
        assert(message_ids(*value) =~= a + b + c + d);
        let message_id = match convert_domain_id_to_mongol(value.id.as_str()) {
            Ok(v) => v,
            Err(e) => {
                proof {
                    lemma_single_invalid(e, value.id@);
                    lemma_invalid_before_rest(e, a, b);
                    lemma_invalid_before_rest(e, a + b, c);
                    lemma_invalid_before_rest(e, a + b + c, d);
                }
                return Err(e);
            },
        };
        assert(all_parse(a)) by {
            assert(a[0] == value.id@);
        }
        let owner_id = match convert_domain_id_to_mongol(value.owner_id.as_str()) {
            Ok(v) => v,
            Err(e) => {
                proof {
                    lemma_single_invalid(e, value.owner_id@);
                    lemma_invalid_after_valid(e, a, b);
                    lemma_invalid_before_rest(e, a + b, c);
                    lemma_invalid_before_rest(e, a + b + c, d);
                }
                return Err(e);
            },
        };
        proof {
            assert(all_parse(b)) by {
                assert(b[0] == value.owner_id@);
            }
            lemma_all_parse_concat(a, b);
        }
        let channel_id = match convert_domain_id_to_mongol(value.channel_id.as_str()) {
            Ok(v) => v,
            Err(e) => {
                proof {
                    lemma_single_invalid(e, value.channel_id@);
                    lemma_invalid_after_valid(e, a + b, c);
                    lemma_invalid_before_rest(e, a + b + c, d);
                }
                return Err(e);
            },
        };
        proof {
            assert(all_parse(c)) by {
                assert(c[0] == value.channel_id@);
            }
            lemma_all_parse_concat(a + b, c);
        }
        let bucket_id = match &value.bucket_id {
            Some(bid) => match convert_domain_id_to_mongol(bid.as_str()) {
                Ok(v) => {
                    proof {
                        assert(all_parse(d)) by {
                            assert(d[0] == bid@);
                        }
                        lemma_all_parse_concat(a + b + c, d);
                    }
                    Some(v)
                },
                Err(e) => {
                    proof {
                        lemma_single_invalid(e, bid@);
                        lemma_invalid_after_valid(e, a + b + c, d);
                    }
                    return Err(e);
                },
            },
            None => {
                assert(a + b + c + d =~= a + b + c);
                None
            },
        };
        let second = match value.timestamp.convert_to_bson_datetime() {
            Ok(ms) => ms,
            Err(err) => {
                return Err(date_error(&err));
            },
        };
        proof {
            let t = value.timestamp;
            lemma_calendar_millis_fits(
                t.year,
                t.month as u8,
                t.day as u8,
                t.hour as u8,
                t.minute as u8,
                t.second as u8,
            );
        }
        let timestamp = second + value.timestamp_subsec_millis as i64;
        Ok(
            MongolMessage {
                _id: message_id,
                value: value.value.clone(),
                timestamp,
                owner_id,
                channel_id,
                bucket_id,
                flag: value.flag,
            },
        )
    }
}

/// Which bucket a new message goes to: the bucket of its channel on its UTC day.
#[derive(Debug)]
pub struct BucketKey {
    pub channel_id: MongolId,
    pub date: i64,
}

/// The stored form of a new message and the key of its bucket. Fails as the
/// message conversion does, and then when the message's day cannot be
/// represented in BSON (a parse error on a date).
pub fn message_bucket_key(message: &Message) -> (r: Result<(MongolMessage, BucketKey), ServerError>)
    ensures
        match r {
            Ok((m, key)) => {
                &&& all_parse(message_ids(*message))
                &&& message_stored(m, *message)
                &&& message.timestamp.bson_date() == Some(key.date)
                &&& key.channel_id == m.channel_id
            },
            Err(e) => {
                ||| first_invalid_id_error(e, message_ids(*message))
                ||| all_parse(message_ids(*message)) && (message.timestamp.bson_datetime() is None
                    || message.timestamp.bson_date() is None) && is_date_error(
                    e,
                    Kind::Parse,
                    MESSAGE_STACK@,
                ) && has_error_text_after(e, seq![])
            },
        },
        message.timestamp.is_valid() && all_parse(message_ids(*message)) ==> r is Ok,
{
    let db_message = MongolMessage::try_from(message)?;
    let date = match message.timestamp.convert_to_bson_date() {
        Ok(d) => d,
        Err(err) => {
            return Err(date_error(&err));
        },
    };
    let key = BucketKey { channel_id: db_message.channel_id, date };
    Ok((db_message, key))
}

/// Calls `bson::Uuid::new`, which draws a random (version 4) UUID. Nothing is
/// claimed of the value.
#[verifier::external_body]
fn random_uuid() -> MongolId {
    MongolId(u128::from_be_bytes(bson::Uuid::new().bytes()))
}

/// Where a new message is recorded.
#[derive(Debug)]
pub enum BucketAction {
    /// The message id is appended to this existing bucket.
    AppendTo(MongolBucket),
    /// This bucket, holding only the message id, is inserted.
    Create(MongolBucket),
}

impl BucketAction {
    /// The bucket that holds the message afterwards.
    pub open spec fn bucket(&self) -> MongolBucket {
        match self {
            BucketAction::AppendTo(b) => *b,
            BucketAction::Create(b) => *b,
        }
    }

    /// The id of the bucket that holds the message afterwards.
    pub fn bucket_id(&self) -> (r: MongolId)
        ensures
            r == self.bucket()._id,
    {
        match self {
            BucketAction::AppendTo(b) => b._id,
            BucketAction::Create(b) => b._id,
        }
    }
}

/// What choosing the bucket of message `message` under `key` gives, from
/// the bucket `found` under that key: the found bucket to append to, or else
/// a new bucket of the key's channel and day holding only the message.
pub open spec fn bucket_choice(
    found: Option<MongolBucket>,
    message: MongolMessage,
    key: BucketKey,
    r: BucketAction,
) -> bool {
    match found {
        Some(b) => r == BucketAction::AppendTo(b),
        None => r matches BucketAction::Create(nb) && nb.channel_id == key.channel_id && nb.date
            == key.date && nb.message_ids@ == seq![message._id],
    }
}

/// Chooses the bucket of a new message from the bucket found under its key:
/// the found one, or else a new bucket with a fresh random id, the key's
/// channel and day, and the message as its only entry. Either way the bucket
/// holds the message once the action is applied.
pub fn choose_bucket(found: Option<MongolBucket>, message: &MongolMessage, key: &BucketKey) -> (r:
    BucketAction)
    ensures
        bucket_choice(found, *message, *key, r),
        r.bucket_after(message._id).message_ids.contains(message._id),
{
    let r = match found {
        Some(bucket) => BucketAction::AppendTo(bucket),
        None => {
            let ids = vec![message._id];
            assert(ids@ =~= seq![message._id]);
            BucketAction::Create(
                MongolBucket {
                    _id: random_uuid(),
                    channel_id: key.channel_id,
                    date: key.date,
                    message_ids: ids,
                },
            )
        },
    };
    proof {
        let after = r.bucket_after(message._id);
        if r is AppendTo {
            assert(after.message_ids.last() == message._id);
        } else {
            assert(after.message_ids[0] == message._id);
        }
    }
    r
}

/// A stored bucket as plain values.
pub struct BucketRecord {
    pub id: MongolId,
    pub channel_id: MongolId,
    pub date: i64,
    pub message_ids: Seq<MongolId>,
}

/// A stored message as far as buckets are concerned.
pub struct MessageRecord {
    pub id: MongolId,
    pub channel_id: MongolId,
    pub bucket_id: Option<MongolId>,
}

/// The bucket and message collections.
pub struct BucketStore {
    pub buckets: Seq<BucketRecord>,
    pub messages: Seq<MessageRecord>,
}

/// A bucket as plain values.
pub open spec fn record_of(b: MongolBucket) -> BucketRecord {
    BucketRecord {
        id: b._id,
        channel_id: b.channel_id,
        date: b.date,
        message_ids: b.message_ids@,
    }
}

/// A stored message as far as buckets are concerned.
pub open spec fn message_record(m: MongolMessage) -> MessageRecord {
    MessageRecord { id: m._id, channel_id: m.channel_id, bucket_id: m.bucket_id }
}

impl BucketAction {
    /// The bucket that holds the message `message_id` once the action is
    /// applied: the found bucket with the id pushed to its message ids, or the
    /// new bucket.
    pub open spec fn bucket_after(&self, message_id: MongolId) -> BucketRecord {
        match self {
            BucketAction::AppendTo(b) => BucketRecord {
                id: b._id,
                channel_id: b.channel_id,
                date: b.date,
                message_ids: b.message_ids@.push(message_id),
            },
            BucketAction::Create(b) => record_of(*b),
        }
    }
}

/// Whether a stored bucket is the one of a channel and day.
pub open spec fn has_key(b: BucketRecord, channel_id: MongolId, date: i64) -> bool {
    b.channel_id == channel_id && b.date == date
}

/// The buckets after a bucket action for message `message_id`: appending
/// pushes the id to the bucket stored under the appended bucket's channel and
/// day; creating inserts the new bucket.
pub open spec fn apply_to_buckets(
    buckets: Seq<BucketRecord>,
    action: BucketAction,
    message_id: MongolId,
) -> Seq<BucketRecord> {
    match action {
        BucketAction::AppendTo(b) => buckets.map_values(
            |x: BucketRecord|
                if has_key(x, b.channel_id, b.date) {
                    BucketRecord {
                        id: x.id,
                        channel_id: x.channel_id,
                        date: x.date,
                        message_ids: x.message_ids.push(message_id),
                    }
                } else {
                    x
                },
        ),
        BucketAction::Create(nb) => buckets.push(record_of(nb)),
    }
}

/// The store after recording `message` (whose bucket id is already set)
/// with a bucket action.
pub open spec fn record_message(
    s: BucketStore,
    action: BucketAction,
    message: MongolMessage,
) -> BucketStore {
    BucketStore {
        buckets: apply_to_buckets(s.buckets, action, message._id),
        messages: s.messages.push(message_record(message)),
    }
}

/// A message sits in a stored bucket of its channel that its bucket id names.
pub open spec fn filed_in(buckets: Seq<BucketRecord>, g: MessageRecord) -> bool {
    exists|i: int|
        0 <= i < buckets.len() && g.bucket_id == Some(#[trigger] buckets[i].id)
            && buckets[i].message_ids.contains(g.id) && buckets[i].channel_id == g.channel_id
}

/// At most one bucket per channel and day, and every stored message sits in
/// the bucket that its bucket id names.
pub open spec fn store_invariant(s: BucketStore) -> bool {
    &&& forall|i: int, j: int|
        0 <= i < j < s.buckets.len() ==> !has_key(
            #[trigger] s.buckets[i],
            #[trigger] s.buckets[j].channel_id,
            s.buckets[j].date,
        )
    &&& forall|k: int| 0 <= k < s.messages.len() ==> filed_in(s.buckets, #[trigger] s.messages[k])
}

/// What a lookup by key finds in the store: the bucket stored under the key,
/// or nothing when no bucket has that key.
pub open spec fn found_in(s: BucketStore, found: Option<MongolBucket>, key: BucketKey) -> bool {
    match found {
        Some(b) => s.buckets.contains(record_of(b)) && b.channel_id == key.channel_id && b.date
            == key.date,
        None => forall|i: int|
            0 <= i < s.buckets.len() ==> !has_key(#[trigger] s.buckets[i], key.channel_id, key.date),
    }
}

/// Records the bucket of a stored message on both forms of the message: the
/// stored message refers to the bucket's id, the domain message to its UUID text.
pub fn assign_bucket(message: Message, db_message: MongolMessage, bucket_id: MongolId) -> (r: (
    Message,
    MongolMessage,
))
    ensures
        r.1.bucket_id == Some(bucket_id),
        r.1._id == db_message._id,
        r.1.value == db_message.value,
        r.1.timestamp == db_message.timestamp,
        r.1.owner_id == db_message.owner_id,
        r.1.channel_id == db_message.channel_id,
        r.1.flag == db_message.flag,
        r.0.bucket_id matches Some(t) && t@ == uuid_text(bucket_id.0) && parsed_uuid(t@) == Some(
            bucket_id.0,
        ),
        r.0.id == message.id,
        r.0.value == message.value,
        r.0.timestamp == message.timestamp,
        r.0.timestamp_subsec_millis == message.timestamp_subsec_millis,
        r.0.owner_id == message.owner_id,
        r.0.channel_id == message.channel_id,
        r.0.flag == message.flag,
{
    let mut message = message;
    let mut db_message = db_message;
    db_message.bucket_id = Some(bucket_id);
    message.bucket_id = Some(uuid_to_string(bucket_id));
    (message, db_message)
}

/// Recording a new message keeps the buckets sound: starting from a store
/// with at most one bucket per channel and day and every message in the
/// bucket its bucket id names, when the message's bucket is chosen from what
/// the lookup by its key found, and the message carries the chosen bucket's
/// id, the store afterwards has the same two properties; the message sits in
/// that bucket; and a bucket found under the key is reused, never duplicated.
pub proof fn law_recording_a_message_keeps_buckets_sound(
    s: BucketStore,
    found: Option<MongolBucket>,
    message: MongolMessage,
    key: BucketKey,
    action: BucketAction,
)
    requires
        store_invariant(s),
        key.channel_id == message.channel_id,
        found_in(s, found, key),
        bucket_choice(found, message, key, action),
        message.bucket_id == Some(action.bucket()._id),
    ensures
        store_invariant(record_message(s, action, message)),
        filed_in(record_message(s, action, message).buckets, message_record(message)),
        found is Some ==> record_message(s, action, message).buckets.len() == s.buckets.len(),
{
    let t = record_message(s, action, message);
    let nb = t.buckets;
    let g = message_record(message);
    match action {
        BucketAction::AppendTo(b) => {
            assert(nb.len() == s.buckets.len());
            let w = choose|i: int| 0 <= i < s.buckets.len() && s.buckets[i] == record_of(b);
            assert(nb[w].message_ids.last() == message._id);
            assert(nb[w].message_ids.contains(message._id));
            assert(nb[w].id == b._id);
            assert(filed_in(nb, g));
            assert forall|i: int, j: int| 0 <= i < j < nb.len() implies !has_key(
                #[trigger] nb[i],
                #[trigger] nb[j].channel_id,
                nb[j].date,
            ) by {
                assert(!has_key(s.buckets[i], s.buckets[j].channel_id, s.buckets[j].date));
            }
            assert forall|k: int| 0 <= k < t.messages.len() implies filed_in(
                nb,
                #[trigger] t.messages[k],
            ) by {
                if k < s.messages.len() {
                    let h = s.messages[k];
                    assert(t.messages[k] == h);
                    assert(filed_in(s.buckets, h));
                    let i = choose|i: int|
                        0 <= i < s.buckets.len() && h.bucket_id == Some(#[trigger] s.buckets[i].id)
                            && s.buckets[i].message_ids.contains(h.id)
                            && s.buckets[i].channel_id == h.channel_id;
                    let x = s.buckets[i];
                    if has_key(x, b.channel_id, b.date) {
                        let ix = x.message_ids.index_of(h.id);
                        assert(x.message_ids.push(message._id)[ix] == h.id);
                    }
                    assert(nb[i].message_ids.contains(h.id));
                    assert(nb[i].id == x.id && nb[i].channel_id == x.channel_id);
                    assert(filed_in(nb, h));
                } else {
                    assert(t.messages[k] == g);
                }
            }
        },
        BucketAction::Create(c) => {
            assert forall|i: int, j: int| 0 <= i < j < nb.len() implies !has_key(
                #[trigger] nb[i],
                #[trigger] nb[j].channel_id,
                nb[j].date,
            ) by {
                if j < s.buckets.len() {
                    assert(!has_key(s.buckets[i], s.buckets[j].channel_id, s.buckets[j].date));
                } else {
                    assert(nb[j] == record_of(c));
                    assert(!has_key(s.buckets[i], key.channel_id, key.date));
                }
            }
            let last = s.buckets.len() as int;
            assert(nb[last] == record_of(c));
            assert(nb[last].message_ids[0] == message._id);
            assert(nb[last].message_ids.contains(message._id));
            assert(nb[last].id == c._id);
            assert(g.bucket_id == Some(nb[last].id));
            assert(filed_in(nb, g));
            assert forall|k: int| 0 <= k < t.messages.len() implies filed_in(
                nb,
                #[trigger] t.messages[k],
            ) by {
                if k < s.messages.len() {
                    let h = s.messages[k];
                    assert(t.messages[k] == h);
                    assert(filed_in(s.buckets, h));
                    let i = choose|i: int|
                        0 <= i < s.buckets.len() && h.bucket_id == Some(#[trigger] s.buckets[i].id)
                            && s.buckets[i].message_ids.contains(h.id)
                            && s.buckets[i].channel_id == h.channel_id;
                    assert(nb[i] == s.buckets[i]);
                    assert(filed_in(nb, h));
                } else {
                    assert(t.messages[k] == g);
                }
            }
        },
    }
}

/// Where the errors of storing and reading messages say they were raised.
pub const MESSAGE_STACK: &'static str = "src/db/mongol/message/repository.rs";

/// The stored messages that the valid-message stage selects for channel
/// `channel_id`: messages of that channel that are unchanged or edited.
pub open spec fn message_is_listed(m: MongolMessage, channel_id: MongolId) -> bool {
    &&& m.channel_id == channel_id
    &&& (m.flag is NoFlag || m.flag is Edited)
}

/// Whether the valid-message stage selects the message.
pub fn is_listed_message(m: &MongolMessage, channel_id: MongolId) -> (r: bool)
    ensures
        r == message_is_listed(*m, channel_id),
{
    m.channel_id == channel_id && match m.flag {
        MessageFlag::NoFlag => true,
        MessageFlag::Edited { .. } => true,
    }
}

/// The pipeline that reads the message with id `id` in full.
pub fn message_by_id_pipeline(id: MongolId) -> (r: Vec<PipelineStage>)
    ensures
        stages_view(r@) == seq![StageView::MatchId { field: "_id", id }] + message_join_stages(),
{
    message_join_after(single(PipelineStage::MatchId { field: "_id", id }))
}

/// The pipeline that reads one page of the messages of channel
/// `channel_id` that `message_is_listed` selects, newest first: `skip`
/// messages are skipped and at most `page_size` read (each as 0 where it
/// does not fit in an `i32`).
pub fn valid_messages_pipeline(channel_id: MongolId, skip: u64, page_size: u64) -> (r: Vec<
    PipelineStage,
>)
    ensures
        stages_view(r@) == seq![
            StageView::MatchValidMessages { channel_id },
            StageView::SortDescending { field: "timestamp" },
            StageView::Skip { count: count_or_zero(skip) },
            StageView::Limit { count: count_or_zero(page_size) },
        ] + message_join_stages(),
{
    let first = vec![
        PipelineStage::MatchValidMessages { channel_id },
        PipelineStage::SortDescending { field: "timestamp" },
        PipelineStage::Skip { count: pipeline_count(skip) },
        PipelineStage::Limit { count: pipeline_count(page_size) },
    ];
    assert(stages_view(first@) =~= seq![
        StageView::MatchValidMessages { channel_id },
        StageView::SortDescending { field: "timestamp" },
        StageView::Skip { count: count_or_zero(skip) },
        StageView::Limit { count: count_or_zero(page_size) },
    ]);
    message_join_after(first)
}

/// Reading a message by id: the message found, or else a not-found error
/// on a message with the message id.
pub fn message_result(found: Option<Message>, message_id: &str) -> (r: Result<
    Message,
    ServerError,
>)
    ensures
        match found {
            Some(m) => r == Ok::<Message, ServerError>(m),
            None => r matches Err(e) && e.kind == Kind::NotFound && e.on_type == OnType::Message
                && e.stack@ == MESSAGE_STACK@ && e.debug_view() == seq![
                ("message id"@, message_id@),
            ] && e.pub_info is None && e.client is None && e.child is None,
        },
{
    match found {
        Some(m) => Ok(m),
        None => {
            let e = ServerError::new(Kind::NotFound, OnType::Message, MESSAGE_STACK);
            let e = e.add_debug_info("message id", message_id.to_string());
            assert(e.debug_view() =~= seq![("message id"@, message_id@)]);
            Err(e)
        },
    }
}

/// A message's bucket is the one of its UTC day: for a message whose time
/// is a real one (as every domain message's is), the key of its bucket is
/// the start (midnight UTC) of the day of its calendar time, and its stored
/// instant lies within that day.
pub proof fn law_message_bucket_is_its_utc_day(message: Message, stored: MongolMessage, key: BucketKey)
    requires
        message.timestamp.is_valid(),
        message.timestamp_subsec_millis < 1000,
        message_stored(stored, message),
        message.timestamp.bson_date() == Some(key.date),
    ensures
        key.date == days_from_civil(
            message.timestamp.year as int,
            message.timestamp.month as int,
            message.timestamp.day as int,
        ) * 86_400_000,
        key.date <= stored.timestamp < key.date + 86_400_000,
{
    let t = message.timestamp;
    lemma_calendar_millis_fits(t.year, t.month as u8, t.day as u8, t.hour as u8, t.minute as u8, t.second as u8);
    lemma_calendar_millis_fits(t.year, t.month as u8, t.day as u8, 0, 0, 0);
}

/// What editing a stored message changes: its value and flag, by its id.
#[derive(Debug)]
pub struct MessageUpdate {
    pub id: MongolId,
    pub value: String,
    pub flag: MessageFlag,
}

/// The edit of the stored message `m`.
pub fn message_update(m: MongolMessage) -> (r: MessageUpdate)
    ensures
        r.id == m._id,
        r.value == m.value,
        r.flag == m.flag,
{
    MessageUpdate { id: m._id, value: m.value, flag: m.flag }
}

/// Every message of a channel, unchanged or edited, is listed for that
/// channel, and no message of another channel is.
pub proof fn law_listed_messages_are_the_channels(m: MongolMessage, channel_id: MongolId)
    ensures
        message_is_listed(m, channel_id) <==> m.channel_id == channel_id,
{
}

} // verus!
