use vstd::prelude::*;

use crate::db::mongol::helper::{
    all_parse, convert_domain_id_to_mongol, convert_id_list, first_invalid_id_error, ids_of,
    lemma_all_parse_concat, lemma_invalid_after_valid, lemma_invalid_before_rest,
    lemma_single_invalid, string_texts, CalendarDateTime, MongolHelper, add_text_pair,
    datetime_error_text, text_pair, utc_display, utc_display_text,
};
use crate::error::{Kind, OnType, ServerError};
use crate::ids::{parsed_uuid, MongolId};

verus! {

/// Where the errors of the bucket and message conversions say they were raised.
pub const BUCKET_STACK: &'static str = "src/db/mongol/bucket.rs";

/// The messages of one channel on one UTC day.
#[derive(Debug)]
pub struct Bucket {
    pub id: String,
    pub channel_id: String,
    pub date: CalendarDateTime,
    pub message_ids: Vec<String>,
}

/// The stored bucket: `date` is the start of its UTC day in milliseconds.
#[derive(Debug)]
pub struct MongolBucket {
    pub _id: MongolId,
    pub channel_id: MongolId,
    pub date: i64,
    pub message_ids: Vec<MongolId>,
}

/// The error for a date that BSON cannot represent (its debug information
/// is stated where it is raised).
pub open spec fn is_date_error(e: ServerError, kind: Kind, stack: Seq<char>) -> bool {
    &&& e.kind == kind
    &&& e.on_type == OnType::Date
    &&& e.stack@ == stack
    &&& e.pub_info is None
    &&& e.client is None
    &&& e.child is None
}

/// The debug pair of a bucket's date: its text as chrono writes it, where
/// chrono has that time.
pub open spec fn bucket_date_pairs(date: CalendarDateTime) -> Seq<(Seq<char>, Seq<char>)> {
    text_pair(
        "bucket date"@,
        utc_display_text(date.year, date.month, date.day, date.hour, date.minute, date.second),
    )
}

/// The debug information of `e` is `before` followed by the text of the
/// BSON error under "error".
pub open spec fn has_error_text_after(e: ServerError, before: Seq<(Seq<char>, Seq<char>)>) -> bool {
    &&& e.debug_view().len() == before.len() + 1
    &&& e.debug_view().take(before.len() as int) == before
    &&& e.debug_view().last().0 == "error"@
}

/// The stored bucket of a domain bucket, or why there is none: its id and
/// channel id are converted first, then its date, then its message ids.
pub open spec fn bucket_conversion(r: Result<MongolBucket, ServerError>, value: Bucket) -> bool {
    let head = seq![value.id@, value.channel_id@];
    let messages = string_texts(value.message_ids@);
    match r {
        Ok(m) => {
            &&& all_parse(head)
            &&& all_parse(messages)
            &&& m._id == MongolId(parsed_uuid(value.id@)->0)
            &&& m.channel_id == MongolId(parsed_uuid(value.channel_id@)->0)
            &&& value.date.bson_date() == Some(m.date)
            &&& m.message_ids@ == ids_of(messages)
        },
        Err(e) => {
            ||| first_invalid_id_error(e, head)
            ||| all_parse(head) && value.date.bson_date() is None && is_date_error(
                e,
                Kind::Parse,
                BUCKET_STACK@,
            ) && has_error_text_after(e, bucket_date_pairs(value.date))
            ||| all_parse(head) && value.date.bson_date() is Some && first_invalid_id_error(
                e,
                messages,
            )
        },
    }
}

impl MongolBucket {
    /// The stored form of a bucket.
    pub fn try_from(value: &Bucket) -> (r: Result<MongolBucket, ServerError>)
        ensures
            bucket_conversion(r, *value),
            value.date.is_valid() && all_parse(seq![value.id@, value.channel_id@]) && all_parse(
                string_texts(value.message_ids@),
            ) ==> r is Ok,
    {
        let ghost a = seq![value.id@];
        let ghost b = seq![value.channel_id@];
        assert(seq![value.id@, value.channel_id@] =~= a + b);
        let bucket_id = match convert_domain_id_to_mongol(value.id.as_str()) {
            Ok(v) => v,
            Err(e) => {
                proof {
                    lemma_single_invalid(e, value.id@);
                    lemma_invalid_before_rest(e, a, b);
                }
                return Err(e);
            },
        };
        assert(all_parse(a)) by {
            assert(a[0] == value.id@);
        }
        let channel_id = match convert_domain_id_to_mongol(value.channel_id.as_str()) {
            Ok(v) => v,
            Err(e) => {
                proof {
                    lemma_single_invalid(e, value.channel_id@);
                    lemma_invalid_after_valid(e, a, b);
                }
                return Err(e);
            },
        };
        proof {
            assert(all_parse(b)) by {
                assert(b[0] == value.channel_id@);
            }
            lemma_all_parse_concat(a, b);
        }
        let date = match value.date.convert_to_bson_date() {
            Ok(d) => d,
            Err(err) => {
                let e = ServerError::new(Kind::Parse, OnType::Date, BUCKET_STACK);
                let e = add_text_pair(e, "bucket date", utc_display(&value.date));
                let ghost before = e.debug_view();
                let e = e.add_debug_info("error", datetime_error_text(&err));
                assert(e.debug_view().take(before.len() as int) =~= before);
                return Err(e);
            },
        };
        let message_ids = convert_id_list(&value.message_ids)?;
        Ok(MongolBucket { _id: bucket_id, channel_id, date, message_ids })
    }
}

} // verus!
