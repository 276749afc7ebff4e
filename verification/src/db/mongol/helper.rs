use vstd::prelude::*;

use crate::error::{Kind, OnType, ServerError};
use crate::ids::{parse_uuid, parsed_uuid, MongolId};

verus! {

#[verifier::external_type_specification]
#[verifier::external_body]
pub struct ExBsonDateTimeError(bson::datetime::Error);

/// The number of days from 1970-01-01 to the given date of the proleptic
/// Gregorian calendar (negative before it); `month` is 1 to 12.
pub open spec fn days_from_civil(year: int, month: int, day: int) -> int {
    let y = if month <= 2 {
        year - 1
    } else {
        year
    };
    let era = y / 400;
    let year_of_era = y - era * 400;
    let shifted_month = (month + 9) % 12;
    let day_of_year = (153 * shifted_month + 2) / 5 + day - 1;
    let day_of_era = year_of_era * 365 + year_of_era / 4 - year_of_era / 100 + day_of_year;
    era * 146097 + day_of_era - 719468
}

/// The milliseconds since the Unix epoch of a UTC calendar time.
pub open spec fn calendar_millis(year: int, month: int, day: int, hour: int, minute: int, second: int) -> int {
    days_from_civil(year, month, day) * 86_400_000 + hour * 3_600_000 + minute * 60_000 + second
        * 1000
}

/// The milliseconds since the Unix epoch of the UTC calendar time that
/// `bson::DateTime::builder()` builds from these components, or `None` where
/// `build` rejects them.
pub open spec fn bson_calendar_millis(
    year: i32,
    month: u8,
    day: u8,
    hour: u8,
    minute: u8,
    second: u8,
) -> Option<i64> {
    if calendar_valid(year, month, day, hour, minute, second) {
        Some(calendar_millis(year as int, month as int, day as int, hour as int, minute as int, second as int) as i64)
    } else {
        None
    }
}

/// Whether `year` is a leap year of the proleptic Gregorian calendar.
pub open spec fn is_leap_year(year: int) -> bool {
    year % 4 == 0 && (year % 100 != 0 || year % 400 == 0)
}

/// The number of days of a month (1 to 12) of a year.
pub open spec fn days_in_month(year: int, month: int) -> int {
    if month == 2 {
        if is_leap_year(year) {
            29
        } else {
            28
        }
    } else if month == 4 || month == 6 || month == 9 || month == 11 {
        30
    } else {
        31
    }
}

/// The days from 1970-01-01 of dates within the years BSON can build stay
/// small enough for milliseconds in an `i64`.
pub proof fn lemma_days_bounded(year: int, month: int, day: int)
    requires
        -999_999 <= year <= 999_999,
        1 <= month <= 12,
        1 <= day <= 31,
    ensures
        -400_000_000 <= days_from_civil(year, month, day) <= 400_000_000,
{
    let y = if month <= 2 {
        year - 1
    } else {
        year
    };
    let era = y / 400;
    let year_of_era = y - era * 400;
    let shifted_month = (month + 9) % 12;
    let day_of_year = (153 * shifted_month + 2) / 5 + day - 1;
    assert(0 <= year_of_era < 400);
    assert(-2501 <= era <= 2500);
    assert(0 <= day_of_year <= 400);
    assert(-2501 * 146097 <= era * 146097 <= 2500 * 146097) by (nonlinear_arith)
        requires
            -2501 <= era <= 2500,
    ;
    assert(0 <= year_of_era * 365 <= 400 * 365) by (nonlinear_arith)
        requires
            0 <= year_of_era < 400,
    ;
}

/// The instants of the calendar times that BSON builds fit well within an
/// `i64`, and are what `bson_calendar_millis` gives.
pub proof fn lemma_calendar_millis_fits(year: i32, month: u8, day: u8, hour: u8, minute: u8, second: u8)
    requires
        calendar_valid(year, month, day, hour, minute, second),
    ensures
        -40_000_000_000_000_000 <= calendar_millis(
            year as int,
            month as int,
            day as int,
            hour as int,
            minute as int,
            second as int,
        ) <= 40_000_000_000_000_000,
        bson_calendar_millis(year, month, day, hour, minute, second) matches Some(ms) && ms as int
            == calendar_millis(
            year as int,
            month as int,
            day as int,
            hour as int,
            minute as int,
            second as int,
        ),
{
    lemma_days_bounded(year as int, month as int, day as int);
    let d = days_from_civil(year as int, month as int, day as int);
    assert(-400_000_000 * 86_400_000 <= d * 86_400_000 <= 400_000_000 * 86_400_000) by (nonlinear_arith)
        requires
            -400_000_000 <= d <= 400_000_000,
    ;
}

/// The calendar components that `bson::DateTime::builder()` accepts: a year
/// within plus or minus 999999 (bson enables `time`'s large dates), a month
/// of 1 to 12, a day that exists in that month, and a time of day.
pub open spec fn calendar_valid(year: i32, month: u8, day: u8, hour: u8, minute: u8, second: u8) -> bool {
    &&& -999_999 <= year <= 999_999
    &&& 1 <= month <= 12
    &&& 1 <= day <= days_in_month(year as int, month as int)
    &&& hour < 24
    &&& minute < 60
    &&& second < 60
}

/// Calls `bson::DateTime::builder()` with the given year, month, day, hour,
/// minute and second, then `build`. Claims the call succeeds exactly when
/// the components are `calendar_valid` (what `time::Date::from_calendar_date`
/// and `Time::from_hms_milli` check), and then gives the milliseconds since
/// the Unix epoch of that UTC time in the proleptic Gregorian calendar (they
/// always fit: years stay within plus or minus 999999).
#[verifier::external_body]
fn build_bson_datetime(year: i32, month: u8, day: u8, hour: u8, minute: u8, second: u8) -> (r:
    Result<i64, bson::datetime::Error>)
    ensures
        match r {
            Ok(ms) => bson_calendar_millis(year, month, day, hour, minute, second) == Some(ms),
            Err(_) => bson_calendar_millis(year, month, day, hour, minute, second) is None,
        },
        r is Ok <==> calendar_valid(year, month, day, hour, minute, second),
{
    match bson::DateTime::builder().year(year).month(month).day(day).hour(hour).minute(
        minute,
    ).second(second).build() {
        Ok(dt) => Ok(dt.timestamp_millis()),
        Err(e) => Err(e),
    }
}

/// The text of a BSON date-time error.
///
/// Calls `Display` of `bson::datetime::Error`. Nothing is claimed of the
/// text: it is the message of the `time` component check that failed.
#[verifier::external_body]
pub(crate) fn datetime_error_text(e: &bson::datetime::Error) -> String {
    e.to_string()
}

/// The text that `chrono`'s `Display` writes for the UTC time with these
/// components, or `None` where chrono has no such time.
pub uninterp spec fn utc_display_text(
    year: i32,
    month: u32,
    day: u32,
    hour: u32,
    minute: u32,
    second: u32,
) -> Option<Seq<char>>;

/// The RFC 3339 text that `chrono` writes for the UTC time with these
/// components, or `None` where chrono has no such time.
pub uninterp spec fn utc_rfc3339_text(
    year: i32,
    month: u32,
    day: u32,
    hour: u32,
    minute: u32,
    second: u32,
) -> Option<Seq<char>>;

/// An optional text as an optional character sequence.
pub open spec fn opt_chars(s: Option<String>) -> Option<Seq<char>> {
    match s {
        Some(t) => Some(t@),
        None => None,
    }
}

/// Calls `chrono::Utc.with_ymd_and_hms` with the components, then `Display`
/// of the time it gives. Claims the result is `utc_display_text` of the
/// components. For `Utc` a time is never ambiguous.
#[verifier::external_body]
pub(crate) fn utc_display(c: &CalendarDateTime) -> (r: Option<String>)
    ensures
        opt_chars(r) == utc_display_text(c.year, c.month, c.day, c.hour, c.minute, c.second),
{
    match chrono::TimeZone::with_ymd_and_hms(
        &chrono::Utc,
        c.year,
        c.month,
        c.day,
        c.hour,
        c.minute,
        c.second,
    ) {
        chrono::LocalResult::Single(t) => Some(t.to_string()),
        chrono::LocalResult::Ambiguous(t, _) => Some(t.to_string()),
        chrono::LocalResult::None => None,
    }
}

/// Calls `chrono::Utc.with_ymd_and_hms` with the components, then
/// `to_rfc3339` of the time it gives. Claims the result is
/// `utc_rfc3339_text` of the components.
#[verifier::external_body]
pub(crate) fn utc_rfc3339(c: &CalendarDateTime) -> (r: Option<String>)
    ensures
        opt_chars(r) == utc_rfc3339_text(c.year, c.month, c.day, c.hour, c.minute, c.second),
{
    match chrono::TimeZone::with_ymd_and_hms(
        &chrono::Utc,
        c.year,
        c.month,
        c.day,
        c.hour,
        c.minute,
        c.second,
    ) {
        chrono::LocalResult::Single(t) => Some(t.to_rfc3339()),
        chrono::LocalResult::Ambiguous(t, _) => Some(t.to_rfc3339()),
        chrono::LocalResult::None => None,
    }
}

/// The debug pair of a text where there is one.
pub open spec fn text_pair(key: Seq<char>, text: Option<Seq<char>>) -> Seq<(Seq<char>, Seq<char>)> {
    match text {
        Some(t) => seq![(key, t)],
        None => seq![],
    }
}

/// Appends the debug pair of `text` under `key`, where there is a text.
pub fn add_text_pair(e: ServerError, key: &str, text: Option<String>) -> (r: ServerError)
    ensures
        r.kind == e.kind,
        r.on_type == e.on_type,
        r.stack == e.stack,
        r.debug_view() == e.debug_view() + text_pair(key@, opt_chars(text)),
        r.pub_info == e.pub_info,
        r.client == e.client,
        r.child == e.child,
{
    match text {
        Some(t) => {
            let ghost tv = t@;
            let r = e.add_debug_info(key, t);
            assert(r.debug_view() =~= e.debug_view() + seq![(key@, tv)]);
            r
        },
        None => {
            assert(e.debug_view() =~= e.debug_view() + Seq::<(Seq<char>, Seq<char>)>::empty());
            e
        },
    }
}

/// A UTC date and time of day as calendar components (what
/// `chrono::DateTime<Utc>` reports through `year()`, `month()` and so on).
#[derive(Clone, Copy, Debug, PartialEq, Eq, Structural)]
pub struct CalendarDateTime {
    pub year: i32,
    pub month: u32,
    pub day: u32,
    pub hour: u32,
    pub minute: u32,
    pub second: u32,
}

/// A calendar date without a time of day (what `chrono::NaiveDate` reports).
#[derive(Clone, Copy, Debug, PartialEq, Eq, Structural)]
pub struct CalendarDate {
    pub year: i32,
    pub month: u32,
    pub day: u32,
}

/// Conversion of a date or time into a BSON date-time (milliseconds since
/// the Unix epoch).
pub trait MongolHelper {
    /// The instant that `convert_to_bson_date` builds, if any.
    spec fn bson_date(&self) -> Option<i64>;

    /// The instant that `convert_to_bson_datetime` builds, if any.
    spec fn bson_datetime(&self) -> Option<i64>;

    /// The start (midnight UTC) of the value's day.
    fn convert_to_bson_date(&self) -> (r: Result<i64, bson::datetime::Error>)
        ensures
            match r {
                Ok(ms) => self.bson_date() == Some(ms),
                Err(_) => self.bson_date() is None,
            },
    ;

    /// The value to the second.
    fn convert_to_bson_datetime(&self) -> (r: Result<i64, bson::datetime::Error>)
        ensures
            match r {
                Ok(ms) => self.bson_datetime() == Some(ms),
                Err(_) => self.bson_datetime() is None,
            },
    ;
}

impl CalendarDateTime {
    /// A real UTC calendar time within the years that BSON dates can be
    /// built for (every value that a `chrono::DateTime<Utc>` reports there).
    pub open spec fn is_valid(&self) -> bool {
        &&& -999_999 <= self.year <= 999_999
        &&& 1 <= self.month <= 12
        &&& 1 <= self.day <= days_in_month(self.year as int, self.month as int)
        &&& self.hour < 24
        &&& self.minute < 60
        &&& self.second < 60
    }
}

impl CalendarDate {
    /// A real calendar date within the years that BSON dates can be built for.
    pub open spec fn is_valid(&self) -> bool {
        &&& -999_999 <= self.year <= 999_999
        &&& 1 <= self.month <= 12
        &&& 1 <= self.day <= days_in_month(self.year as int, self.month as int)
    }
}

impl MongolHelper for CalendarDateTime {
    open spec fn bson_date(&self) -> Option<i64> {
        bson_calendar_millis(self.year, self.month as u8, self.day as u8, 0, 0, 0)
    }

    open spec fn bson_datetime(&self) -> Option<i64> {
        bson_calendar_millis(
            self.year,
            self.month as u8,
            self.day as u8,
            self.hour as u8,
            self.minute as u8,
            self.second as u8,
        )
    }

    fn convert_to_bson_date(&self) -> (r: Result<i64, bson::datetime::Error>)
        ensures
            self.is_valid() ==> r is Ok,
    {
        let date = CalendarDate { year: self.year, month: self.month, day: self.day };
        date.convert_to_bson_date()
    }

    fn convert_to_bson_datetime(&self) -> (r: Result<i64, bson::datetime::Error>)
        ensures
            self.is_valid() ==> r is Ok,
    {
        build_bson_datetime(
            self.year,
            self.month as u8,
            self.day as u8,
            self.hour as u8,
            self.minute as u8,
            self.second as u8,
        )
    }
}

impl MongolHelper for CalendarDate {
    open spec fn bson_date(&self) -> Option<i64> {
        bson_calendar_millis(self.year, self.month as u8, self.day as u8, 0, 0, 0)
    }

    open spec fn bson_datetime(&self) -> Option<i64> {
        bson_calendar_millis(self.year, self.month as u8, self.day as u8, 0, 0, 0)
    }

    fn convert_to_bson_date(&self) -> (r: Result<i64, bson::datetime::Error>)
        ensures
            self.is_valid() ==> r is Ok,
    {
        build_bson_datetime(self.year, self.month as u8, self.day as u8, 0, 0, 0)
    }

    fn convert_to_bson_datetime(&self) -> (r: Result<i64, bson::datetime::Error>)
        ensures
            self.is_valid() ==> r is Ok,
    {
        build_bson_datetime(self.year, self.month as u8, self.day as u8, 0, 0, 0)
    }
}

/// Where the errors of this module say they were raised.
pub const HELPER_STACK: &'static str = "src/db/mongol/helper.rs";

/// The error for a domain id that is not a UUID: invalid, raised on the
/// Mongo layer, carrying the offending id under "incoming id".
pub open spec fn is_invalid_id_error(e: ServerError, id: Seq<char>) -> bool {
    &&& e.kind == Kind::InValid
    &&& e.on_type == OnType::Mongo
    &&& e.stack@ == HELPER_STACK@
    &&& e.debug_view() == seq![("incoming id"@, id)]
    &&& e.pub_info is None
    &&& e.client is None
    &&& e.child is None
}

/// Every text of `ids` is accepted as a UUID.
pub open spec fn all_parse(ids: Seq<Seq<char>>) -> bool {
    forall|i: int| 0 <= i < ids.len() ==> (#[trigger] parsed_uuid(ids[i])) is Some
}

/// The texts of a slice of string slices.
pub open spec fn texts(ids: Seq<&str>) -> Seq<Seq<char>> {
    ids.map_values(|s: &str| s@)
}

/// The first text of `ids` that is not a UUID gave the error `e`; all
/// texts before it are UUIDs.
pub open spec fn first_invalid_id_error(e: ServerError, ids: Seq<Seq<char>>) -> bool {
    exists|k: int|
        {
            &&& 0 <= k < ids.len()
            &&& all_parse(ids.take(k))
            &&& parsed_uuid(#[trigger] ids[k]) is None
            &&& is_invalid_id_error(e, ids[k])
        }
}

/// The ids of the texts, one for one.
pub open spec fn ids_of(texts: Seq<Seq<char>>) -> Seq<MongolId> {
    texts.map_values(|t: Seq<char>| MongolId(parsed_uuid(t)->0))
}

/// The texts of owned strings.
pub open spec fn string_texts(ids: Seq<String>) -> Seq<Seq<char>> {
    ids.map_values(|s: String| s@)
}

/// A single invalid id is the first invalid one of the sequence made of it.
pub proof fn lemma_single_invalid(e: ServerError, id: Seq<char>)
    requires
        parsed_uuid(id) is None,
        is_invalid_id_error(e, id),
    ensures
        first_invalid_id_error(e, seq![id]),
{
    assert(seq![id].take(0) =~= Seq::<Seq<char>>::empty());
    assert(seq![id][0] == id);
}

/// Texts that all parse, followed by texts whose first invalid one gave `e`.
pub proof fn lemma_invalid_after_valid(e: ServerError, a: Seq<Seq<char>>, b: Seq<Seq<char>>)
    requires
        all_parse(a),
        first_invalid_id_error(e, b),
    ensures
        first_invalid_id_error(e, a + b),
{
    let k = choose|k: int|
        {
            &&& 0 <= k < b.len()
            &&& all_parse(b.take(k))
            &&& parsed_uuid(#[trigger] b[k]) is None
            &&& is_invalid_id_error(e, b[k])
        };
    let j = a.len() + k;
    assert((a + b)[j] == b[k]);
    assert forall|i: int| 0 <= i < (a + b).take(j).len() implies (#[trigger] parsed_uuid(
        (a + b).take(j)[i],
    )) is Some by {
        if i < a.len() {
            assert((a + b).take(j)[i] == a[i]);
        } else {
            assert((a + b).take(j)[i] == b.take(k)[i - a.len()]);
        }
    }
}

/// Whatever follows the first invalid text does not change which one it is.
pub proof fn lemma_invalid_before_rest(e: ServerError, a: Seq<Seq<char>>, b: Seq<Seq<char>>)
    requires
        first_invalid_id_error(e, a),
    ensures
        first_invalid_id_error(e, a + b),
{
    let k = choose|k: int|
        {
            &&& 0 <= k < a.len()
            &&& all_parse(a.take(k))
            &&& parsed_uuid(#[trigger] a[k]) is None
            &&& is_invalid_id_error(e, a[k])
        };
    assert((a + b)[k] == a[k]);
    assert((a + b).take(k) =~= a.take(k));
}

/// Two sequences of valid texts make one.
pub proof fn lemma_all_parse_concat(a: Seq<Seq<char>>, b: Seq<Seq<char>>)
    requires
        all_parse(a),
        all_parse(b),
    ensures
        all_parse(a + b),
{
    assert forall|i: int| 0 <= i < (a + b).len() implies (#[trigger] parsed_uuid((a + b)[i]))
        is Some by {
        if i < a.len() {
            assert((a + b)[i] == a[i]);
        } else {
            assert((a + b)[i] == b[i - a.len()]);
        }
    }
}

/// Converts a list of domain ids; fails with the error of the first one that
/// is not a UUID.
pub fn convert_id_list(ids: &Vec<String>) -> (r: Result<Vec<MongolId>, ServerError>)
    ensures
        match r {
            Ok(v) => all_parse(string_texts(ids@)) && v@ == ids_of(string_texts(ids@)),
            Err(e) => first_invalid_id_error(e, string_texts(ids@)),
        },
{
    let ghost t = string_texts(ids@);
    let mut out: Vec<MongolId> = Vec::new();
    let mut i: usize = 0;
    while i < ids.len()
        invariant
            t == string_texts(ids@),
            i <= ids@.len(),
            all_parse(t.take(i as int)),
            out@ =~= ids_of(t.take(i as int)),
        decreases ids@.len() - i,
    {
        match convert_domain_id_to_mongol(ids[i].as_str()) {
            Ok(v) => {
                assert(t.take(i + 1) =~= t.take(i as int).push(t[i as int]));
                out.push(v);
                assert forall|j: int| 0 <= j < t.take(i + 1).len() implies (#[trigger] parsed_uuid(
                    t.take(i + 1)[j],
                )) is Some by {
                    if j < i {
                        assert(t.take(i + 1)[j] == t.take(i as int)[j]);
                    }
                }
            },
            Err(e) => {
                assert(t[i as int] == ids@[i as int]@);
                assert(first_invalid_id_error(e, t)) by {
                    assert(parsed_uuid(t[i as int]) is None);
                }
                return Err(e);
            },
        }
        i += 1;
    }
    assert(t.take(i as int) =~= t);
    Ok(out)
}

/// Converts a domain id (UUID text) into the id stored in MongoDB.
pub fn convert_domain_id_to_mongol(id: &str) -> (r: Result<MongolId, ServerError>)
    ensures
        match r {
            Ok(v) => parsed_uuid(id@) == Some(v.0),
            Err(e) => parsed_uuid(id@) is None && is_invalid_id_error(e, id@),
        },
{
    match parse_uuid(id) {
        Some(v) => Ok(v),
        None => {
            let fresh = ServerError::new(Kind::InValid, OnType::Mongo, HELPER_STACK);
            assert(fresh.debug_view() =~= Seq::empty());
            let e = fresh.add_debug_info("incoming id", id.to_string());
            assert(e.debug_view() =~= seq![("incoming id"@, id@)]);
            Err(e)
        },
    }
}

/// Converts every domain id; fails with the error of the first id that is
/// not a UUID.
pub fn convert_domain_ids_to_mongol(ids: &[&str]) -> (r: Result<Vec<MongolId>, ServerError>)
    ensures
        match r {
            Ok(v) => {
                &&& all_parse(texts(ids@))
                &&& v@.len() == ids@.len()
                &&& forall|i: int|
                    0 <= i < ids@.len() ==> parsed_uuid(#[trigger] ids@[i]@) == Some(v@[i].0)
            },
            Err(e) => exists|k: int|
                {
                    &&& 0 <= k < ids@.len()
                    &&& all_parse(texts(ids@).take(k))
                    &&& parsed_uuid(#[trigger] ids@[k]@) is None
                    &&& is_invalid_id_error(e, ids@[k]@)
                },
        },
{
    let mut out: Vec<MongolId> = Vec::new();
    let mut i: usize = 0;
    while i < ids.len()
        invariant
            i <= ids@.len(),
            out@.len() == i,
            forall|j: int| 0 <= j < i ==> parsed_uuid(#[trigger] ids@[j]@) == Some(out@[j].0),
        decreases ids@.len() - i,
    {
        match convert_domain_id_to_mongol(ids[i]) {
            Ok(v) => out.push(v),
            Err(e) => {
                proof {
                    assert(all_parse(texts(ids@).take(i as int))) by {
                        assert forall|j: int| 0 <= j < i implies (#[trigger] parsed_uuid(
                            texts(ids@).take(i as int)[j],
                        )) is Some by {
                            assert(texts(ids@).take(i as int)[j] == ids@[j]@);
                        }
                    }
                }
                return Err(e);
            },
        }
        i += 1;
    }
    proof {
        assert forall|j: int| 0 <= j < texts(ids@).len() implies (#[trigger] parsed_uuid(
            texts(ids@)[j],
        )) is Some by {
            assert(texts(ids@)[j] == ids@[j]@);
        }
    }
    Ok(out)
}

} // verus!
