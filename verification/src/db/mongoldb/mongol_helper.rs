use vstd::prelude::*;

use crate::ids::{parse_uuid, parsed_uuid, MongolId};

verus! {

/// The errors of the first storage layout.
#[derive(Debug)]
pub enum MongolError {
    InvalidID { id: String },
    FailedUserParsing,
    FailedChatParsing,
    FailedDateParsing,
}

/// The text that `Debug` writes for a string: the string in double quotes,
/// with quotes, backslashes and control and other non-printable characters
/// escaped.
pub uninterp spec fn str_debug_text(s: Seq<char>) -> Seq<char>;

/// Calls `Debug` of `str` (through `format!`). Claims the result is
/// `str_debug_text` of the string.
#[verifier::external_body]
fn debug_text(s: &str) -> (r: String)
    ensures
        r@ == str_debug_text(s@),
{
    format!("{s:?}")
}

/// Calls `String::push_str`, which appends `t` to `s`.
#[verifier::external_body]
fn push_text(s: &mut String, t: &str)
    ensures
        final(s)@ == old(s)@ + t@,
{
    s.push_str(t)
}

/// The text of an error: its `Debug` form, as the layout's `Display` writes.
pub open spec fn error_text(e: MongolError) -> Seq<char> {
    match e {
        MongolError::InvalidID { id } => "InvalidID { id: "@ + str_debug_text(id@) + " }"@,
        MongolError::FailedUserParsing => "FailedUserParsing"@,
        MongolError::FailedChatParsing => "FailedChatParsing"@,
        MongolError::FailedDateParsing => "FailedDateParsing"@,
    }
}

impl MongolError {
    /// The text of the error, as its `Display` writes it.
    pub fn text(&self) -> (r: String)
        ensures
            r@ == error_text(*self),
    {
        match self {
            MongolError::InvalidID { id } => {
                let mut r = "InvalidID { id: ".to_string();
                let quoted = debug_text(id.as_str());
                push_text(&mut r, quoted.as_str());
                push_text(&mut r, " }");
                r
            },
            MongolError::FailedUserParsing => "FailedUserParsing".to_string(),
            MongolError::FailedChatParsing => "FailedChatParsing".to_string(),
            MongolError::FailedDateParsing => "FailedDateParsing".to_string(),
        }
    }
}

/// Conversion from a flag that drops the flag's extra data.
pub trait FromWithoutMetaInfo<T>: Sized {
    fn from_without_meta_info(flag: T) -> Self;
}

/// The error for an id text that is not a UUID.
pub open spec fn is_invalid_id(e: MongolError, id: Seq<char>) -> bool {
    e matches MongolError::InvalidID { id: text } && text@ == id
}

/// Every text is a UUID.
pub open spec fn all_valid(ids: Seq<Seq<char>>) -> bool {
    forall|i: int| 0 <= i < ids.len() ==> (#[trigger] parsed_uuid(ids[i])) is Some
}

/// The first text that is not a UUID gave the error `e`.
pub open spec fn first_invalid(e: MongolError, ids: Seq<Seq<char>>) -> bool {
    exists|k: int|
        {
            &&& 0 <= k < ids.len()
            &&& all_valid(ids.take(k))
            &&& parsed_uuid(#[trigger] ids[k]) is None
            &&& is_invalid_id(e, ids[k])
        }
}

/// The texts of owned strings.
pub open spec fn texts_of(ids: Seq<String>) -> Seq<Seq<char>> {
    ids.map_values(|s: String| s@)
}

/// The ids of valid texts.
pub open spec fn ids_from(texts: Seq<Seq<char>>) -> Seq<MongolId> {
    texts.map_values(|t: Seq<char>| MongolId(parsed_uuid(t)->0))
}

/// Converts a domain id into the stored id, failing with `InvalidID`.
pub fn convert_domain_id_to_mongol(id: &str) -> (r: Result<MongolId, MongolError>)
    ensures
        match r {
            Ok(v) => parsed_uuid(id@) == Some(v.0),
            Err(e) => parsed_uuid(id@) is None && is_invalid_id(e, id@),
        },
{
    match parse_uuid(id) {
        Some(v) => Ok(v),
        None => Err(MongolError::InvalidID { id: id.to_string() }),
    }
}

/// Converts a list of ids, failing on the first that is not a UUID.
pub fn convert_ids(ids: &Vec<String>) -> (r: Result<Vec<MongolId>, MongolError>)
    ensures
        match r {
            Ok(v) => all_valid(texts_of(ids@)) && v@ == ids_from(texts_of(ids@)),
            Err(e) => first_invalid(e, texts_of(ids@)),
        },
{
    let ghost t = texts_of(ids@);
    let mut out: Vec<MongolId> = Vec::new();
    let mut i: usize = 0;
    while i < ids.len()
        invariant
            t == texts_of(ids@),
            i <= ids@.len(),
            all_valid(t.take(i as int)),
            out@ =~= ids_from(t.take(i as int)),
        decreases ids@.len() - i,
    {
        match convert_domain_id_to_mongol(ids[i].as_str()) {
            Ok(v) => {
                assert(t.take(i + 1) =~= t.take(i as int).push(t[i as int]));
                out.push(v);
                assert forall|j: int| 0 <= j < t.take(i + 1).len() implies (#[trigger] parsed_uuid(
                    t.take(i + 1)[j],
                )) is Some by {
                    if j < i {
                        assert(t.take(i + 1)[j] == t.take(i as int)[j]);
                    }
                }
            },
            Err(e) => {
                assert(t[i as int] == ids@[i as int]@);
                assert(parsed_uuid(t[i as int]) is None);
                return Err(e);
            },
        }
        i += 1;
    }
    assert(t.take(i as int) =~= t);
    Ok(out)
}

/// An invalid leading id is the first invalid id of the whole sequence.
pub proof fn lemma_invalid_head(e: MongolError, id: Seq<char>, rest: Seq<Seq<char>>)
    requires
        parsed_uuid(id) is None,
        is_invalid_id(e, id),
    ensures
        first_invalid(e, seq![id] + rest),
{
    let s = seq![id] + rest;
    assert(s[0] == id);
    assert(s.take(0) =~= Seq::<Seq<char>>::empty());
}

/// Valid leading ids followed by ids whose first invalid one gave `e`.
pub proof fn lemma_invalid_after(e: MongolError, a: Seq<Seq<char>>, b: Seq<Seq<char>>)
    requires
        all_valid(a),
        first_invalid(e, b),
    ensures
        first_invalid(e, a + b),
{
    let k = choose|k: int|
        {
            &&& 0 <= k < b.len()
            &&& all_valid(b.take(k))
            &&& parsed_uuid(#[trigger] b[k]) is None
            &&& is_invalid_id(e, b[k])
        };
    let j = a.len() + k;
    assert((a + b)[j] == b[k]);
    assert forall|i: int| 0 <= i < (a + b).take(j).len() implies (#[trigger] parsed_uuid(
        (a + b).take(j)[i],
    )) is Some by {
        if i < a.len() {
            assert((a + b).take(j)[i] == a[i]);
        } else {
            assert((a + b).take(j)[i] == b.take(k)[i - a.len()]);
        }
    }
}

/// Two sequences of valid ids make one.
pub proof fn lemma_valid_concat(a: Seq<Seq<char>>, b: Seq<Seq<char>>)
    requires
        all_valid(a),
        all_valid(b),
    ensures
        all_valid(a + b),
{
    assert forall|i: int| 0 <= i < (a + b).len() implies (#[trigger] parsed_uuid((a + b)[i]))
        is Some by {
        if i < a.len() {
            assert((a + b)[i] == a[i]);
        } else {
            assert((a + b)[i] == b[i - a.len()]);
        }
    }
}

} // verus!
