use vstd::prelude::*;

use crate::error::{kind_name, on_type_name, pairs_view, ServerError};

verus! {

/// What a request log knows of the user who sent the request.
#[derive(Debug)]
pub struct RequestLogLinePersonal {
    pub user_id: Option<String>,
}

/// One handled request, as the request logger records it.
#[derive(Debug)]
pub struct RequestLogLine {
    pub req_id: String,
    pub timestamp: String,
    pub user_info: RequestLogLinePersonal,
    pub req_path: String,
    pub req_method: String,
    pub client_error_type: Option<String>,
    pub server_error: Option<ServerError>,
}

/// The log document stored for one request.
#[derive(Debug)]
pub struct MongolLog {
    pub req_id: String,
    pub timestamp: String,
    pub user_info: RequestLogLinePersonal,
    pub req_path: String,
    pub req_method: String,
    pub client_error_type: Option<String>,
    pub server_error: Option<Vec<MongolLogServerError>>,
}

/// One error of a logged error chain, with kind and location as text.
#[derive(Debug)]
pub struct MongolLogServerError {
    pub kind: String,
    pub on_type: String,
    pub stack: String,
    /// The debug information as a map: one pair per key.
    pub debug_info: Vec<(String, String)>,
    pub pub_info: Option<String>,
}

/// An optional text as an optional character sequence.
pub open spec fn opt_text(s: Option<String>) -> Option<Seq<char>> {
    match s {
        Some(t) => Some(t@),
        None => None,
    }
}

/// An error followed by the errors it was raised from, outermost first.
pub open spec fn error_chain(e: ServerError) -> Seq<ServerError>
    decreases e,
{
    match e.child {
        Some(child) => seq![e] + error_chain(*child),
        None => seq![e],
    }
}

/// A log entry records the given error.
pub open spec fn records(entry: MongolLogServerError, e: ServerError) -> bool {
    &&& entry.kind@ == kind_name(e.kind)
    &&& entry.on_type@ == on_type_name(e.on_type)
    &&& entry.stack@ == e.stack@
    &&& collected(pairs_view(entry.debug_info@), e.debug_view())
    &&& opt_text(entry.pub_info) == opt_text(e.pub_info)
}

/// The entries record the errors one by one.
pub open spec fn records_all(entries: Seq<MongolLogServerError>, errors: Seq<ServerError>) -> bool {
    &&& entries.len() == errors.len()
    &&& forall|i: int| 0 <= i < entries.len() ==> records(#[trigger] entries[i], errors[i])
}

/// A copy of an optional text.
fn clone_opt_text(s: &Option<String>) -> (r: Option<String>)
    ensures
        opt_text(r) == opt_text(*s),
{
    match s {
        Some(t) => Some(t.clone()),
        None => None,
    }
}

/// Pair `m` is the last pair of `pairs` with its key.
pub open spec fn is_last_of_key(pairs: Seq<(Seq<char>, Seq<char>)>, m: int) -> bool {
    &&& 0 <= m < pairs.len()
    &&& forall|j: int| m < j < pairs.len() ==> (#[trigger] pairs[j]).0 != pairs[m].0
}

/// `map` is what collecting `pairs` into a map gives: each key of `pairs`
/// once, with the value of its last pair.
pub open spec fn collected(map: Seq<(Seq<char>, Seq<char>)>, pairs: Seq<(Seq<char>, Seq<char>)>) -> bool {
    &&& forall|a: int, b: int| 0 <= a < b < map.len() ==> (#[trigger] map[a]).0 != (#[trigger] map[b]).0
    &&& forall|a: int|
        0 <= a < map.len() ==> exists|m: int| is_last_of_key(pairs, m) && pairs[m] == #[trigger] map[a]
    &&& forall|m: int|
        0 <= m < pairs.len() ==> exists|a: int| 0 <= a < map.len() && (#[trigger] map[a]).0 == (
        #[trigger] pairs[m]).0
}

/// The index of the pair with key `key`, if any.
fn find_key(out: &Vec<(String, String)>, key: &String) -> (r: Option<usize>)
    ensures
        match r {
            Some(j) => j < out@.len() && out@[j as int].0@ == key@,
            None => forall|j: int| 0 <= j < out@.len() ==> (#[trigger] out@[j]).0@ != key@,
        },
{
    let mut j: usize = 0;
    while j < out.len()
        invariant
            j <= out@.len(),
            forall|i: int| 0 <= i < j ==> (#[trigger] out@[i]).0@ != key@,
        decreases out@.len() - j,
    {
        if out[j].0 == *key {
            return Some(j);
        }
        j += 1;
    }
    None
}

/// Collecting one more pair: it replaces the pair of its key, or is added
/// where its key is new.
proof fn lemma_collect_step(
    old_map: Seq<(Seq<char>, Seq<char>)>,
    t: Seq<(Seq<char>, Seq<char>)>,
    p: (Seq<char>, Seq<char>),
    at: int,
    nm: Seq<(Seq<char>, Seq<char>)>,
)
    requires
        collected(old_map, t),
        0 <= at <= old_map.len(),
        at < old_map.len() ==> nm == old_map.update(at, p) && old_map[at].0 == p.0,
        at == old_map.len() ==> nm == old_map.push(p) && forall|a: int|
            0 <= a < old_map.len() ==> (#[trigger] old_map[a]).0 != p.0,
    ensures
        collected(nm, t.push(p)),
{
    let t2 = t.push(p);
    let i = t.len() as int;
    assert(nm.len() == if at < old_map.len() { old_map.len() } else { old_map.len() + 1 });
    assert(nm[at] == p);
    assert forall|a: int| 0 <= a < old_map.len() && a != at implies old_map[a].0 != p.0 by {
        if at < old_map.len() {
            if a < at {
                assert(old_map[a].0 != old_map[at].0);
            } else {
                assert(old_map[at].0 != old_map[a].0);
            }
        }
    }
    assert forall|a: int| 0 <= a < nm.len() && a != at implies nm[a] == old_map[a] by {}
    assert forall|a: int, b: int| 0 <= a < b < nm.len() implies (#[trigger] nm[a]).0 != (
    #[trigger] nm[b]).0 by {
        if a != at && b != at {
            assert(old_map[a].0 != old_map[b].0);
        } else if a == at {
            assert(nm[b] == old_map[b]);
        } else {
            assert(nm[a] == old_map[a]);
        }
    }
    assert forall|a: int| 0 <= a < nm.len() implies exists|m: int|
        is_last_of_key(t2, m) && t2[m] == #[trigger] nm[a] by {
        if a == at {
            assert(is_last_of_key(t2, i));
            assert(t2[i] == nm[a]);
        } else {
            assert(old_map[a] == nm[a]);
            let m = choose|m: int| is_last_of_key(t, m) && t[m] == old_map[a];
            assert(t2[m] == t[m]);
            assert forall|j: int| m < j < t2.len() implies (#[trigger] t2[j]).0 != t2[m].0 by {
                if j < t.len() {
                    assert(t2[j] == t[j]);
                } else {
                    assert(t2[j] == p);
                }
            }
            assert(is_last_of_key(t2, m));
        }
    }
    assert forall|m: int| 0 <= m < t2.len() implies exists|a: int|
        0 <= a < nm.len() && (#[trigger] nm[a]).0 == (#[trigger] t2[m]).0 by {
        if m == i {
            assert(nm[at].0 == t2[m].0);
        } else {
            assert(t2[m] == t[m]);
            let a = choose|a: int| 0 <= a < old_map.len() && (#[trigger] old_map[a]).0 == (
            #[trigger] t[m]).0;
            if a == at {
                assert(nm[at].0 == t2[m].0);
            } else {
                assert(nm[a] == old_map[a]);
            }
        }
    }
}

/// Collects key/value pairs as a map does: one pair per key, holding the
/// value of the key's last pair.
fn collect_pairs(pairs: &Vec<(String, String)>) -> (r: Vec<(String, String)>)
    ensures
        collected(pairs_view(r@), pairs_view(pairs@)),
{
    let ghost pv = pairs_view(pairs@);
    let mut out: Vec<(String, String)> = Vec::new();
    let mut i: usize = 0;
    while i < pairs.len()
        invariant
            pv == pairs_view(pairs@),
            i <= pairs@.len(),
            collected(pairs_view(out@), pv.take(i as int)),
        decreases pairs@.len() - i,
    {
        let ghost t = pv.take(i as int);
        let ghost old_map = pairs_view(out@);
        let (k, v) = &pairs[i];
        let ghost p = pv[i as int];
        assert(p == (k@, v@));
        assert(pv.take(i + 1) =~= t.push(p));
        let found = find_key(&out, k);
        match found {
            Some(j) => {
                assert(old_map[j as int].0 == k@);
                out.set(j, (k.clone(), v.clone()));
                proof {
                    assert(pairs_view(out@) =~= old_map.update(j as int, p));
                    lemma_collect_step(old_map, t, p, j as int, pairs_view(out@));
                }
            },
            None => {
                proof {
                    assert forall|a: int| 0 <= a < old_map.len() implies (
                    #[trigger] old_map[a]).0 != k@ by {
                        assert(old_map[a].0 == out@[a].0@);
                    }
                }
                out.push((k.clone(), v.clone()));
                proof {
                    assert(pairs_view(out@) =~= old_map.push(p));
                    lemma_collect_step(old_map, t, p, old_map.len() as int, pairs_view(out@));
                }
            },
        }
        i += 1;
    }
    assert(pv.take(pairs@.len() as int) =~= pv);
    out
}

/// Appends an entry for `server` and for each error it was raised from.
fn collect_errors(server: &ServerError, errors: &mut Vec<MongolLogServerError>)
    ensures
        final(errors)@.len() == old(errors)@.len() + error_chain(*server).len(),
        final(errors)@.take(old(errors)@.len() as int) == old(errors)@,
        records_all(final(errors)@.skip(old(errors)@.len() as int), error_chain(*server)),
    decreases *server,
{
    let ghost start = errors@;
    errors.push(
        MongolLogServerError {
            kind: server.kind.name(),
            on_type: server.on_type.name(),
            stack: server.stack.clone(),
            debug_info: collect_pairs(&server.debug_info),
            pub_info: clone_opt_text(&server.pub_info),
        },
    );
    let ghost pushed = errors@;
    match &server.child {
        Some(child) => {
            collect_errors(child, errors);
            proof {
                let n = start.len() as int;
                assert(errors@.take(n) =~= start) by {
                    assert(errors@.take(pushed.len() as int) == pushed);
                    assert forall|i: int| 0 <= i < n implies errors@.take(n)[i] == start[i] by {
                        assert(errors@.take(pushed.len() as int)[i] == pushed[i]);
                    }
                }
                let tail = errors@.skip(n);
                assert(error_chain(*server) == seq![*server] + error_chain(**child));
                assert forall|i: int| 0 <= i < tail.len() implies records(
                    #[trigger] tail[i],
                    error_chain(*server)[i],
                ) by {
                    if i == 0 {
                        assert(tail[0] == errors@.take(pushed.len() as int)[n]);
                    } else {
                        assert(tail[i] == errors@.skip(pushed.len() as int)[i - 1]);
                    }
                }
            }
        },
        None => {
            proof {
                let n = start.len() as int;
                assert(errors@.take(n) =~= start);
                assert(errors@.skip(n) =~= seq![errors@[n]]);
            }
        },
    }
}

/// The log entries of an error and the errors it was raised from, outermost
/// first; `None` when there is no error.
pub fn create_server_error(value: Option<&ServerError>) -> (r: Option<Vec<MongolLogServerError>>)
    ensures
        match value {
            Some(e) => r is Some && records_all(r->0@, error_chain(*e)),
            None => r is None,
        },
{
    match value {
        Some(err_val) => {
            let mut errors: Vec<MongolLogServerError> = Vec::new();
            collect_errors(err_val, &mut errors);
            assert(errors@.skip(0) =~= errors@);
            Some(errors)
        },
        None => None,
    }
}

impl MongolLog {
    /// The log document of a handled request: its fields as they are, and
    /// the request's error chain flattened into entries.
    pub fn try_from(value: RequestLogLine) -> (r: Result<MongolLog, ServerError>)
        ensures
            r is Ok,
            r matches Ok(log) ==> {
                &&& log.req_id == value.req_id
                &&& log.timestamp == value.timestamp
                &&& log.user_info == value.user_info
                &&& log.req_path == value.req_path
                &&& log.req_method == value.req_method
                &&& log.client_error_type == value.client_error_type
                &&& match value.server_error {
                    Some(e) => log.server_error is Some && records_all(
                        log.server_error->0@,
                        error_chain(e),
                    ),
                    None => log.server_error is None,
                }
            },
    {
        let errors = create_server_error(value.server_error.as_ref());
        Ok(
            MongolLog {
                req_id: value.req_id,
                timestamp: value.timestamp,
                user_info: value.user_info,
                req_path: value.req_path,
                req_method: value.req_method,
                client_error_type: value.client_error_type,
                server_error: errors,
            },
        )
    }
}

} // verus!
