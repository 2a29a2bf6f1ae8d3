use vstd::prelude::*;
use crate::version::{HttpVersion, ResponseHead};
use http::header::{HeaderMap, HeaderName, HeaderValue, InvalidHeaderName, InvalidHeaderValue, MaxSizeReached};

verus! {

/// `http::HeaderMap`, known to proofs only through `header_map_contents`.
#[verifier::external_type_specification]
#[verifier::external_body]
#[verifier::reject_recursive_types(T)]
pub struct ExHeaderMap<T>(HeaderMap<T>);

/// `http::HeaderName`, known to proofs only through `header_name_bytes`.
#[verifier::external_type_specification]
#[verifier::external_body]
pub struct ExHeaderName(HeaderName);

/// `http::HeaderValue`, known to proofs only through `header_value_bytes`.
#[verifier::external_type_specification]
#[verifier::external_body]
pub struct ExHeaderValue(HeaderValue);

/// The error of `HeaderName::from_bytes`.
#[verifier::external_type_specification]
#[verifier::external_body]
pub struct ExInvalidHeaderName(InvalidHeaderName);

/// The error of `HeaderValue::from_bytes`.
#[verifier::external_type_specification]
#[verifier::external_body]
pub struct ExInvalidHeaderValue(InvalidHeaderValue);

/// The error of `HeaderMap::try_append`.
#[verifier::external_type_specification]
#[verifier::external_body]
pub struct ExMaxSizeReached(MaxSizeReached);

/// What a header map holds: for each (lower-case) name, its values in the
/// order they were added.
pub uninterp spec fn header_map_contents(m: HeaderMap) -> Map<Seq<u8>, Seq<Seq<u8>>>;

/// How many values a header map holds, over all names.
pub uninterp spec fn header_map_len(m: HeaderMap) -> nat;

/// The bytes of a header name.
pub uninterp spec fn header_name_bytes(n: HeaderName) -> Seq<u8>;

/// The bytes of a header value.
pub uninterp spec fn header_value_bytes(v: HeaderValue) -> Seq<u8>;

/// A header map with at most this many names can always take one more value.
pub const ROOMY_NAMES: usize = 6553;

/// The contents of a map without headers.
pub open spec fn no_headers() -> Map<Seq<u8>, Seq<Seq<u8>>> {
    Map::empty()
}

/// A byte that may stand in a header name (an HTTP token character).
pub open spec fn is_header_name_byte(b: u8) -> bool {
    ||| b == 33
    ||| 35 <= b <= 39
    ||| b == 42 || b == 43 || b == 45 || b == 46
    ||| 48 <= b <= 57
    ||| 65 <= b <= 90
    ||| 94 <= b <= 122
    ||| b == 124 || b == 126
}

pub open spec fn valid_header_name(s: Seq<u8>) -> bool {
    &&& 1 <= s.len() <= 65535
    &&& forall|i: int| 0 <= i < s.len() ==> is_header_name_byte(#[trigger] s[i])
}

/// A byte that may stand in a header value: visible, space, tab or above 127.
pub open spec fn is_header_value_byte(b: u8) -> bool {
    (b >= 32 && b != 127) || b == 9
}

pub open spec fn valid_header_value(s: Seq<u8>) -> bool {
    forall|i: int| 0 <= i < s.len() ==> is_header_value_byte(#[trigger] s[i])
}

pub open spec fn lower_byte(b: u8) -> u8 {
    if 65 <= b <= 90 { (b + 32) as u8 } else { b }
}

/// A header name as a map keys it: in lower case.
pub open spec fn lower_name(s: Seq<u8>) -> Seq<u8> {
    s.map_values(|b: u8| lower_byte(b))
}

/// `m` with `v` added after the values already held under `k`.
pub open spec fn append_entry(m: Map<Seq<u8>, Seq<Seq<u8>>>, k: Seq<u8>, v: Seq<u8>) -> Map<Seq<u8>, Seq<Seq<u8>>> {
    if m.contains_key(k) {
        m.insert(k, m[k].push(v))
    } else {
        m.insert(k, seq![v])
    }
}

/// `m` with each pair appended in order, names in lower case.
pub open spec fn appended(m: Map<Seq<u8>, Seq<Seq<u8>>>, pairs: Seq<(Seq<u8>, Seq<u8>)>) -> Map<Seq<u8>, Seq<Seq<u8>>>
    decreases pairs.len(),
{
    if pairs.len() == 0 {
        m
    } else {
        let last = pairs.last();
        append_entry(appended(m, pairs.drop_last()), lower_name(last.0), last.1)
    }
}

pub open spec fn valid_pair(p: (Seq<u8>, Seq<u8>)) -> bool {
    valid_header_name(p.0) && valid_header_value(p.1)
}

/// Relies on `HeaderName::from_bytes`: accepts exactly the non-empty token
/// strings of at most 65535 bytes, and keeps them in lower case.
#[verifier::external_body]
fn parse_header_name(b: &[u8]) -> (r: Result<HeaderName, InvalidHeaderName>)
    ensures
        r is Ok <==> valid_header_name(b@),
        r matches Ok(n) ==> header_name_bytes(n) == lower_name(b@),
{
    HeaderName::from_bytes(b)
}

/// Relies on `HeaderValue::from_bytes`: accepts exactly the byte strings
/// without control bytes other than tab, and keeps the bytes as given.
#[verifier::external_body]
fn parse_header_value(b: &[u8]) -> (r: Result<HeaderValue, InvalidHeaderValue>)
    ensures
        r is Ok <==> valid_header_value(b@),
        r matches Ok(v) ==> header_value_bytes(v) == b@,
{
    HeaderValue::from_bytes(b)
}

/// Relies on `HeaderMap::new`: an empty map.
#[verifier::external_body]
fn new_header_map() -> (r: HeaderMap)
    ensures
        header_map_contents(r) == no_headers(),
        header_map_len(r) == 0,
{
    HeaderMap::new()
}

/// Relies on `HeaderMap::try_append`: on success the value is pushed after
/// those already under the name, the map holds one value more, and the
/// result tells whether the name was there. It fails only when the map
/// cannot grow: with at most `ROOMY_NAMES` names held it has room.
#[verifier::external_body]
fn try_append_header(m: &mut HeaderMap, n: HeaderName, v: HeaderValue) -> (r: Result<bool, MaxSizeReached>)
    ensures
        r matches Ok(existed) ==> {
            &&& header_map_contents(*final(m)) == append_entry(
                header_map_contents(*old(m)),
                header_name_bytes(n),
                header_value_bytes(v),
            )
            &&& existed == header_map_contents(*old(m)).contains_key(header_name_bytes(n))
            &&& header_map_len(*final(m)) == header_map_len(*old(m)) + 1
        },
        header_map_contents(*old(m)).dom().finite() && header_map_contents(*old(m)).dom().len() <= ROOMY_NAMES
            ==> r is Ok,
{
    m.try_append(n, v)
}

/// Why appending headers stopped: the pair at `index` had an invalid name
/// or value, or the map could take no more entries.
#[derive(Clone, Copy, Debug, PartialEq, Eq, Structural)]
pub enum TryIntoHeaderError {
    Key { index: usize },
    Value { index: usize },
    Capacity { index: usize },
}

/// The text of an append error, as the header crate words it.
pub open spec fn error_text(e: TryIntoHeaderError) -> Seq<char> {
    match e {
        TryIntoHeaderError::Key { .. } => "invalid HTTP header name"@,
        TryIntoHeaderError::Value { .. } => "failed to parse header value"@,
        TryIntoHeaderError::Capacity { .. } => "max size reached"@,
    }
}

impl TryIntoHeaderError {
    /// The text of this error.
    pub fn message(&self) -> (r: String)
        ensures
            r@ == error_text(*self),
    {
        match self {
            TryIntoHeaderError::Key { .. } => "invalid HTTP header name".to_owned(),
            TryIntoHeaderError::Value { .. } => "failed to parse header value".to_owned(),
            TryIntoHeaderError::Capacity { .. } => "max size reached".to_owned(),
        }
    }
}

/// The error for the first pair, from index `i` on, whose name (checked
/// first) or value is invalid; none when all of them are valid.
pub open spec fn first_bad(ps: Seq<(Seq<u8>, Seq<u8>)>, i: int) -> Option<TryIntoHeaderError>
    decreases ps.len() - i,
{
    if i < 0 || i >= ps.len() {
        None
    } else if !valid_header_name(ps[i].0) {
        Some(TryIntoHeaderError::Key { index: i as usize })
    } else if !valid_header_value(ps[i].1) {
        Some(TryIntoHeaderError::Value { index: i as usize })
    } else {
        first_bad(ps, i + 1)
    }
}

/// A map holding `m` has room for `n` more values whatever their names.
pub open spec fn has_room(m: Map<Seq<u8>, Seq<Seq<u8>>>, n: int) -> bool {
    m.dom().finite() && m.dom().len() + n <= ROOMY_NAMES
}

/// Headers to add to a message without replacing those already there: each
/// pair is a name and a value, in the order they are to be appended.
#[derive(Clone, Debug)]
pub struct AppendHeaders(pub Vec<(Vec<u8>, Vec<u8>)>);

/// The parts of a response that headers are added to: its head (status and
/// version), which stays as it is, and its headers.
pub struct ResponseParts {
    pub head: ResponseHead,
    pub headers: HeaderMap,
}

/// A response made of a status, headers and a text body.
pub struct HeaderResponse {
    pub status: u16,
    pub headers: HeaderMap,
    pub body: String,
}

impl AppendHeaders {
    pub open spec fn pairs(&self) -> Seq<(Seq<u8>, Seq<u8>)> {
        self.0@.map_values(|p: (Vec<u8>, Vec<u8>)| (p.0@, p.1@))
    }

    /// Appends each pair to `headers` in order, keeping every header that
    /// was there. Stops at the first pair whose name or value is invalid.
    /// When every pair is valid and the map has room, this succeeds.
    pub fn into_response_parts(self, res: ResponseParts) -> (r: Result<ResponseParts, TryIntoHeaderError>)
        ensures
            r matches Ok(out) ==> {
                &&& out.head == res.head
                &&& first_bad(self.pairs(), 0) is None
                &&& header_map_contents(out.headers) == appended(header_map_contents(res.headers), self.pairs())
                &&& header_map_len(out.headers) == header_map_len(res.headers) + self.pairs().len()
            },
            first_bad(self.pairs(), 0) matches Some(e) ==> r is Err && (r->Err_0 == e || r->Err_0 is Capacity),
            r matches Err(TryIntoHeaderError::Capacity { index }) ==> {
                &&& index < self.pairs().len()
                &&& forall|j: int| 0 <= j <= index ==> valid_pair(#[trigger] self.pairs()[j])
            },
            has_room(header_map_contents(res.headers), self.pairs().len() as int) ==> match first_bad(self.pairs(), 0) {
                Some(e) => r == Err::<ResponseParts, TryIntoHeaderError>(e),
                None => r is Ok,
            },
    {
        let head = res.head;
        let mut headers = res.headers;
        let ghost start = header_map_contents(headers);
        let ghost start_len = header_map_len(headers);
        let pairs = self.0;
        let ghost ps = self.pairs();
        let mut i: usize = 0;
        while i < pairs.len()
            invariant
                i <= pairs@.len(),
                ps == pairs@.map_values(|p: (Vec<u8>, Vec<u8>)| (p.0@, p.1@)),
                ps == self.pairs(),
                start == header_map_contents(res.headers),
                start_len == header_map_len(res.headers),
                head == res.head,
                forall|j: int| 0 <= j < i ==> valid_pair(#[trigger] ps[j]),
                first_bad(ps, 0) == first_bad(ps, i as int),
                header_map_contents(headers) == appended(start, ps.subrange(0, i as int)),
                header_map_len(headers) == start_len + i,
                start.dom().finite() ==> header_map_contents(headers).dom().finite()
                    && header_map_contents(headers).dom().len() <= start.dom().len() + i,
            decreases pairs@.len() - i,
        {
            assert(ps[i as int] == (pairs@[i as int].0@, pairs@[i as int].1@));
            let key = match parse_header_name(pairs[i].0.as_slice()) {
                Ok(k) => k,
                Err(_) => return Err(TryIntoHeaderError::Key { index: i }),
            };
            let value = match parse_header_value(pairs[i].1.as_slice()) {
                Ok(v) => v,
                Err(_) => return Err(TryIntoHeaderError::Value { index: i }),
            };
            let ghost before = header_map_contents(headers);
            match try_append_header(&mut headers, key, value) {
                Ok(_) => {},
                Err(_) => return Err(TryIntoHeaderError::Capacity { index: i }),
            }
            proof {
                let next = ps.subrange(0, i + 1);
                assert(next.drop_last() =~= ps.subrange(0, i as int));
                assert(next.last() == ps[i as int]);
                let k = lower_name(ps[i as int].0);
                assert(header_map_contents(headers).dom() =~= before.dom().insert(k));
            }
            i = i + 1;
        }
        proof {
            assert(ps.subrange(0, i as int) =~= ps);
        }
        Ok(ResponseParts { head, headers })
    }

    /// A response of status 200 holding the appended headers and no body;
    /// or, when a pair is invalid or the map is full, of status 500 without
    /// headers and with the error's text as body.
    pub fn into_response(self) -> (r: HeaderResponse)
        ensures
            r.status == 200 || r.status == 500,
            r.status == 200 ==> {
                &&& first_bad(self.pairs(), 0) is None
                &&& header_map_contents(r.headers) == appended(no_headers(), self.pairs())
                &&& header_map_len(r.headers) == self.pairs().len()
                &&& r.body@.len() == 0
            },
            r.status == 500 ==> header_map_contents(r.headers) == no_headers() && header_map_len(r.headers) == 0,
            first_bad(self.pairs(), 0) is Some ==> r.status == 500,
            self.pairs().len() <= ROOMY_NAMES ==> match first_bad(self.pairs(), 0) {
                Some(e) => r.status == 500 && r.body@ == error_text(e),
                None => r.status == 200,
            },
    {
        let empty = new_header_map();
        proof {
            assert(header_map_contents(empty).dom() =~= Set::<Seq<u8>>::empty());
        }
        let parts = ResponseParts { head: ResponseHead { status: 200, version: HttpVersion::Http11 }, headers: empty };
        match self.into_response_parts(parts) {
            Ok(parts) => HeaderResponse { status: 200, headers: parts.headers, body: String::new() },
            Err(e) => HeaderResponse { status: 500, headers: new_header_map(), body: e.message() },
        }
    }
}

/// Whether some pair of `p` has the (lower-case) name `k`.
pub open spec fn mentions(p: Seq<(Seq<u8>, Seq<u8>)>, k: Seq<u8>) -> bool {
    exists|i: int| 0 <= i < p.len() && lower_name(#[trigger] p[i].0) == k
}

/// `m1` and `m2` hold the same values under `k`, or neither holds `k`.
pub open spec fn agree_on(m1: Map<Seq<u8>, Seq<Seq<u8>>>, m2: Map<Seq<u8>, Seq<Seq<u8>>>, k: Seq<u8>) -> bool {
    &&& m1.contains_key(k) == m2.contains_key(k)
    &&& m1.contains_key(k) ==> m1[k] == m2[k]
}

/// `old_values` is a prefix of `new_values`.
pub open spec fn kept_as_prefix(old_values: Seq<Seq<u8>>, new_values: Seq<Seq<u8>>) -> bool {
    old_values.len() <= new_values.len() && new_values.subrange(0, old_values.len() as int) == old_values
}

/// Appending one list of pairs and then another is appending their concatenation.
pub proof fn lemma_appended_concat(
    m: Map<Seq<u8>, Seq<Seq<u8>>>,
    first: Seq<(Seq<u8>, Seq<u8>)>,
    second: Seq<(Seq<u8>, Seq<u8>)>,
)
    ensures
        appended(appended(m, first), second) == appended(m, first + second),
    decreases second.len(),
{
    if second.len() == 0 {
        assert(first + second =~= first);
    } else {
        lemma_appended_concat(m, first, second.drop_last());
        assert((first + second).drop_last() =~= first + second.drop_last());
    }
}

/// Appending never drops a header: each name keeps its earlier values, in
/// order, ahead of the new ones.
pub proof fn lemma_appended_keeps(m: Map<Seq<u8>, Seq<Seq<u8>>>, p: Seq<(Seq<u8>, Seq<u8>)>, k: Seq<u8>)
    requires
        m.contains_key(k),
    ensures
        appended(m, p).contains_key(k),
        kept_as_prefix(m[k], appended(m, p)[k]),
    decreases p.len(),
{
    if p.len() == 0 {
        assert(m[k].subrange(0, m[k].len() as int) =~= m[k]);
    } else {
        lemma_appended_keeps(m, p.drop_last(), k);
        let prev = appended(m, p.drop_last());
        if lower_name(p.last().0) == k {
            assert(prev[k].push(p.last().1).subrange(0, m[k].len() as int) =~= prev[k].subrange(0, m[k].len() as int));
        }
    }
}

/// Names that no pair mentions are left as they were.
pub proof fn lemma_appended_untouched(m: Map<Seq<u8>, Seq<Seq<u8>>>, p: Seq<(Seq<u8>, Seq<u8>)>, k: Seq<u8>)
    requires
        !mentions(p, k),
    ensures
        agree_on(appended(m, p), m, k),
    decreases p.len(),
{
    if p.len() > 0 {
        assert(!mentions(p.drop_last(), k)) by {
            if mentions(p.drop_last(), k) {
                let i = choose|i: int| 0 <= i < p.drop_last().len() && lower_name(#[trigger] p.drop_last()[i].0) == k;
                assert(p[i] == p.drop_last()[i]);
            }
        }
        lemma_appended_untouched(m, p.drop_last(), k);
        assert(lower_name(p[p.len() - 1].0) != k);
    }
}

/// What ends up under a name depends only on what was under it before.
pub proof fn lemma_appended_local(
    m1: Map<Seq<u8>, Seq<Seq<u8>>>,
    m2: Map<Seq<u8>, Seq<Seq<u8>>>,
    p: Seq<(Seq<u8>, Seq<u8>)>,
    k: Seq<u8>,
)
    requires
        agree_on(m1, m2, k),
    ensures
        agree_on(appended(m1, p), appended(m2, p), k),
    decreases p.len(),
{
    if p.len() > 0 {
        lemma_appended_local(m1, m2, p.drop_last(), k);
    }
}

/// Appending two lists of headers with no name in common, one after the
/// other, gives the union of all headers: what appending all of them in
/// that order gives; each name of the first list holds what the first
/// append put there; each name of the second holds what appending the second
/// alone would have added to the starting map; every earlier header is kept
/// ahead of new ones; other names are untouched.
pub proof fn lemma_append_twice_disjoint(
    m: Map<Seq<u8>, Seq<Seq<u8>>>,
    first: Seq<(Seq<u8>, Seq<u8>)>,
    second: Seq<(Seq<u8>, Seq<u8>)>,
)
    requires
        forall|k: Seq<u8>| !(mentions(first, k) && mentions(second, k)),
    ensures
        appended(appended(m, first), second) == appended(m, first + second),
        forall|k: Seq<u8>| mentions(first, k) ==> agree_on(appended(appended(m, first), second), appended(m, first), k),
        forall|k: Seq<u8>| mentions(second, k) ==> agree_on(appended(appended(m, first), second), appended(m, second), k),
        forall|k: Seq<u8>| #[trigger] m.contains_key(k) ==> appended(appended(m, first), second).contains_key(k)
            && kept_as_prefix(m[k], appended(appended(m, first), second)[k]),
        forall|k: Seq<u8>| !mentions(first, k) && !mentions(second, k) ==> agree_on(appended(appended(m, first), second), m, k),
{
    lemma_appended_concat(m, first, second);
    let once = appended(m, first);
    let twice = appended(once, second);
    assert forall|k: Seq<u8>| mentions(first, k) implies agree_on(twice, once, k) by {
        lemma_appended_untouched(once, second, k);
    }
    assert forall|k: Seq<u8>| mentions(second, k) implies agree_on(twice, appended(m, second), k) by {
        lemma_appended_untouched(m, first, k);
        lemma_appended_local(once, m, second, k);
    }
    assert forall|k: Seq<u8>| #[trigger] m.contains_key(k) implies twice.contains_key(k) && kept_as_prefix(m[k], twice[k]) by {
        lemma_appended_keeps(m, first, k);
        lemma_appended_keeps(once, second, k);
        assert(twice[k].subrange(0, m[k].len() as int) =~= twice[k].subrange(0, once[k].len() as int).subrange(0, m[k].len() as int));
    }
    assert forall|k: Seq<u8>| !mentions(first, k) && !mentions(second, k) implies agree_on(twice, m, k) by {
        lemma_appended_untouched(m, first, k);
        lemma_appended_untouched(once, second, k);
    }
}

/// No pair from `i` on is invalid exactly when each of them is valid.
pub proof fn lemma_first_bad_none(ps: Seq<(Seq<u8>, Seq<u8>)>, i: int)
    requires
        0 <= i <= ps.len(),
    ensures
        first_bad(ps, i) is None <==> forall|j: int| i <= j < ps.len() ==> valid_pair(#[trigger] ps[j]),
    decreases ps.len() - i,
{
    if i < ps.len() {
        lemma_first_bad_none(ps, i + 1);
    }
}

/// Appending adds at most one name per pair, and keeps the set of names finite.
pub proof fn lemma_appended_names(m: Map<Seq<u8>, Seq<Seq<u8>>>, p: Seq<(Seq<u8>, Seq<u8>)>)
    requires
        m.dom().finite(),
    ensures
        appended(m, p).dom().finite(),
        appended(m, p).dom().len() <= m.dom().len() + p.len(),
    decreases p.len(),
{
    if p.len() > 0 {
        lemma_appended_names(m, p.drop_last());
        let prev = appended(m, p.drop_last());
        assert(appended(m, p).dom() =~= prev.dom().insert(lower_name(p.last().0)));
    }
}

/// Two lists of valid pairs that fit together into a map's room: the first
/// append leaves room for the second, and their concatenation is valid and
/// fits too, so appending them one after the other and appending them in
/// one go both succeed.
pub proof fn lemma_append_twice_succeeds(
    m: Map<Seq<u8>, Seq<Seq<u8>>>,
    first: Seq<(Seq<u8>, Seq<u8>)>,
    second: Seq<(Seq<u8>, Seq<u8>)>,
)
    requires
        first_bad(first, 0) is None,
        first_bad(second, 0) is None,
        has_room(m, (first.len() + second.len()) as int),
    ensures
        has_room(m, first.len() as int),
        has_room(appended(m, first), second.len() as int),
        first_bad(first + second, 0) is None,
        has_room(m, (first + second).len() as int),
{
    lemma_appended_names(m, first);
    lemma_first_bad_none(first, 0);
    lemma_first_bad_none(second, 0);
    lemma_first_bad_none(first + second, 0);
    assert forall|j: int| 0 <= j < (first + second).len() implies valid_pair(#[trigger] (first + second)[j]) by {
        if j < first.len() {
            assert((first + second)[j] == first[j]);
        } else {
            assert((first + second)[j] == second[j - first.len()]);
        }
    }
}

} // verus!
