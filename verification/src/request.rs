//! Building one authenticated request: method, path, query parameters,
//! and the fully-formed descriptor that the transport layer sends.
//!
//! A descriptor is built fresh for every call (and for every page of a
//! paginated call) so that rotated credentials are always current.
//! Nothing here sends anything.

use vstd::prelude::*;
use vstd::string::StringExecFns;

use crate::config::PlatzClientConfig;
use crate::error::{ErrorView, PlatzClientError};
use crate::urls::{join_url, url_joined};

verus! {

/// The HTTP method of a request.
#[derive(Clone, Copy, Debug, PartialEq, Eq, Structural)]
pub enum HttpMethod {
    Get,
    Post,
    Put,
    Patch,
    Delete,
    Head,
}

impl HttpMethod {
    /// The method's standard upper-case name.
    pub fn as_str(&self) -> (r: &'static str)
        ensures
            r@ == self.spec_name(),
    {
        match self {
            HttpMethod::Get => "GET",
            HttpMethod::Post => "POST",
            HttpMethod::Put => "PUT",
            HttpMethod::Patch => "PATCH",
            HttpMethod::Delete => "DELETE",
            HttpMethod::Head => "HEAD",
        }
    }

    /// What `as_str` returns for each method.
    pub open spec fn spec_name(&self) -> Seq<char> {
        match self {
            HttpMethod::Get => "GET"@,
            HttpMethod::Post => "POST"@,
            HttpMethod::Put => "PUT"@,
            HttpMethod::Patch => "PATCH"@,
            HttpMethod::Delete => "DELETE"@,
            HttpMethod::Head => "HEAD"@,
        }
    }
}

/// The descriptive client identifier the transport layer sends with
/// every outbound request.
pub fn http_user_agent() -> (r: &'static str)
    ensures
        r@ == spec_http_user_agent(),
{
    "platz_client/0.1.0"
}

/// What `http_user_agent` returns.
pub open spec fn spec_http_user_agent() -> Seq<char> {
    "platz_client/0.1.0"@
}

/// The query parameters as the finite map they denote: a later
/// assignment to a key overrides an earlier one.
pub open spec fn query_map(q: Seq<(Seq<char>, Seq<char>)>) -> Map<Seq<char>, Seq<char>>
    decreases q.len(),
{
    if q.len() == 0 {
        Map::empty()
    } else {
        query_map(q.drop_last()).insert(q.last().0, q.last().1)
    }
}

/// No two query entries carry the same key.
pub open spec fn distinct_keys(q: Seq<(Seq<char>, Seq<char>)>) -> bool {
    forall|i: int, j: int|
        #![trigger q[i].0, q[j].0]
        0 <= i < j < q.len() ==> q[i].0 != q[j].0
}

proof fn lemma_query_map_update(q: Seq<(Seq<char>, Seq<char>)>, i: int, kv: (Seq<char>, Seq<char>))
    requires
        0 <= i < q.len(),
        distinct_keys(q),
        q[i].0 == kv.0,
    ensures
        query_map(q.update(i, kv)) == query_map(q).insert(kv.0, kv.1),
    decreases q.len(),
{
    let upd = q.update(i, kv);
    if i == q.len() - 1 {
        assert(upd.drop_last() =~= q.drop_last());
        assert(upd.last() == kv);
        assert(query_map(upd) == query_map(q.drop_last()).insert(kv.0, kv.1));
        assert(query_map(q).insert(kv.0, kv.1) =~= query_map(q.drop_last()).insert(
            kv.0,
            kv.1,
        ));
    } else {
        assert(upd.drop_last() =~= q.drop_last().update(i, kv));
        assert(upd.last() == q.last());
        assert(distinct_keys(q.drop_last()));
        lemma_query_map_update(q.drop_last(), i, kv);
        // the key being replaced differs from the last entry's key
        assert(q[i].0 != q.last().0);
        assert(query_map(upd) == query_map(q.drop_last()).insert(kv.0, kv.1).insert(
            q.last().0,
            q.last().1,
        ));
        assert(query_map(q.drop_last()).insert(kv.0, kv.1).insert(q.last().0, q.last().1)
            =~= query_map(q.drop_last()).insert(q.last().0, q.last().1).insert(kv.0, kv.1));
    }
}

/// One request in the making: a method, a path relative to the
/// server's base address, and query parameters with unique keys.
#[derive(Debug, Clone)]
pub struct PlatzRequest {
    pub method: HttpMethod,
    pub path: String,
    pub query: Vec<(String, String)>,
}

impl PlatzRequest {
    /// The query entries carry pairwise distinct keys.
    pub open spec fn wf(&self) -> bool {
        distinct_keys(self.query.deep_view())
    }

    /// A fresh request with no query parameters.
    pub fn new(method: HttpMethod, path: &str) -> (r: PlatzRequest)
        ensures
            r.method == method,
            r.path@ == path@,
            r.query.deep_view() =~= Seq::<(Seq<char>, Seq<char>)>::empty(),
            r.wf(),
    {
        PlatzRequest { method, path: path.to_owned(), query: Vec::new() }
    }

    /// Assigns one query parameter: a later assignment to the same key
    /// wins, and keys stay unique.
    pub fn query(self, key: &str, value: &str) -> (r: PlatzRequest)
        requires
            self.wf(),
        ensures
            r.wf(),
            r.method == self.method,
            r.path@ == self.path@,
            query_map(r.query.deep_view()) == query_map(self.query.deep_view()).insert(
                key@,
                value@,
            ),
    {
        let mut r = self;
        r.set_query(key, value);
        r
    }

    /// Assigns every pair in order; for duplicate keys the last
    /// assignment wins.
    pub fn add_to_query(self, pairs: &Vec<(String, String)>) -> (r: PlatzRequest)
        requires
            self.wf(),
        ensures
            r.wf(),
            r.method == self.method,
            r.path@ == self.path@,
            query_map(r.query.deep_view()) == spec_insert_all(
                query_map(self.query.deep_view()),
                pairs.deep_view(),
            ),
    {
        let mut r = self;
        let ghost m0 = query_map(r.query.deep_view());
        let mut i: usize = 0;
        while i < pairs.len()
            invariant
                0 <= i <= pairs.len(),
                r.wf(),
                r.method == self.method,
                r.path@ == self.path@,
                query_map(r.query.deep_view()) == spec_insert_all(
                    m0,
                    pairs.deep_view().take(i as int),
                ),
            decreases pairs.len() - i,
        {
            proof {
                assert(pairs.deep_view().take(i + 1).drop_last() =~= pairs.deep_view().take(
                    i as int,
                ));
                assert(pairs.deep_view().take(i + 1).last() == pairs.deep_view()[i as int]);
            }
            r.set_query(pairs[i].0.as_str(), pairs[i].1.as_str());
            i = i + 1;
        }
        proof {
            assert(pairs.deep_view().take(pairs.len() as int) =~= pairs.deep_view());
        }
        r
    }

    /// In-place assignment of one query parameter: replaces the entry
    /// carrying the key, or appends a new entry.
    fn set_query(&mut self, key: &str, value: &str)
        requires
            old(self).wf(),
        ensures
            final(self).wf(),
            final(self).method == old(self).method,
            final(self).path@ == old(self).path@,
            query_map(final(self).query.deep_view()) == query_map(
                old(self).query.deep_view(),
            ).insert(key@, value@),
    {
        let ghost q0 = self.query.deep_view();
        proof {
            assert(distinct_keys(q0));
        }
        let key_owned = key.to_owned();
        let mut i: usize = 0;
        while i < self.query.len()
            invariant
                0 <= i <= self.query.len(),
                *self == *old(self),
                key_owned@ == key@,
                distinct_keys(q0),
                forall|j: int| 0 <= j < i ==> q0[j].0 != key@,
                q0 == self.query.deep_view(),
            decreases self.query.len() - i,
        {
            if self.query[i].0 == key_owned {
                self.query[i] = (key_owned, value.to_owned());
                proof {
                    assert(self.query.deep_view() =~= q0.update(i as int, (key@, value@)));
                    lemma_query_map_update(q0, i as int, (key@, value@));
                    assert forall|a: int, b: int|
                        0 <= a < b < self.query.deep_view().len() implies self.query.deep_view()[a].0
                        != self.query.deep_view()[b].0 by {
                        assert(q0[a].0 != q0[b].0);
                    }
                }
                return ;
            }
            i = i + 1;
        }
        self.query.push((key_owned, value.to_owned()));
        proof {
            let q1 = self.query.deep_view();
            assert(q1.drop_last() =~= q0);
            assert(q1.last() == (key@, value@));
            assert forall|a: int, b: int| 0 <= a < b < q1.len() implies q1[a].0 != q1[b].0 by {
                if b < q1.len() - 1 {
                    assert(q0[a].0 != q0[b].0);
                } else {
                    assert(q0[a].0 != key@);
                }
            }
        }
    }
}

/// Inserting a sequence of pairs into a map, in order: the last
/// assignment to a key wins.
pub open spec fn spec_insert_all(
    m: Map<Seq<char>, Seq<char>>,
    pairs: Seq<(Seq<char>, Seq<char>)>,
) -> Map<Seq<char>, Seq<char>>
    decreases pairs.len(),
{
    if pairs.len() == 0 {
        m
    } else {
        spec_insert_all(m, pairs.drop_last()).insert(pairs.last().0, pairs.last().1)
    }
}

/// A fully-formed outbound request: everything the transport layer
/// needs, and nothing it decides. Built fresh per call.
#[derive(Debug, Clone)]
pub struct RequestDescriptor {
    /// The HTTP method.
    pub method: HttpMethod,
    /// The absolute URL: the path joined against the server's base
    /// address.
    pub url: String,
    /// The authentication header's name.
    pub header_name: String,
    /// The authentication header's value.
    pub header_value: String,
    /// The query parameters, in order; appended to the URL's query
    /// string by the transport layer.
    pub query: Vec<(String, String)>,
    /// The JSON body to send, already serialized; `None` for a
    /// body-less request.
    pub body: Option<String>,
}

impl PlatzRequest {
    /// Builds the outbound descriptor against the given credential
    /// record: joins the path onto the record's base address and
    /// attaches the record's header pair. Fails exactly when the path
    /// cannot be joined.
    pub fn build_descriptor(&self, config: &PlatzClientConfig) -> (r: Result<
        RequestDescriptor,
        PlatzClientError,
    >)
        ensures
            match r {
                Ok(d) => {
                    &&& url_joined(config.server_url@, self.path@) == Some(d.url@)
                    &&& d.method == self.method
                    &&& (d.header_name@, d.header_value@) == config.deep_view()
                        .authorization_header()
                    &&& d.query.deep_view() == self.query.deep_view()
                    &&& d.body is None
                },
                Err(e) => {
                    &&& url_joined(config.server_url@, self.path@) is None
                    &&& e == PlatzClientError::UrlJoinError
                },
            },
    {
        let url = match join_url(config.server_url.as_str(), self.path.as_str()) {
            Some(u) => u,
            None => {
                return Err(PlatzClientError::UrlJoinError);
            },
        };
        let header = match config.get_authorization() {
            Ok(h) => h,
            Err(e) => {
                return Err(e);
            },
        };
        Ok(
            RequestDescriptor {
                method: self.method,
                url,
                header_name: header.0,
                header_value: header.1,
                query: clone_pairs(&self.query),
                body: None,
            },
        )
    }

    /// Builds the same descriptor as `build_descriptor` but carrying
    /// the given serialized JSON body: the one request dispatched for
    /// it sends that body verbatim.
    pub fn build_descriptor_with_body(&self, config: &PlatzClientConfig, body: String) -> (r:
        Result<RequestDescriptor, PlatzClientError>)
        ensures
            match r {
                Ok(d) => {
                    &&& url_joined(config.server_url@, self.path@) == Some(d.url@)
                    &&& d.method == self.method
                    &&& (d.header_name@, d.header_value@) == config.deep_view()
                        .authorization_header()
                    &&& d.query.deep_view() == self.query.deep_view()
                    &&& d.body == Some(body)
                },
                Err(e) => {
                    &&& url_joined(config.server_url@, self.path@) is None
                    &&& e == PlatzClientError::UrlJoinError
                },
            },
    {
        let mut d = match self.build_descriptor(config) {
            Ok(d) => d,
            Err(e) => {
                return Err(e);
            },
        };
        d.body = Some(body);
        Ok(d)
    }
}

/// A copy of the query entries with the same text in each.
fn clone_pairs(v: &Vec<(String, String)>) -> (r: Vec<(String, String)>)
    ensures
        r.deep_view() == v.deep_view(),
{
    let mut r: Vec<(String, String)> = Vec::new();
    let mut i: usize = 0;
    while i < v.len()
        invariant
            0 <= i <= v.len(),
            r.deep_view() =~= v.deep_view().take(i as int),
        decreases v.len() - i,
    {
        let entry = (v[i].0.clone(), v[i].1.clone());
        proof {
            assert(entry.deep_view() == v.deep_view()[i as int]);
            assert(v.deep_view().take(i + 1) =~= v.deep_view().take(i as int).push(
                v.deep_view()[i as int],
            ));
        }
        r.push(entry);
        i = i + 1;
    }
    proof {
        assert(v.deep_view().take(v.len() as int) =~= v.deep_view());
    }
    r
}

/// The decimal digit character for a value below ten.
pub open spec fn spec_digit(d: nat) -> char
    recommends
        d < 10,
{
    ((48 + d) as u8) as char
}

/// The decimal digits of a non-negative integer, most significant
/// first.
pub open spec fn spec_dec_digits(n: nat) -> Seq<char>
    decreases n,
{
    if n < 10 {
        seq![spec_digit(n)]
    } else {
        spec_dec_digits(n / 10) + seq![spec_digit(n % 10)]
    }
}

/// The decimal text of an integer, with a leading minus sign when
/// negative.
pub open spec fn spec_dec_string(n: int) -> Seq<char> {
    if n < 0 {
        seq!['-'] + spec_dec_digits((-n) as nat)
    } else {
        spec_dec_digits(n as nat)
    }
}

/// The one-character text of a digit value.
fn digit_str(d: u8) -> (r: &'static str)
    requires
        d < 10,
    ensures
        r@ == seq![spec_digit(d as nat)],
{
    proof {
        reveal_strlit("0");
        reveal_strlit("1");
        reveal_strlit("2");
        reveal_strlit("3");
        reveal_strlit("4");
        reveal_strlit("5");
        reveal_strlit("6");
        reveal_strlit("7");
        reveal_strlit("8");
        reveal_strlit("9");
    }
    let r = match d {
        0 => "0",
        1 => "1",
        2 => "2",
        3 => "3",
        4 => "4",
        5 => "5",
        6 => "6",
        7 => "7",
        8 => "8",
        _ => "9",
    };
    proof {
        assert(r@ =~= seq![spec_digit(d as nat)]);
    }
    r
}

/// The characters of digit values collected least-significant first,
/// read back most-significant first.
spec fn rev_digit_chars(ds: Seq<u8>) -> Seq<char>
    decreases ds.len(),
{
    if ds.len() == 0 {
        Seq::empty()
    } else {
        seq![spec_digit(ds.last() as nat)] + rev_digit_chars(ds.drop_last())
    }
}

proof fn lemma_rev_digit_chars_first(ds: Seq<u8>)
    requires
        ds.len() > 0,
    ensures
        rev_digit_chars(ds) == rev_digit_chars(ds.drop_first()) + seq![
            spec_digit(ds.first() as nat),
        ],
    decreases ds.len(),
{
    if ds.len() == 1 {
        assert(ds.drop_first() =~= Seq::<u8>::empty());
        assert(ds.drop_last() =~= Seq::<u8>::empty());
        assert(rev_digit_chars(Seq::<u8>::empty()) =~= Seq::<char>::empty());
        assert(ds.first() == ds.last());
        assert(rev_digit_chars(ds) =~= rev_digit_chars(ds.drop_first()) + seq![
            spec_digit(ds.first() as nat),
        ]);
    } else {
        let head = seq![spec_digit(ds.first() as nat)];
        let msb = seq![spec_digit(ds.last() as nat)];
        lemma_rev_digit_chars_first(ds.drop_last());
        assert(ds.drop_last().drop_first() =~= ds.drop_first().drop_last());
        assert(ds.drop_last().first() == ds.first());
        assert(ds.drop_first().last() == ds.last());
        // peel the most significant digit on both sides
        assert(rev_digit_chars(ds) == msb + rev_digit_chars(ds.drop_last()));
        assert(rev_digit_chars(ds.drop_last()) == rev_digit_chars(ds.drop_first().drop_last())
            + head);
        assert(rev_digit_chars(ds.drop_first()) == msb + rev_digit_chars(
            ds.drop_first().drop_last(),
        ));
        assert(msb + (rev_digit_chars(ds.drop_first().drop_last()) + head) =~= (msb
            + rev_digit_chars(ds.drop_first().drop_last())) + head);
    }
}

/// The decimal text of a number, written digit by digit.
fn i64_to_string(n: i64) -> (r: String)
    ensures
        r@ == spec_dec_string(n as int),
{
    let mut m: u64 = if n < 0 {
        (-(n as i128)) as u64
    } else {
        n as u64
    };
    let ghost mag: nat = m as nat;
    let mut digits: Vec<u8> = Vec::new();
    while m >= 10
        invariant
            spec_dec_digits(mag) == spec_dec_digits(m as nat) + rev_digit_chars(digits@),
            forall|i: int| 0 <= i < digits@.len() ==> digits@[i] < 10,
        decreases m,
    {
        let ghost before = digits@;
        digits.push((m % 10) as u8);
        proof {
            assert(digits@.drop_last() =~= before);
            assert(spec_dec_digits(m as nat) == spec_dec_digits((m as nat) / 10) + seq![
                spec_digit((m as nat) % 10),
            ]);
            assert(rev_digit_chars(digits@) =~= seq![spec_digit((m as nat) % 10)]
                + rev_digit_chars(before));
            assert(spec_dec_digits((m as nat) / 10) + (seq![spec_digit((m as nat) % 10)]
                + rev_digit_chars(before)) =~= (spec_dec_digits((m as nat) / 10) + seq![
                spec_digit((m as nat) % 10),
            ]) + rev_digit_chars(before));
        }
        m = m / 10;
    }
    let ghost before = digits@;
    digits.push(m as u8);
    proof {
        assert(digits@.drop_last() =~= before);
        assert(spec_dec_digits(m as nat) == seq![spec_digit(m as nat)]);
        assert(rev_digit_chars(digits@) =~= seq![spec_digit(m as nat)] + rev_digit_chars(before));
        assert(spec_dec_digits(mag) =~= rev_digit_chars(digits@));
    }
    let ghost prefix: Seq<char> = if n < 0 {
        seq!['-']
    } else {
        Seq::empty()
    };
    let mut s = if n < 0 {
        String::from_str("-")
    } else {
        String::new()
    };
    proof {
        reveal_strlit("-");
        assert(s@ =~= prefix);
    }
    let mut j: usize = digits.len();
    while j > 0
        invariant
            j <= digits.len(),
            spec_dec_digits(mag) == rev_digit_chars(digits@),
            forall|i: int| 0 <= i < digits@.len() ==> digits@[i] < 10,
            s@ == prefix + rev_digit_chars(digits@.skip(j as int)),
        decreases j,
    {
        proof {
            let rest = digits@.skip(j - 1);
            assert(rest.first() == digits@[j - 1]);
            assert(rest.drop_first() =~= digits@.skip(j as int));
            lemma_rev_digit_chars_first(rest);
        }
        s.append(digit_str(digits[j - 1]));
        j = j - 1;
    }
    proof {
        assert(digits@.skip(0) =~= digits@);
        assert(s@ =~= spec_dec_string(n as int));
    }
    s
}

/// The query pairs a page fetch appends after the caller's own
/// filters: the page number, and the page size when one is forced.
pub open spec fn spec_paging_pairs(page_index: int, page_size: Option<int>) -> Seq<
    (Seq<char>, Seq<char>),
> {
    seq![("page"@, spec_dec_string(page_index))] + match page_size {
        Some(s) => seq![("page_size"@, spec_dec_string(s))],
        None => Seq::empty(),
    }
}

impl PlatzRequest {
    /// Builds the descriptor for one page fetch: the caller's request
    /// with the page number — and the page size, when one is forced —
    /// appended to the query. Appended pairs override the caller's
    /// own on the wire, so a later page always wins.
    pub fn page_descriptor(
        &self,
        config: &PlatzClientConfig,
        page_index: i64,
        page_size: Option<i64>,
    ) -> (r: Result<RequestDescriptor, PlatzClientError>)
        ensures
            match r {
                Ok(d) => {
                    &&& url_joined(config.server_url@, self.path@) == Some(d.url@)
                    &&& d.method == self.method
                    &&& (d.header_name@, d.header_value@) == config.deep_view()
                        .authorization_header()
                    &&& d.query.deep_view() == self.query.deep_view() + spec_paging_pairs(
                        page_index as int,
                        match page_size {
                            Some(s) => Some(s as int),
                            None => None,
                        },
                    )
                    &&& d.body is None
                },
                Err(e) => {
                    &&& url_joined(config.server_url@, self.path@) is None
                    &&& e == PlatzClientError::UrlJoinError
                },
            },
    {
        let mut d = match self.build_descriptor(config) {
            Ok(d) => d,
            Err(e) => {
                return Err(e);
            },
        };
        let ghost q0 = d.query.deep_view();
        d.query.push(("page".to_owned(), i64_to_string(page_index)));
        proof {
            assert(d.query.deep_view() =~= q0.push(("page"@, spec_dec_string(page_index as int))));
        }
        match page_size {
            Some(s) => {
                let ghost q1 = d.query.deep_view();
                d.query.push(("page_size".to_owned(), i64_to_string(s)));
                proof {
                    assert(d.query.deep_view() =~= q1.push(
                        ("page_size"@, spec_dec_string(s as int)),
                    ));
                    assert(d.query.deep_view() =~= self.query.deep_view() + spec_paging_pairs(
                        page_index as int,
                        Some(s as int),
                    ));
                }
            },
            None => {
                proof {
                    assert(d.query.deep_view() =~= self.query.deep_view() + spec_paging_pairs(
                        page_index as int,
                        None,
                    ));
                }
            },
        }
        Ok(d)
    }
}

/// Classifies one HTTP outcome: a success status yields the body for
/// parsing, any other status is a structured failure carrying the
/// status code and the best-effort body text (empty when the body
/// could not be read). Exactly the statuses 200 through 299 succeed.
pub fn classify_status(status: u16, body_text: Option<String>) -> (r: Result<
    (),
    PlatzClientError,
>)
    ensures
        200 <= status < 300 <==> r is Ok,
        !(200 <= status < 300) ==> (r matches Err(e) && e.deep_view() == ErrorView::HttpError(
            status as int,
            match body_text {
                Some(b) => b@,
                None => Seq::<char>::empty(),
            },
        )),
{
    if 200 <= status && status < 300 {
        Ok(())
    } else {
        match body_text {
            Some(b) => Err(PlatzClientError::HttpError(status, b)),
            None => Err(PlatzClientError::HttpError(status, String::new())),
        }
    }
}

} // verus!
