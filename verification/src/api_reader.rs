//! Resolving names against the ranking service.
//!
//! One name is resolved in two steps: a *search* call turns the free-text
//! name into an index into the global ranked list, then a *rankings* call
//! fetches the single row at that index. Every failure along the way —
//! a URL that does not build, a transport error (handed in as an absent
//! body), or a body that does not decode — collapses to the same outcome
//! for that one name: no match, never an error that would disturb the rest
//! of the batch.
//!
//! The network itself lives outside this crate. [`Lookup`] is the batch
//! driver as a state machine: [`Lookup::step`] says which URL to fetch
//! next, the caller performs the fetch and hands the decoded JSON body (or
//! its absence) to [`Lookup::on_response`], and [`Lookup::results`] returns
//! one entry per input name, in input order.

use vstd::prelude::*;

use crate::json::JsonValue;
use crate::json::lookup;
use crate::json::spec_lookup;
use crate::powerlifter::Powerlifter;
use crate::powerlifter::row_well_typed;
use crate::powerlifter::spec_row_record;
use vstd::string::StrSliceExecFns;

use crate::url_builder::QUERY_LEN_LIMIT;
use crate::url_builder::UrlError;
use crate::url_builder::build_url_with_params;
use crate::url_builder::lemma_dec_len_u64;
use crate::url_builder::lemma_dec_safe;
use crate::url_builder::lemma_query_safe_concat;
use crate::url_builder::params_view;
use crate::url_builder::query_safe;
use crate::url_builder::query_upto;
use crate::url_builder::rankings_endpoint;
use crate::url_builder::search_endpoint;
use crate::url_builder::spec_dec;
use crate::url_builder::spec_pair;
use crate::url_builder::spec_proxy;
use crate::url_builder::spec_query;
use crate::url_builder::spec_rankings_endpoint;
use crate::url_builder::spec_search_endpoint;
use crate::url_builder::spec_url_parses;
use crate::url_builder::u64_to_dec;
use crate::url_builder::url_with_query;

verus! {

/// The longest name the driver attempts to look up, in characters: a
/// machine limit that keeps the search query below [`QUERY_LEN_LIMIT`],
/// and with it the composed address below the `url` crate's 4 GiB
/// ceiling. A longer name is not an error: its lookup degrades to an
/// absent record, like any other failed step.
pub const NAME_LEN_LIMIT: usize = 0xB00_0000;

/// The index a search response body decodes to: `Some` exactly when the
/// body is a JSON object whose `next_index` field is an unsigned integer.
pub open spec fn spec_next_index(body: JsonValue) -> Option<u64> {
    if body is Obj {
        match spec_lookup(body->Obj_0@, "next_index"@) {
            Some(v) => if v is UInt {
                Some(v->UInt_0)
            } else {
                None
            },
            None => None,
        }
    } else {
        None
    }
}

/// Decode a search response body.
pub fn decode_next_index(body: &JsonValue) -> (r: Option<u64>)
    ensures
        r == spec_next_index(*body),
{
    match body {
        JsonValue::Obj(fields) => match lookup(fields, "next_index") {
            Some(JsonValue::UInt(n)) => Some(*n),
            _ => None,
        },
        _ => None,
    }
}

/// Whether an object's `total_length` field is present and an unsigned
/// integer.
pub open spec fn spec_total_ok(fields: Seq<(String, JsonValue)>) -> bool {
    match spec_lookup(fields, "total_length"@) {
        Some(t) => t is UInt,
        None => false,
    }
}

/// The row list of a rankings response object, if its `rows` field is
/// present and an array.
pub open spec fn spec_rows(fields: Seq<(String, JsonValue)>) -> Option<Seq<JsonValue>> {
    match spec_lookup(fields, "rows"@) {
        Some(r) => if r is Arr {
            Some(r->Arr_0@)
        } else {
            None
        },
        None => None,
    }
}

/// Every row of the list is an array that matches the record schema.
pub open spec fn rows_well_typed(rows: Seq<JsonValue>) -> bool {
    forall|i: int|
        0 <= i < rows.len() ==> (#[trigger] rows[i]) is Arr && row_well_typed(rows[i]->Arr_0@)
}

/// Whether a rankings response body matches its schema: a JSON object with
/// an integer `total_length` and an array `rows` whose every element is a
/// well-typed positional row.
pub open spec fn page_well_formed(body: JsonValue) -> bool {
    &&& body is Obj
    &&& spec_total_ok(body->Obj_0@)
    &&& spec_rows(body->Obj_0@) is Some
    &&& rows_well_typed(spec_rows(body->Obj_0@)->Some_0)
}

/// The record a rankings response body decodes to: the first row's record
/// when the body matches the schema and has at least one row, absent when
/// the row list is empty, and absent when anything about the body — the
/// object itself, either field, or any single row — does not match.
pub open spec fn spec_page_record(body: JsonValue) -> Option<Powerlifter> {
    if page_well_formed(body) {
        let rows = spec_rows(body->Obj_0@)->Some_0;
        if rows.len() == 0 {
            None
        } else {
            spec_row_record(rows[0]->Arr_0@)
        }
    } else {
        None
    }
}

/// Decode a rankings response body into at most one record.
pub fn decode_record_page(body: &JsonValue) -> (r: Option<Powerlifter>)
    ensures
        r == spec_page_record(*body),
{
    let fields = match body {
        JsonValue::Obj(fields) => fields,
        _ => {
            return None;
        },
    };
    match lookup(fields, "total_length") {
        Some(JsonValue::UInt(_)) => {},
        _ => {
            return None;
        },
    }
    let rows = match lookup(fields, "rows") {
        Some(JsonValue::Arr(rows)) => rows,
        _ => {
            return None;
        },
    };
    let mut first: Option<Powerlifter> = None;
    let mut i: usize = 0;
    while i < rows.len()
        invariant
            0 <= i <= rows@.len(),
            (*body) is Obj,
            body->Obj_0@ == fields@,
            spec_total_ok(fields@),
            spec_rows(fields@) == Some(rows@),
            forall|j: int|
                0 <= j < i ==> (#[trigger] rows@[j]) is Arr && row_well_typed(rows@[j]->Arr_0@),
            i > 0 ==> first == spec_row_record(rows@[0]->Arr_0@),
            i == 0 ==> first is None,
        decreases rows@.len() - i,
    {
        let cells = match &rows[i] {
            JsonValue::Arr(cells) => cells,
            _ => {
                proof {
                    assert(!((rows@[i as int]) is Arr));
                    assert(!rows_well_typed(rows@));
                }
                return None;
            },
        };
        match Powerlifter::from_row(cells) {
            Some(p) => {
                if i == 0 {
                    first = Some(p);
                }
            },
            None => {
                proof {
                    assert(!row_well_typed(rows@[i as int]->Arr_0@));
                    assert(!rows_well_typed(rows@));
                }
                return None;
            },
        }
        i = i + 1;
    }
    first
}

/// The query string of a search request for `name`.
pub open spec fn spec_index_query(name: Seq<char>) -> Seq<char> {
    spec_query(seq![("q"@, name), ("start"@, "0"@)])
}

/// Build the search URL for one name: parameters `q=<name>` and `start=0`,
/// routed through the relay prefix. The bound on the name is a machine
/// limit; see [`NAME_LEN_LIMIT`]. When the name needs no percent-escaping,
/// the URL begins with the relay prefix and ends with `?` and exactly the
/// search query.
pub fn index_url(name: &str) -> (r: Result<String, UrlError>)
    requires
        name@.len() <= NAME_LEN_LIMIT,
    ensures
        r is Ok <==> spec_url_parses(spec_proxy() + spec_search_endpoint()),
        r matches Ok(s) ==> s@ == url_with_query(
            spec_proxy() + spec_search_endpoint(),
            spec_index_query(name@),
        ),
        r matches Ok(s) ==> (query_safe(spec_index_query(name@)) ==> spec_proxy().is_prefix_of(s@)
            && (seq!['?'] + spec_index_query(name@)).is_suffix_of(s@)),
{
    let mut parameters: Vec<(String, String)> = Vec::new();
    parameters.push(("q".to_owned(), name.to_owned()));
    parameters.push(("start".to_owned(), "0".to_owned()));
    proof {
        reveal_strlit("https://www.openpowerlifting.org/api/search/rankings");
        reveal_strlit("q");
        reveal_strlit("start");
        reveal_strlit("0");
        assert(params_view(parameters@) =~= seq![("q"@, name@), ("start"@, "0"@)]);
        let ps = seq![("q"@, name@), ("start"@, "0"@)];
        assert(query_upto(ps, 2) == query_upto(ps, 1) + seq!['&'] + spec_pair(ps[1]));
        assert(query_upto(ps, 1) == spec_pair(ps[0]));
        assert(spec_query(ps).len() == name@.len() + 10);
    }
    build_url_with_params(search_endpoint(), &parameters)
}

/// The query string of a rankings request for the single row at `index`:
/// a one-row window with the fixed locale and unit parameters.
pub open spec fn spec_record_query(index: u64) -> Seq<char> {
    spec_query(
        seq![
            ("start"@, spec_dec(index as nat)),
            ("end"@, spec_dec(index as nat)),
            ("lang"@, "fr"@),
            ("units"@, "kg"@),
        ],
    )
}

/// Build the rankings URL for the single row at `index`. Its query is
/// digits and fixed words alone, so on success the URL always begins with
/// the relay prefix and ends with `?` and exactly the rankings query.
pub fn record_url(index: u64) -> (r: Result<String, UrlError>)
    ensures
        r is Ok <==> spec_url_parses(spec_proxy() + spec_rankings_endpoint()),
        r matches Ok(s) ==> s@ == url_with_query(
            spec_proxy() + spec_rankings_endpoint(),
            spec_record_query(index),
        ),
        r matches Ok(s) ==> spec_proxy().is_prefix_of(s@) && (seq!['?'] + spec_record_query(
            index,
        )).is_suffix_of(s@),
{
    let digits = u64_to_dec(index);
    let mut parameters: Vec<(String, String)> = Vec::new();
    parameters.push(("start".to_owned(), digits.clone()));
    parameters.push(("end".to_owned(), digits));
    parameters.push(("lang".to_owned(), "fr".to_owned()));
    parameters.push(("units".to_owned(), "kg".to_owned()));
    proof {
        reveal_strlit("https://www.openpowerlifting.org/api/rankings");
        reveal_strlit("start");
        reveal_strlit("end");
        reveal_strlit("lang");
        reveal_strlit("fr");
        reveal_strlit("units");
        reveal_strlit("kg");
        assert(params_view(parameters@) =~= seq![
            ("start"@, spec_dec(index as nat)),
            ("end"@, spec_dec(index as nat)),
            ("lang"@, "fr"@),
            ("units"@, "kg"@),
        ]);
        lemma_dec_len_u64(index);
        let ps = seq![
            ("start"@, spec_dec(index as nat)),
            ("end"@, spec_dec(index as nat)),
            ("lang"@, "fr"@),
            ("units"@, "kg"@),
        ];
        assert(query_upto(ps, 4) == query_upto(ps, 3) + seq!['&'] + spec_pair(ps[3]));
        assert(query_upto(ps, 3) == query_upto(ps, 2) + seq!['&'] + spec_pair(ps[2]));
        assert(query_upto(ps, 2) == query_upto(ps, 1) + seq!['&'] + spec_pair(ps[1]));
        assert(query_upto(ps, 1) == spec_pair(ps[0]));
        assert(spec_query(ps).len() <= 68);
        lemma_dec_safe(index as nat);
        assert(query_safe("start"@));
        assert(query_safe("end"@));
        assert(query_safe("lang"@));
        assert(query_safe("fr"@));
        assert(query_safe("units"@));
        assert(query_safe("kg"@));
        assert(query_safe(seq!['=']));
        assert(query_safe(seq!['&']));
        lemma_query_safe_concat("start"@, seq!['=']);
        lemma_query_safe_concat("start"@ + seq!['='], spec_dec(index as nat));
        lemma_query_safe_concat("end"@, seq!['=']);
        lemma_query_safe_concat("end"@ + seq!['='], spec_dec(index as nat));
        lemma_query_safe_concat("lang"@, seq!['=']);
        lemma_query_safe_concat("lang"@ + seq!['='], "fr"@);
        lemma_query_safe_concat("units"@, seq!['=']);
        lemma_query_safe_concat("units"@ + seq!['='], "kg"@);
        lemma_query_safe_concat(spec_pair(ps[0]), seq!['&']);
        lemma_query_safe_concat(spec_pair(ps[0]) + seq!['&'], spec_pair(ps[1]));
        lemma_query_safe_concat(query_upto(ps, 2), seq!['&']);
        lemma_query_safe_concat(query_upto(ps, 2) + seq!['&'], spec_pair(ps[2]));
        lemma_query_safe_concat(query_upto(ps, 3), seq!['&']);
        lemma_query_safe_concat(query_upto(ps, 3) + seq!['&'], spec_pair(ps[3]));
        assert(query_safe(spec_record_query(index)));
    }
    build_url_with_params(rankings_endpoint(), &parameters)
}

/// Where a lookup stands within the current name's two-step protocol.
#[derive(Debug, Clone, Copy)]
pub enum Phase {
    /// No request is outstanding; the next step starts the next name.
    Ready,
    /// A search request is outstanding.
    AwaitIndex,
    /// The search step resolved this index; the rankings request for it has
    /// not been issued yet.
    Resolved(u64),
    /// A rankings request is outstanding.
    AwaitRecord,
}

/// What the driver asks its caller to do next.
#[derive(Debug)]
pub enum Action {
    /// Perform an HTTP GET for this URL and hand the decoded JSON body (or
    /// `None` on any transport or parse failure) to [`Lookup::on_response`].
    Fetch(String),
    /// Nothing to fetch this time; call [`Lookup::step`] again.
    Next,
    /// Every name has its result; call [`Lookup::results`].
    Done,
}

/// The ordered batch driver: resolves many names, one result slot per
/// input name, in input order, each name's failures collapsing to an
/// absent record for that slot alone.
pub struct Lookup {
    /// The input names, in the order their results are owed.
    pub names: Vec<String>,
    /// One result per already-finished name, in input order.
    pub results: Vec<(String, Option<Powerlifter>)>,
    /// Where the current name's resolution stands.
    pub phase: Phase,
}

impl Lookup {
    /// The driver's invariant: never more results than names, an unfinished
    /// name whenever a request is outstanding or an index is in hand, and
    /// every finished slot paired with its own input name.
    pub open spec fn wf(self) -> bool {
        &&& self.results@.len() <= self.names@.len()
        &&& !(self.phase is Ready) ==> self.results@.len() < self.names@.len()
        &&& forall|i: int|
            0 <= i < self.results@.len() ==> (#[trigger] self.results@[i]).0 == self.names@[i]
    }

    /// Every name has its result.
    pub open spec fn done(self) -> bool {
        self.phase is Ready && self.results@.len() == self.names@.len()
    }

    /// A request is outstanding: the driver waits for [`Lookup::on_response`].
    pub open spec fn awaiting(self) -> bool {
        self.phase is AwaitIndex || self.phase is AwaitRecord
    }

    /// The position of the name being resolved.
    pub open spec fn current(self) -> int {
        self.results@.len() as int
    }

    /// Start a batch lookup over `names`.
    pub fn new(names: Vec<String>) -> (lk: Lookup)
        ensures
            lk.wf(),
            lk.names == names,
            lk.results@ == Seq::<(String, Option<Powerlifter>)>::empty(),
            lk.phase is Ready,
    {
        Lookup { names, results: Vec::new(), phase: Phase::Ready }
    }

    /// Advance to the next request.
    ///
    /// Returns the URL to fetch for the current name's next step, `Next`
    /// when no URL was issued — the name is longer than the machine limit
    /// [`NAME_LEN_LIMIT`], or the step's URL could not be built — and that
    /// name's slot is then already filled with an absent record, or `Done`
    /// when every name is finished.
    pub fn step(&mut self) -> (a: Action)
        requires
            old(self).wf(),
            !old(self).awaiting(),
        ensures
            final(self).wf(),
            final(self).names == old(self).names,
            match a {
                Action::Done => *final(self) == *old(self) && old(self).done(),
                Action::Fetch(u) => ({
                    &&& !old(self).done()
                    &&& final(self).results == old(self).results
                    &&& (old(self).phase is Ready ==> final(self).phase is AwaitIndex && old(
                        self,
                    ).names@[old(self).current()]@.len() <= NAME_LEN_LIMIT && u@ == url_with_query(
                        spec_proxy() + spec_search_endpoint(),
                        spec_index_query(old(self).names@[old(self).current()]@),
                    ))
                    &&& (old(self).phase is Resolved ==> final(self).phase is AwaitRecord && u@
                        == url_with_query(
                        spec_proxy() + spec_rankings_endpoint(),
                        spec_record_query(old(self).phase->Resolved_0),
                    ))
                }),
                Action::Next => ({
                    &&& !old(self).done()
                    &&& final(self).phase is Ready
                    &&& final(self).results@ == old(self).results@.push(
                        (old(self).names@[old(self).current()], None),
                    )
                    &&& (old(self).phase is Ready ==> old(self).names@[old(self).current()]@.len()
                        > NAME_LEN_LIMIT || !spec_url_parses(
                        spec_proxy() + spec_search_endpoint(),
                    ))
                    &&& (old(self).phase is Resolved ==> !spec_url_parses(
                        spec_proxy() + spec_rankings_endpoint(),
                    ))
                }),
            },
    {
        if self.results.len() == self.names.len() {
            return Action::Done;
        }
        let i = self.results.len();
        match self.phase {
            Phase::Ready => {
                if self.names[i].as_str().unicode_len() > NAME_LEN_LIMIT {
                    let nm = self.names[i].clone();
                    self.results.push((nm, None));
                    Action::Next
                } else {
                    match index_url(self.names[i].as_str()) {
                        Ok(u) => {
                            self.phase = Phase::AwaitIndex;
                            Action::Fetch(u)
                        },
                        Err(_) => {
                            let nm = self.names[i].clone();
                            self.results.push((nm, None));
                            Action::Next
                        },
                    }
                }
            },
            Phase::Resolved(idx) => {
                match record_url(idx) {
                    Ok(u) => {
                        self.phase = Phase::AwaitRecord;
                        Action::Fetch(u)
                    },
                    Err(_) => {
                        self.phase = Phase::Ready;
                        let nm = self.names[i].clone();
                        self.results.push((nm, None));
                        Action::Next
                    },
                }
            },
            Phase::AwaitIndex => {
                proof {
                    assert(false);
                }
                Action::Done
            },
            Phase::AwaitRecord => {
                proof {
                    assert(false);
                }
                Action::Done
            },
        }
    }

    /// Take in the outcome of the fetch that [`Lookup::step`] asked for:
    /// the decoded JSON body, or `None` for any transport or parse failure.
    ///
    /// After a search response, a decodable index moves the current name to
    /// its rankings step; anything else fills the name's slot with an
    /// absent record. After a rankings response, the current name's slot is
    /// filled with whatever the body decodes to — absent on any failure or
    /// an empty row list — and the driver moves to the next name.
    pub fn on_response(&mut self, body: Option<JsonValue>)
        requires
            old(self).wf(),
            old(self).awaiting(),
        ensures
            final(self).wf(),
            final(self).names == old(self).names,
            !final(self).awaiting(),
            old(self).phase is AwaitIndex ==> (match (match body {
                Some(b) => spec_next_index(b),
                None => None,
            }) {
                Some(n) => final(self).phase == Phase::Resolved(n) && final(self).results == old(
                    self,
                ).results,
                None => final(self).phase is Ready && final(self).results@ == old(
                    self,
                ).results@.push((old(self).names@[old(self).current()], None)),
            }),
            old(self).phase is AwaitRecord ==> final(self).phase is Ready && final(self).results@
                == old(self).results@.push(
                (
                    old(self).names@[old(self).current()],
                    match body {
                        Some(b) => spec_page_record(b),
                        None => None,
                    },
                ),
            ),
    {
        let i = self.results.len();
        match self.phase {
            Phase::AwaitIndex => {
                let idx = match &body {
                    Some(b) => decode_next_index(b),
                    None => None,
                };
                match idx {
                    Some(n) => {
                        self.phase = Phase::Resolved(n);
                    },
                    None => {
                        self.phase = Phase::Ready;
                        let nm = self.names[i].clone();
                        self.results.push((nm, None));
                    },
                }
            },
            Phase::AwaitRecord => {
                let rec = match &body {
                    Some(b) => decode_record_page(b),
                    None => None,
                };
                self.phase = Phase::Ready;
                let nm = self.names[i].clone();
                self.results.push((nm, rec));
            },
            _ => {
                proof {
                    assert(false);
                }
            },
        }
    }

    /// Hand the batch's results out: one entry per finished name, in input
    /// order.
    pub fn results(self) -> (r: Vec<(String, Option<Powerlifter>)>)
        ensures
            r == self.results,
    {
        self.results
    }
}

/// Batch results mirror the inputs: a finished lookup holds exactly one
/// result per input name, and result slot `i` carries input name `i`,
/// duplicates included.
pub proof fn lemma_results_mirror_names(lk: Lookup)
    requires
        lk.wf(),
        lk.done(),
    ensures
        lk.results@.len() == lk.names@.len(),
        forall|i: int| 0 <= i < lk.results@.len() ==> (#[trigger] lk.results@[i]).0 == lk.names@[i],
{
}

} // verus!

