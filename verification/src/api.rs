//! Station lookup over an ordered list of directory mirrors.
//!
//! The lookup performs no network access itself. It is a protocol that the
//! caller drives: [`search_stations`] either finishes at once or yields a
//! [`MirrorSearch`]; the caller sends [`MirrorSearch::request`], reports what
//! came back to [`MirrorSearch::resume`], and repeats until the step is
//! [`SearchStep::Done`]. Mirrors are asked one at a time, in list order; the
//! first usable record list ends the lookup, and a lookup that exhausts the
//! list fails with the error of the mirror asked last.

pub use crate::station::{ApiStation, Station};
use crate::station::{normalize_all, normalized_all, ApiStationView, StationView};
use crate::text::{decimal, decimal_text, is_blank, str_is_blank};
use vstd::prelude::*;

verus! {

/// Number of mirrors in the fixed list.
pub const MIRROR_COUNT: usize = 7;

/// Seconds a single mirror is given to answer.
pub const ATTEMPT_TIMEOUT_SECS: u64 = 5;

/// Base endpoint of the mirror at `index` in the fixed list.
pub open spec fn mirror_base(index: int) -> Seq<char> {
    if index == 0 {
        "https://all.api.radio-browser.info"@
    } else if index == 1 {
        "https://de1.api.radio-browser.info"@
    } else if index == 2 {
        "https://fr1.api.radio-browser.info"@
    } else if index == 3 {
        "https://at1.api.radio-browser.info"@
    } else if index == 4 {
        "https://nl1.api.radio-browser.info"@
    } else if index == 5 {
        "https://us1.api.radio-browser.info"@
    } else {
        "https://es1.api.radio-browser.info"@
    }
}

/// Base endpoint of the mirror at `index`.
fn mirror(index: usize) -> (base: &'static str)
    requires
        index < MIRROR_COUNT,
    ensures
        base@ == mirror_base(index as int),
{
    if index == 0 {
        "https://all.api.radio-browser.info"
    } else if index == 1 {
        "https://de1.api.radio-browser.info"
    } else if index == 2 {
        "https://fr1.api.radio-browser.info"
    } else if index == 3 {
        "https://at1.api.radio-browser.info"
    } else if index == 4 {
        "https://nl1.api.radio-browser.info"
    } else if index == 5 {
        "https://us1.api.radio-browser.info"
    } else {
        "https://es1.api.radio-browser.info"
    }
}

/// One GET request to one mirror.
#[derive(Debug)]
pub struct MirrorRequest {
    /// Endpoint, without the query string.
    pub url: String,
    /// Query parameters, in the order they are to be appended.
    pub params: Vec<(String, String)>,
    /// Upper bound on the whole attempt, in seconds.
    pub timeout_secs: u64,
}

/// Mathematical value of a [`MirrorRequest`].
pub struct MirrorRequestView {
    pub url: Seq<char>,
    pub params: Seq<(Seq<char>, Seq<char>)>,
    pub timeout_secs: u64,
}

impl View for MirrorRequest {
    type V = MirrorRequestView;

    open spec fn view(&self) -> MirrorRequestView {
        MirrorRequestView {
            url: self.url@,
            params: self.params.deep_view(),
            timeout_secs: self.timeout_secs,
        }
    }
}

/// The request that asks mirror `attempt` for stations matching `query`.
pub open spec fn request_for(query: Seq<char>, attempt: int) -> MirrorRequestView {
    MirrorRequestView {
        url: mirror_base(attempt) + "/json/stations/search"@,
        params: seq![("name"@, query), ("limit"@, "20"@)],
        timeout_secs: ATTEMPT_TIMEOUT_SECS,
    }
}

/// Why one mirror did not yield a record list.
#[derive(Debug)]
pub enum FetchError {
    /// No response was obtained: name lookup, connection, TLS or timeout.
    Network { message: String },
    /// The mirror answered with a status outside 200..=299.
    Http { status: u16 },
    /// The body of a successful response is not a list of station records.
    Decode { message: String },
}

/// Mathematical value of a [`FetchError`].
pub enum FetchErrorView {
    Network { message: Seq<char> },
    Http { status: u16 },
    Decode { message: Seq<char> },
}

impl View for FetchError {
    type V = FetchErrorView;

    open spec fn view(&self) -> FetchErrorView {
        match self {
            FetchError::Network { message } => FetchErrorView::Network { message: message@ },
            FetchError::Http { status } => FetchErrorView::Http { status: *status },
            FetchError::Decode { message } => FetchErrorView::Decode { message: message@ },
        }
    }
}

/// Text of the description of an error.
pub open spec fn error_text(error: FetchErrorView) -> Seq<char> {
    match error {
        FetchErrorView::Network { message } => "mirror unreachable: "@ + message,
        FetchErrorView::Http { status } => "mirror answered with HTTP status "@ + decimal(
            status as nat,
        ),
        FetchErrorView::Decode { message } => "mirror sent an unreadable record list: "@ + message,
    }
}

impl FetchError {
    /// Human-readable description of the error.
    pub fn describe(&self) -> (text: String)
        ensures
            text@ == error_text(self@),
    {
        match self {
            FetchError::Network { message } => {
                let mut text = String::from_str("mirror unreachable: ");
                text.append(message.as_str());
                text
            },
            FetchError::Http { status } => {
                let mut text = String::from_str("mirror answered with HTTP status ");
                let code = decimal_text(*status as u64);
                text.append(code.as_str());
                text
            },
            FetchError::Decode { message } => {
                let mut text = String::from_str("mirror sent an unreadable record list: ");
                text.append(message.as_str());
                text
            },
        }
    }
}

/// What came of sending one [`MirrorRequest`].
#[derive(Debug)]
pub enum MirrorReply {
    /// The request produced no HTTP response.
    Unreachable { message: String },
    /// A response arrived. `body` is the record list decoded from it, or the
    /// decoder's complaint.
    Response { status: u16, body: Result<Vec<ApiStation>, String> },
}

/// Mathematical value of a [`MirrorReply`].
pub enum MirrorReplyView {
    Unreachable { message: Seq<char> },
    Response { status: u16, body: Result<Seq<ApiStationView>, Seq<char>> },
}

impl View for MirrorReply {
    type V = MirrorReplyView;

    open spec fn view(&self) -> MirrorReplyView {
        match self {
            MirrorReply::Unreachable { message } => MirrorReplyView::Unreachable {
                message: message@,
            },
            MirrorReply::Response { status, body } => MirrorReplyView::Response {
                status: *status,
                body: match body {
                    Ok(records) => Ok(records.deep_view()),
                    Err(message) => Err(message@),
                },
            },
        }
    }
}

/// Whether `status` reports success.
pub open spec fn is_success_status(status: u16) -> bool {
    200 <= status <= 299
}

/// What one reply amounts to: the record list of a successful, decodable
/// response, or the failure that is charged to the mirror.
pub open spec fn settle(reply: MirrorReplyView) -> Result<Seq<ApiStationView>, FetchErrorView> {
    match reply {
        MirrorReplyView::Unreachable { message } => Err(FetchErrorView::Network { message }),
        MirrorReplyView::Response { status, body } => {
            if !is_success_status(status) {
                Err(FetchErrorView::Http { status })
            } else {
                match body {
                    Ok(records) => Ok(records),
                    Err(message) => Err(FetchErrorView::Decode { message }),
                }
            }
        },
    }
}

/// Mathematical value of a `Result` over record lists and errors.
pub open spec fn settled_view(settled: Result<Vec<ApiStation>, FetchError>) -> Result<
    Seq<ApiStationView>,
    FetchErrorView,
> {
    match settled {
        Ok(records) => Ok(records.deep_view()),
        Err(error) => Err(error@),
    }
}

/// Decides [`settle`] for one reply.
pub fn settle_reply(reply: MirrorReply) -> (settled: Result<Vec<ApiStation>, FetchError>)
    ensures
        settled_view(settled) == settle(reply@),
{
    match reply {
        MirrorReply::Unreachable { message } => Err(FetchError::Network { message }),
        MirrorReply::Response { status, body } => {
            if !(200 <= status && status <= 299) {
                Err(FetchError::Http { status })
            } else {
                match body {
                    Ok(records) => Ok(records),
                    Err(message) => Err(FetchError::Decode { message }),
                }
            }
        },
    }
}

/// A lookup that is waiting for the reply of one mirror.
#[derive(Debug)]
pub struct MirrorSearch {
    query: String,
    attempt: usize,
}

/// Mathematical value of a [`MirrorSearch`].
pub struct MirrorSearchView {
    /// The search term, as the caller gave it.
    pub query: Seq<char>,
    /// Index of the mirror whose reply is awaited.
    pub attempt: nat,
}

impl View for MirrorSearch {
    type V = MirrorSearchView;

    closed spec fn view(&self) -> MirrorSearchView {
        MirrorSearchView { query: self.query@, attempt: self.attempt as nat }
    }
}

/// Where a lookup stands.
#[derive(Debug)]
pub enum SearchStep {
    /// A mirror has to be asked: send the search's request and resume it with
    /// the reply.
    Ask(MirrorSearch),
    /// The lookup is over, with the stations found or the error of the mirror
    /// asked last.
    Done(Result<Vec<Station>, FetchError>),
}

/// Mathematical value of a [`SearchStep`].
pub enum SearchStepView {
    Ask(MirrorSearchView),
    Done(Result<Seq<StationView>, FetchErrorView>),
}

impl View for SearchStep {
    type V = SearchStepView;

    open spec fn view(&self) -> SearchStepView {
        match self {
            SearchStep::Ask(search) => SearchStepView::Ask(search@),
            SearchStep::Done(Ok(stations)) => SearchStepView::Done(Ok(stations.deep_view())),
            SearchStep::Done(Err(error)) => SearchStepView::Done(Err(error@)),
        }
    }
}

/// First step of a lookup: a blank query is answered with no stations and no
/// mirror is asked; any other query goes to the first mirror.
pub open spec fn begin(query: Seq<char>) -> SearchStepView {
    if is_blank(query) {
        SearchStepView::Done(Ok(Seq::empty()))
    } else {
        SearchStepView::Ask(MirrorSearchView { query, attempt: 0 })
    }
}

/// Step that follows `reply` to the request of `search`: a record list ends
/// the lookup with its stations; a failure moves on to the next mirror, or,
/// at the end of the list, ends the lookup with that failure.
pub open spec fn advance(search: MirrorSearchView, reply: MirrorReplyView) -> SearchStepView {
    match settle(reply) {
        Ok(records) => SearchStepView::Done(Ok(normalized_all(records))),
        Err(error) => {
            if search.attempt + 1 < MIRROR_COUNT {
                SearchStepView::Ask(
                    MirrorSearchView { query: search.query, attempt: search.attempt + 1 },
                )
            } else {
                SearchStepView::Done(Err(error))
            }
        },
    }
}

/// Starts a lookup of the stations whose name matches `query`.
pub fn search_stations(query: String) -> (step: SearchStep)
    ensures
        step@ == begin(query@),
{
    if str_is_blank(query.as_str()) {
        let found: Vec<Station> = Vec::new();
        assert(found.deep_view() =~= Seq::<StationView>::empty());
        SearchStep::Done(Ok(found))
    } else {
        SearchStep::Ask(MirrorSearch { query, attempt: 0 })
    }
}

impl MirrorSearch {
    #[verifier::type_invariant]
    spec fn in_list(self) -> bool {
        self.attempt < MIRROR_COUNT
    }

    /// Index in the mirror list of the mirror whose reply is awaited.
    pub fn attempt(&self) -> (index: usize)
        ensures
            index == self@.attempt,
            index < MIRROR_COUNT,
    {
        proof {
            use_type_invariant(self);
        }
        self.attempt
    }

    /// The search term.
    pub fn query(&self) -> (query: &str)
        ensures
            query@ == self@.query,
    {
        self.query.as_str()
    }

    /// The request to send to the mirror whose turn it is.
    pub fn request(&self) -> (request: MirrorRequest)
        ensures
            request@ == request_for(self@.query, self@.attempt as int),
    {
        proof {
            use_type_invariant(self);
        }
        let mut url = String::from_str(mirror(self.attempt));
        url.append("/json/stations/search");
        let mut params: Vec<(String, String)> = Vec::new();
        params.push((String::from_str("name"), self.query.clone()));
        params.push((String::from_str("limit"), String::from_str("20")));
        assert(params.deep_view() =~= seq![("name"@, self@.query), ("limit"@, "20"@)]);
        MirrorRequest { url, params, timeout_secs: ATTEMPT_TIMEOUT_SECS }
    }

    /// Takes the reply to [`MirrorSearch::request`] and says what comes
    /// next.
    pub fn resume(self, reply: MirrorReply) -> (step: SearchStep)
        ensures
            step@ == advance(self@, reply@),
    {
        proof {
            use_type_invariant(&self);
        }
        match settle_reply(reply) {
            Ok(records) => SearchStep::Done(Ok(normalize_all(records))),
            Err(error) => {
                if self.attempt + 1 < MIRROR_COUNT {
                    SearchStep::Ask(MirrorSearch { query: self.query, attempt: self.attempt + 1 })
                } else {
                    SearchStep::Done(Err(error))
                }
            },
        }
    }
}

/// A complete lookup as seen from outside: the requests that were sent, in
/// order, and what the lookup returned.
pub struct SearchRun {
    pub asked: Seq<MirrorRequestView>,
    pub result: Result<Seq<StationView>, FetchErrorView>,
}

/// The rest of a lookup from `search` on, where `answers(i)` is what comes
/// of a request to mirror `i`.
pub open spec fn run_from(search: MirrorSearchView, answers: spec_fn(int) -> MirrorReplyView)
    -> SearchRun
    decreases MIRROR_COUNT - search.attempt,
{
    let request = request_for(search.query, search.attempt as int);
    match advance(search, answers(search.attempt as int)) {
        SearchStepView::Done(result) => SearchRun { asked: seq![request], result },
        SearchStepView::Ask(next) => {
            let rest = run_from(next, answers);
            SearchRun { asked: seq![request] + rest.asked, result: rest.result }
        },
    }
}

/// The whole lookup of `query`, where `answers(i)` is what comes of a
/// request to mirror `i`.
pub open spec fn run(query: Seq<char>, answers: spec_fn(int) -> MirrorReplyView) -> SearchRun {
    match begin(query) {
        SearchStepView::Done(result) => SearchRun { asked: Seq::empty(), result },
        SearchStepView::Ask(search) => run_from(search, answers),
    }
}

/// From any point of a lookup on: if mirror `k` is the first from there to
/// give a record list, the mirrors from the current one through `k` are asked
/// and no other, and the lookup returns the stations of mirror `k`.
pub proof fn lemma_run_reaches_first_valid(
    search: MirrorSearchView,
    answers: spec_fn(int) -> MirrorReplyView,
    k: int,
)
    requires
        search.attempt <= k < MIRROR_COUNT,
        settle(answers(k)) is Ok,
        forall|j: int| search.attempt <= j < k ==> settle(#[trigger] answers(j)) is Err,
    ensures
        run_from(search, answers).asked.len() == k - search.attempt + 1,
        forall|i: int|
            0 <= i <= k - search.attempt ==> #[trigger] run_from(search, answers).asked[i]
                == request_for(search.query, search.attempt + i),
        run_from(search, answers).result == Ok::<Seq<StationView>, FetchErrorView>(
            normalized_all(settle(answers(k))->Ok_0),
        ),
    decreases k - search.attempt,
{
    if search.attempt < k {
        let next = MirrorSearchView { query: search.query, attempt: search.attempt + 1 };
        lemma_run_reaches_first_valid(next, answers, k);
    }
}

/// From any point of a lookup on: if every remaining mirror fails, every
/// remaining mirror is asked and the lookup returns the failure of the last
/// mirror in the list.
pub proof fn lemma_run_exhausts_list(
    search: MirrorSearchView,
    answers: spec_fn(int) -> MirrorReplyView,
)
    requires
        search.attempt < MIRROR_COUNT,
        forall|j: int| search.attempt <= j < MIRROR_COUNT ==> settle(#[trigger] answers(j)) is Err,
    ensures
        run_from(search, answers).asked.len() == MIRROR_COUNT - search.attempt,
        forall|i: int|
            0 <= i < MIRROR_COUNT - search.attempt ==> #[trigger] run_from(search, answers).asked[i]
                == request_for(search.query, search.attempt + i),
        run_from(search, answers).result == Err::<Seq<StationView>, FetchErrorView>(
            settle(answers(MIRROR_COUNT - 1))->Err_0,
        ),
    decreases MIRROR_COUNT - search.attempt,
{
    if search.attempt + 1 < MIRROR_COUNT {
        let next = MirrorSearchView { query: search.query, attempt: search.attempt + 1 };
        lemma_run_exhausts_list(next, answers);
    }
}

/// A blank query is answered with the empty list and no mirror is asked,
/// whatever the mirrors would have said.
pub proof fn law_blank_query_asks_no_mirror(
    query: Seq<char>,
    answers: spec_fn(int) -> MirrorReplyView,
)
    requires
        is_blank(query),
    ensures
        run(query, answers).asked.len() == 0,
        run(query, answers).result == Ok::<Seq<StationView>, FetchErrorView>(Seq::empty()),
{
}

/// If mirror `k` (counted from 1, in list order) is the first to give a
/// record list, exactly the first `k` mirrors are asked, in list order, and
/// the lookup returns that list, normalized: no mirror after `k` is asked.
pub proof fn law_first_valid_mirror_ends_lookup(
    query: Seq<char>,
    answers: spec_fn(int) -> MirrorReplyView,
    k: int,
)
    requires
        !is_blank(query),
        1 <= k <= MIRROR_COUNT,
        settle(answers(k - 1)) is Ok,
        forall|j: int| 0 <= j < k - 1 ==> settle(#[trigger] answers(j)) is Err,
    ensures
        run(query, answers).asked.len() == k,
        forall|i: int|
            0 <= i < k ==> #[trigger] run(query, answers).asked[i] == request_for(query, i),
        run(query, answers).result == Ok::<Seq<StationView>, FetchErrorView>(
            normalized_all(settle(answers(k - 1))->Ok_0),
        ),
{
    lemma_run_reaches_first_valid(MirrorSearchView { query, attempt: 0 }, answers, k - 1);
}

/// If every mirror fails, every mirror is asked once, in list order, and the
/// lookup returns the failure of the last mirror: an error, never stations.
pub proof fn law_total_failure_returns_last_error(
    query: Seq<char>,
    answers: spec_fn(int) -> MirrorReplyView,
)
    requires
        !is_blank(query),
        forall|j: int| 0 <= j < MIRROR_COUNT ==> settle(#[trigger] answers(j)) is Err,
    ensures
        run(query, answers).asked.len() == MIRROR_COUNT,
        forall|i: int|
            0 <= i < MIRROR_COUNT ==> #[trigger] run(query, answers).asked[i] == request_for(
                query,
                i,
            ),
        run(query, answers).result == Err::<Seq<StationView>, FetchErrorView>(
            settle(answers(MIRROR_COUNT - 1))->Err_0,
        ),
{
    lemma_run_exhausts_list(MirrorSearchView { query, attempt: 0 }, answers);
}

} // verus!
