use radio_core::api::{
    search_stations, settle_reply, ApiStation, FetchError, MirrorReply, MirrorRequest, MirrorSearch,
    SearchStep, Station, ATTEMPT_TIMEOUT_SECS, MIRROR_COUNT,
};

const MIRRORS: [&str; 7] = [
    "https://all.api.radio-browser.info",
    "https://de1.api.radio-browser.info",
    "https://fr1.api.radio-browser.info",
    "https://at1.api.radio-browser.info",
    "https://nl1.api.radio-browser.info",
    "https://us1.api.radio-browser.info",
    "https://es1.api.radio-browser.info",
];

fn named(name: &str) -> ApiStation {
    let mut record = ApiStation::default();
    record.name = Some(name.to_string());
    record
}

fn unreachable(message: &str) -> MirrorReply {
    MirrorReply::Unreachable { message: message.to_string() }
}

fn status(code: u16) -> MirrorReply {
    MirrorReply::Response { status: code, body: Ok(vec![named("ignored")]) }
}

fn records(list: Vec<ApiStation>) -> MirrorReply {
    MirrorReply::Response { status: 200, body: Ok(list) }
}

fn pending(step: SearchStep) -> MirrorSearch {
    match step {
        SearchStep::Ask(search) => search,
        SearchStep::Done(result) => panic!("the lookup ended early: {:?}", result),
    }
}

fn finished(step: SearchStep) -> Result<Vec<Station>, FetchError> {
    match step {
        SearchStep::Done(result) => result,
        SearchStep::Ask(search) => panic!("the lookup goes on: {:?}", search),
    }
}

fn check_request(request: &MirrorRequest, mirror: usize, query: &str) {
    assert_eq!(request.url, format!("{}/json/stations/search", MIRRORS[mirror]));
    assert_eq!(
        request.params,
        vec![
            ("name".to_string(), query.to_string()),
            ("limit".to_string(), "20".to_string()),
        ]
    );
    assert_eq!(request.timeout_secs, 5);
}

/// Plays the mirrors' part: answers the requests of a lookup from `replies`
/// in order and returns how many mirrors were asked and the result.
fn drive(query: &str, replies: Vec<MirrorReply>) -> (usize, Result<Vec<Station>, FetchError>) {
    let mut asked = 0;
    let mut step = search_stations(query.to_string());
    let mut replies = replies.into_iter();
    loop {
        match step {
            SearchStep::Done(result) => return (asked, result),
            SearchStep::Ask(search) => {
                assert_eq!(search.attempt(), asked);
                assert_eq!(search.query(), query);
                check_request(&search.request(), asked, query);
                asked += 1;
                let reply = replies.next().expect("a mirror was asked that has no reply");
                step = search.resume(reply);
            }
        }
    }
}

#[test]
fn constants_match_the_deployment() {
    assert_eq!(MIRROR_COUNT, 7);
    assert_eq!(ATTEMPT_TIMEOUT_SECS, 5);
}

#[test]
fn blank_queries_finish_without_asking() {
    for query in ["", " ", "   ", "\t", "\n \r\n", "\u{3000}\u{A0} "] {
        let (asked, result) = drive(query, Vec::new());
        assert_eq!(asked, 0, "{:?}", query);
        assert_eq!(result.unwrap(), Vec::new(), "{:?}", query);
    }
}

#[test]
fn a_query_with_text_goes_to_the_first_mirror_untrimmed() {
    let search = pending(search_stations(" jazz ".to_string()));
    assert_eq!(search.attempt(), 0);
    assert_eq!(search.query(), " jazz ");
    check_request(&search.request(), 0, " jazz ");
}

#[test]
fn the_first_mirror_answering_ends_the_lookup() {
    let (asked, result) = drive("jazz", vec![records(vec![named("Jazz FM"), named("Jazz 24")])]);
    assert_eq!(asked, 1);
    let stations = result.unwrap();
    assert_eq!(stations.len(), 2);
    assert_eq!(stations[0].name, "Jazz FM");
    assert_eq!(stations[1].name, "Jazz 24");
}

#[test]
fn an_empty_record_list_is_a_valid_answer() {
    let (asked, result) = drive("zzzz", vec![unreachable("dns"), records(Vec::new())]);
    assert_eq!(asked, 2);
    assert_eq!(result.unwrap(), Vec::new());
}

#[test]
fn mirror_k_answering_first_leaves_later_mirrors_alone() {
    for k in 1..=7 {
        let mut replies = Vec::new();
        for failed in 1..k {
            replies.push(match failed % 3 {
                0 => unreachable("connection refused"),
                1 => status(502),
                _ => MirrorReply::Response { status: 200, body: Err("expected value".to_string()) },
            });
        }
        replies.push(records(vec![named(&format!("from mirror {}", k))]));
        let (asked, result) = drive("rock", replies);
        assert_eq!(asked, k);
        let stations = result.unwrap();
        assert_eq!(stations.len(), 1);
        assert_eq!(stations[0].name, format!("from mirror {}", k));
    }
}

#[test]
fn two_dead_mirrors_then_a_list_with_gaps() {
    let mut complete = ApiStation::default();
    complete.stationuuid = Some("a1".to_string());
    complete.name = Some("Jazz FM".to_string());
    complete.url = Some("http://stream.example.org/a.m3u".to_string());
    complete.url_resolved = Some("http://stream.example.org/a".to_string());
    complete.homepage = Some("https://a.example.org".to_string());
    complete.favicon = Some("https://a.example.org/icon.png".to_string());
    complete.tags = Some("jazz".to_string());
    complete.country = Some("France".to_string());
    complete.language = Some("french".to_string());
    let mut gappy = ApiStation::default();
    gappy.stationuuid = Some("b2".to_string());
    gappy.name = Some("Smooth Jazz".to_string());
    gappy.url = Some("http://stream.example.org/b.m3u".to_string());
    gappy.url_resolved = Some("http://stream.example.org/b".to_string());
    gappy.homepage = Some("https://b.example.org".to_string());
    gappy.country = Some("Spain".to_string());
    gappy.language = Some("spanish".to_string());

    let first = pending(search_stations("jazz".to_string()));
    check_request(&first.request(), 0, "jazz");
    let second = pending(first.resume(unreachable("connection refused")));
    check_request(&second.request(), 1, "jazz");
    let third = pending(second.resume(unreachable("connection timed out")));
    check_request(&third.request(), 2, "jazz");
    let stations = finished(third.resume(records(vec![complete, gappy]))).unwrap();

    assert_eq!(stations.len(), 2);
    assert_eq!(stations[0].name, "Jazz FM");
    assert_eq!(stations[0].favicon, "https://a.example.org/icon.png");
    assert_eq!(stations[0].tags, "jazz");
    assert_eq!(stations[1].stationuuid, "b2");
    assert_eq!(stations[1].name, "Smooth Jazz");
    assert_eq!(stations[1].url, "http://stream.example.org/b.m3u");
    assert_eq!(stations[1].url_resolved, "http://stream.example.org/b");
    assert_eq!(stations[1].homepage, "https://b.example.org");
    assert_eq!(stations[1].favicon, "");
    assert_eq!(stations[1].tags, "");
    assert_eq!(stations[1].country, "Spain");
    assert_eq!(stations[1].language, "spanish");
}

#[test]
fn when_every_mirror_fails_the_last_error_is_returned() {
    let mut replies = Vec::new();
    for mirror in 0..6 {
        replies.push(unreachable(&format!("mirror {} down", mirror)));
    }
    replies.push(status(503));
    let (asked, result) = drive("jazz", replies);
    assert_eq!(asked, 7);
    match result {
        Err(FetchError::Http { status }) => assert_eq!(status, 503),
        other => panic!("unexpected result: {:?}", other),
    }

    let mut replies = Vec::new();
    for code in [500, 501, 502, 503, 504, 404] {
        replies.push(status(code));
    }
    replies.push(unreachable("mirror 6 down"));
    let (asked, result) = drive("jazz", replies);
    assert_eq!(asked, 7);
    match result {
        Err(FetchError::Network { message }) => assert_eq!(message, "mirror 6 down"),
        other => panic!("unexpected result: {:?}", other),
    }

    let mut replies = Vec::new();
    for _ in 0..6 {
        replies.push(unreachable("down"));
    }
    replies.push(MirrorReply::Response { status: 200, body: Err("EOF while parsing".to_string()) });
    let (asked, result) = drive("jazz", replies);
    assert_eq!(asked, 7);
    match result {
        Err(FetchError::Decode { message }) => assert_eq!(message, "EOF while parsing"),
        other => panic!("unexpected result: {:?}", other),
    }
}

#[test]
fn the_requests_walk_the_mirror_list_in_order() {
    let mut search = pending(search_stations("blues".to_string()));
    for mirror in 0..7 {
        assert_eq!(search.attempt(), mirror);
        check_request(&search.request(), mirror, "blues");
        let step = search.resume(status(500));
        if mirror < 6 {
            search = pending(step);
        } else {
            assert!(finished(step).is_err());
            break;
        }
    }
}

#[test]
fn only_statuses_200_to_299_count_as_success() {
    for code in [200, 201, 204, 299] {
        match settle_reply(status(code)) {
            Ok(list) => assert_eq!(list.len(), 1),
            Err(error) => panic!("status {} failed: {:?}", code, error),
        }
    }
    for code in [0, 100, 199, 300, 301, 304, 400, 404, 429, 500, 502, 599, 600, 65535] {
        match settle_reply(status(code)) {
            Err(FetchError::Http { status }) => assert_eq!(status, code),
            other => panic!("status {} gave {:?}", code, other),
        }
    }
}

#[test]
fn a_failed_status_outranks_the_body() {
    let reply = MirrorReply::Response { status: 500, body: Err("not json".to_string()) };
    assert!(matches!(settle_reply(reply), Err(FetchError::Http { status: 500 })));
}

#[test]
fn settle_reply_names_each_failure() {
    match settle_reply(unreachable("dns error")) {
        Err(FetchError::Network { message }) => assert_eq!(message, "dns error"),
        other => panic!("unexpected: {:?}", other),
    }
    match settle_reply(MirrorReply::Response { status: 200, body: Err("bad json".to_string()) }) {
        Err(FetchError::Decode { message }) => assert_eq!(message, "bad json"),
        other => panic!("unexpected: {:?}", other),
    }
    match settle_reply(records(vec![named("a"), named("b")])) {
        Ok(list) => {
            assert_eq!(list.len(), 2);
            assert_eq!(list[0].name.as_deref(), Some("a"));
            assert_eq!(list[1].name.as_deref(), Some("b"));
            assert_eq!(list[1].tags, None);
        }
        Err(error) => panic!("unexpected: {:?}", error),
    }
}

#[test]
fn errors_describe_themselves() {
    let network = FetchError::Network { message: "connection refused".to_string() };
    assert_eq!(network.describe(), "mirror unreachable: connection refused");
    let http = FetchError::Http { status: 404 };
    assert_eq!(http.describe(), "mirror answered with HTTP status 404");
    let http = FetchError::Http { status: 65535 };
    assert_eq!(http.describe(), "mirror answered with HTTP status 65535");
    let decode = FetchError::Decode { message: "expected `[`".to_string() };
    assert_eq!(decode.describe(), "mirror sent an unreadable record list: expected `[`");
}

#[test]
fn repeated_lookups_are_independent() {
    let (asked_a, a) = drive("jazz", vec![status(500), records(vec![named("one")])]);
    let (asked_b, b) = drive("jazz", vec![records(vec![named("two"), named("three")])]);
    assert_eq!(asked_a, 2);
    assert_eq!(asked_b, 1);
    assert_eq!(a.unwrap()[0].name, "one");
    assert_eq!(b.unwrap().len(), 2);
}
