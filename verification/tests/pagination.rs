use uprs::api_endpoints::{ListAccounts, ListTags, RetrieveAccount};
use uprs::links::Links;
use uprs::replay::{replay, replay_resource, Recorded};
use uprs::request_sender::{
    ApiRequest, Fetch, PageWalk, Progress, Reply, RequestSender, SendError,
};
use uprs::types::ApiResponse;

/// What a scripted server sends for one request: the reply, and what the
/// decoder makes of its body.
struct Scripted {
    reply: Reply,
    decoded: Result<ApiResponse<Vec<u32>>, String>,
}

fn page(items: Vec<u32>, links: Option<Vec<(&str, Option<&str>)>>) -> Scripted {
    let links = links.map(|entries| {
        let mut links = Links::new();
        for (name, target) in entries {
            links.insert(name.to_string(), target.map(|url| url.to_string()));
        }
        links
    });
    Scripted {
        reply: Reply::Answered { status: 200, body: format!("{:?}", items) },
        decoded: Ok(ApiResponse { data: items, links }),
    }
}

fn refused(status: u16, body: &str) -> Scripted {
    Scripted {
        reply: Reply::Answered { status, body: body.to_string() },
        decoded: Err("not asked for".to_string()),
    }
}

/// Runs a collection fetch against the script, and returns the requests that
/// were issued together with the result. Panics where the fetch asks for more
/// than the script holds.
fn run(
    started: (PageWalk<u32>, Fetch),
    script: Vec<Scripted>,
) -> (Vec<Fetch>, Result<Vec<u32>, SendError>) {
    let (mut walk, mut fetch) = started;
    let mut issued = Vec::new();
    let mut script = script.into_iter();
    loop {
        issued.push(fetch.clone());
        let scripted = script.next().expect("the fetch asked for a page that was not scripted");
        let pending = match walk.on_reply(scripted.reply) {
            Ok(pending) => pending,
            Err(error) => return (issued, Err(error)),
        };
        match pending.on_decoded(scripted.decoded) {
            Ok(Progress::Next(onward, next)) => {
                walk = onward;
                fetch = next;
            }
            Ok(Progress::Complete(items)) => return (issued, Ok(items)),
            Err(error) => return (issued, Err(error)),
        }
    }
}

fn accounts(token: &str) -> ListAccounts {
    ListAccounts::with_base_url("http://mock.test", &token.to_string())
}

/// Opens a collection fetch whose items are plain numbers.
fn start(request: ListAccounts) -> (PageWalk<u32>, Fetch) {
    RequestSender::send_paginate::<u32, ListAccounts>(request)
}

#[test]
fn three_pages_are_delivered_in_order_with_three_requests() {
    let script = vec![
        page(vec![1, 2], Some(vec![("prev", None), ("next", Some("http://mock.test/p2"))])),
        page(vec![3], Some(vec![("prev", Some("http://mock.test/p1")), ("next", Some("http://mock.test/p3"))])),
        page(vec![4, 5, 6], Some(vec![("prev", Some("http://mock.test/p2")), ("next", None)])),
    ];
    let (issued, result) = run(start(accounts("token")), script);
    assert_eq!(result, Ok(vec![1, 2, 3, 4, 5, 6]));
    assert_eq!(issued.len(), 3);
}

#[test]
fn a_last_page_without_links_ends_the_fetch() {
    let script = vec![
        page(vec![1, 2], Some(vec![("next", Some("http://mock.test/p2"))])),
        page(vec![3], Some(vec![("next", Some("http://mock.test/p3"))])),
        page(vec![4, 5, 6], None),
    ];
    let (issued, result) = run(start(accounts("token")), script);
    assert_eq!(result, Ok(vec![1, 2, 3, 4, 5, 6]));
    assert_eq!(issued.len(), 3);
}

#[test]
fn a_single_page_needs_one_request() {
    let (issued, result) = run(start(accounts("token")), vec![page(vec![9, 8], None)]);
    assert_eq!(result, Ok(vec![9, 8]));
    assert_eq!(issued.len(), 1);
}

#[test]
fn an_empty_page_in_the_middle_adds_nothing() {
    let script = vec![
        page(vec![1], Some(vec![("next", Some("http://mock.test/p2"))])),
        page(vec![], Some(vec![("next", Some("http://mock.test/p3"))])),
        page(vec![2], Some(vec![("next", None)])),
    ];
    let (issued, result) = run(start(accounts("token")), script);
    assert_eq!(result, Ok(vec![1, 2]));
    assert_eq!(issued.len(), 3);
}

#[test]
fn pages_after_the_last_are_never_asked_for() {
    let script = vec![
        page(vec![1], Some(vec![("next", None)])),
        page(vec![2], None),
    ];
    let (issued, result) = run(start(accounts("token")), script);
    assert_eq!(result, Ok(vec![1]));
    assert_eq!(issued.len(), 1);
}

#[test]
fn a_failure_on_page_two_of_three_fails_the_whole_fetch() {
    let script = vec![
        page(vec![1, 2], Some(vec![("next", Some("http://mock.test/p2"))])),
        refused(500, "{\"errors\":[{\"status\":\"500\"}]}"),
        page(vec![4, 5, 6], None),
    ];
    let (issued, result) = run(start(accounts("token")), script);
    assert_eq!(
        result,
        Err(SendError::ApiError { status: 500, body: "{\"errors\":[{\"status\":\"500\"}]}".to_string() })
    );
    assert_eq!(issued.len(), 2);
}

#[test]
fn a_transport_failure_on_a_later_page_fails_the_whole_fetch() {
    let script = vec![
        page(vec![1, 2], Some(vec![("next", Some("http://mock.test/p2"))])),
        Scripted {
            reply: Reply::Unreachable { cause: "connection reset".to_string() },
            decoded: Err("not asked for".to_string()),
        },
    ];
    let (issued, result) = run(start(accounts("token")), script);
    assert_eq!(result, Err(SendError::TransportError { cause: "connection reset".to_string() }));
    assert_eq!(issued.len(), 2);
}

#[test]
fn an_undecodable_later_page_fails_the_whole_fetch() {
    let script = vec![
        page(vec![1, 2], Some(vec![("next", Some("http://mock.test/p2"))])),
        Scripted {
            reply: Reply::Answered { status: 200, body: "<html>".to_string() },
            decoded: Err("expected value at line 1 column 1".to_string()),
        },
    ];
    let (issued, result) = run(start(accounts("token")), script);
    assert_eq!(
        result,
        Err(SendError::DecodeError {
            body: "<html>".to_string(),
            reason: "expected value at line 1 column 1".to_string()
        })
    );
    assert_eq!(issued.len(), 2);
}

#[test]
fn the_first_request_carries_the_parameters_and_the_follow_up_none() {
    let request = accounts("SECRET-REDACTED").page_size(1);
    let params = request.get_params().clone();
    let script = vec![
        page(vec![1], Some(vec![("prev", None), ("next", Some("http://mock.test/accounts?page%5Bafter%5D=abc&page%5Bsize%5D=1"))])),
        page(vec![2], Some(vec![("prev", Some("http://mock.test/accounts")), ("next", None)])),
    ];
    let (issued, result) = run(start(request), script);
    assert_eq!(result, Ok(vec![1, 2]));
    assert_eq!(issued.len(), 2);
    assert_eq!(issued[0].url, "http://mock.test/accounts");
    assert_eq!(issued[0].params, params);
    assert_eq!(issued[0].params, vec![("page[size]".to_string(), "1".to_string())]);
    assert_eq!(issued[1].url, "http://mock.test/accounts?page%5Bafter%5D=abc&page%5Bsize%5D=1");
    assert_eq!(issued[1].params, Vec::new());
}

#[test]
fn every_request_carries_the_same_credential() {
    let script = vec![
        page(vec![1], Some(vec![("next", Some("http://mock.test/p2"))])),
        page(vec![2], None),
    ];
    let (issued, _) = run(start(accounts("SECRET-REDACTED")), script);
    assert_eq!(issued.len(), 2);
    assert_eq!(issued[0].credential, "SECRET-REDACTED");
    assert_eq!(issued[1].credential, "SECRET-REDACTED");
    assert_eq!(issued[0].authorization(), "Bearer SECRET-REDACTED");
    assert_eq!(issued[1].authorization(), issued[0].authorization());
}

#[test]
fn status_bounds_of_success() {
    for status in [200u16, 201, 204, 299] {
        let (walk, _) = RequestSender::send_paginate::<u32, ListTags>(ListTags::new(&"t".to_string()));
        let replied = walk.on_reply(Reply::Answered { status, body: "b".to_string() });
        match replied {
            Ok(pending) => assert_eq!(pending.body(), "b"),
            Err(error) => panic!("status {} was refused: {:?}", status, error),
        }
    }
    for status in [0u16, 100, 199, 300, 301, 400, 404, 500, u16::MAX] {
        let (walk, _) = RequestSender::send_paginate::<u32, ListTags>(ListTags::new(&"t".to_string()));
        let replied = walk.on_reply(Reply::Answered { status, body: "b".to_string() });
        match replied {
            Ok(_) => panic!("status {} was accepted", status),
            Err(error) => assert_eq!(error, SendError::ApiError { status, body: "b".to_string() }),
        }
    }
}

fn retrieve(reply: Reply, decoded: Result<ApiResponse<u32>, String>) -> Result<u32, SendError> {
    let request = RetrieveAccount::with_base_url("http://mock.test", &"token".to_string(), "a1".to_string());
    let (resource, fetch) = request.send();
    assert_eq!(fetch.url, "http://mock.test/accounts/a1");
    assert_eq!(fetch.params, Vec::new());
    assert_eq!(fetch.credential, "token");
    let pending = resource.on_reply(reply)?;
    pending.on_decoded(decoded)
}

#[test]
fn a_single_resource_is_the_payload_of_the_envelope() {
    let reply = Reply::Answered { status: 200, body: "{\"data\":7}".to_string() };
    let result = retrieve(reply, Ok(ApiResponse { data: 7, links: None }));
    assert_eq!(result, Ok(7));
}

#[test]
fn a_single_resource_is_the_same_every_time_and_whatever_the_links() {
    let mut links = Links::new();
    links.insert("next".to_string(), Some("http://mock.test/elsewhere".to_string()));
    let with_links = retrieve(
        Reply::Answered { status: 200, body: "{\"data\":7}".to_string() },
        Ok(ApiResponse { data: 7, links: Some(links) }),
    );
    let without_links = retrieve(
        Reply::Answered { status: 200, body: "{\"data\":7}".to_string() },
        Ok(ApiResponse { data: 7, links: None }),
    );
    let again = retrieve(
        Reply::Answered { status: 200, body: "{\"data\":7}".to_string() },
        Ok(ApiResponse { data: 7, links: None }),
    );
    assert_eq!(with_links, Ok(7));
    assert_eq!(without_links, Ok(7));
    assert_eq!(again, without_links);
}

#[test]
fn a_single_resource_fails_with_each_kind_of_error() {
    let unreachable = retrieve(
        Reply::Unreachable { cause: "dns".to_string() },
        Ok(ApiResponse { data: 7, links: None }),
    );
    assert_eq!(unreachable, Err(SendError::TransportError { cause: "dns".to_string() }));
    let refused = retrieve(
        Reply::Answered { status: 404, body: "{\"errors\":[]}".to_string() },
        Ok(ApiResponse { data: 7, links: None }),
    );
    assert_eq!(refused, Err(SendError::ApiError { status: 404, body: "{\"errors\":[]}".to_string() }));
    let undecodable = retrieve(
        Reply::Answered { status: 200, body: "{}".to_string() },
        Err("missing field `data`".to_string()),
    );
    assert_eq!(
        undecodable,
        Err(SendError::DecodeError { body: "{}".to_string(), reason: "missing field `data`".to_string() })
    );
}

fn recorded(scripted: Vec<Scripted>) -> Vec<Recorded<u32>> {
    scripted
        .into_iter()
        .map(|scripted| Recorded { reply: scripted.reply, decoded: scripted.decoded })
        .collect()
}

#[test]
fn replay_of_three_pages() {
    let script = recorded(vec![
        page(vec![1, 2], Some(vec![("next", Some("http://mock.test/p2"))])),
        page(vec![3], Some(vec![("next", Some("http://mock.test/p3"))])),
        page(vec![4, 5, 6], Some(vec![("next", None)])),
    ]);
    let replayed = replay(start(accounts("token").page_size(2)), script);
    assert_eq!(replayed.result, Some(Ok(vec![1, 2, 3, 4, 5, 6])));
    assert_eq!(
        replayed.fetches,
        vec![
            Fetch {
                url: "http://mock.test/accounts".to_string(),
                params: vec![("page[size]".to_string(), "2".to_string())],
                credential: "token".to_string(),
            },
            Fetch {
                url: "http://mock.test/p2".to_string(),
                params: vec![],
                credential: "token".to_string(),
            },
            Fetch {
                url: "http://mock.test/p3".to_string(),
                params: vec![],
                credential: "token".to_string(),
            },
        ]
    );
}

#[test]
fn replay_stops_at_the_failure() {
    let script = recorded(vec![
        page(vec![1, 2], Some(vec![("next", Some("http://mock.test/p2"))])),
        refused(500, "down"),
        page(vec![4, 5, 6], None),
    ]);
    let replayed = replay(start(accounts("token")), script);
    assert_eq!(
        replayed.result,
        Some(Err(SendError::ApiError { status: 500, body: "down".to_string() }))
    );
    assert_eq!(replayed.fetches.len(), 2);
    assert_eq!(replayed.fetches[1].url, "http://mock.test/p2");
}

#[test]
fn replay_of_a_script_that_runs_out_has_no_result() {
    let script = recorded(vec![
        page(vec![1, 2], Some(vec![("next", Some("http://mock.test/p2"))])),
    ]);
    let replayed = replay(start(accounts("token")), script);
    assert_eq!(replayed.result, None);
    assert_eq!(replayed.fetches.len(), 2);
    let replayed = replay(start(accounts("token")), Vec::new());
    assert_eq!(replayed.result, None);
    assert_eq!(replayed.fetches.len(), 1);
    assert_eq!(replayed.fetches[0].url, "http://mock.test/accounts");
}

#[test]
fn replay_agrees_with_stepping_by_hand() {
    let pages = || {
        vec![
            page(vec![7], Some(vec![("next", Some("http://mock.test/p2"))])),
            page(vec![8, 9], Some(vec![("prev", None)])),
        ]
    };
    let (issued, result) = run(start(accounts("token")), pages());
    let replayed = replay(start(accounts("token")), recorded(pages()));
    assert_eq!(replayed.result, Some(result));
    assert_eq!(replayed.fetches, issued);
}

#[test]
fn replay_of_a_single_resource() {
    let request = || RetrieveAccount::with_base_url("http://mock.test", &"token".to_string(), "a1".to_string());
    let answered = |status: u16| Reply::Answered { status, body: "{\"data\":7}".to_string() };
    let mut links = Links::new();
    links.insert("next".to_string(), Some("http://mock.test/elsewhere".to_string()));
    assert_eq!(
        replay_resource(request().send(), answered(200), Ok(ApiResponse { data: 7u32, links: Some(links) })),
        Ok(7)
    );
    assert_eq!(
        replay_resource(request().send(), answered(200), Ok(ApiResponse { data: 7u32, links: None })),
        Ok(7)
    );
    assert_eq!(
        replay_resource(request().send(), answered(503), Ok(ApiResponse { data: 7u32, links: None })),
        Err(SendError::ApiError { status: 503, body: "{\"data\":7}".to_string() })
    );
    assert_eq!(
        replay_resource::<u32>(request().send(), answered(200), Err("no".to_string())),
        Err(SendError::DecodeError { body: "{\"data\":7}".to_string(), reason: "no".to_string() })
    );
    assert_eq!(
        replay_resource::<u32>(
            request().send(),
            Reply::Unreachable { cause: "timed out".to_string() },
            Err("no".to_string())
        ),
        Err(SendError::TransportError { cause: "timed out".to_string() })
    );
}
