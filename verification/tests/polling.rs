use azure_mgmt::error::SimpleError;
use azure_mgmt::http::Method;
use azure_mgmt::http::Response;
use azure_mgmt::http::ResponseHeader;
use azure_mgmt::management::poll_location;
use azure_mgmt::management::AsyncTask;
use azure_mgmt::management::PollStep;
use azure_mgmt::management::ACCEPTED;
use azure_mgmt::management::POLL_INTERVAL_SECS;
use azure_mgmt::time::Span;
use azure_mgmt::time::Timestamp;

const URI: &str = "https://example.com/op";

fn response(status: u16, body: &str) -> Response {
    Response {
        status,
        headers: Vec::new(),
        body: body.to_owned(),
    }
}

fn millis(n: u32) -> Span {
    Span::new(0, n * 1_000_000).unwrap()
}

/// The point in time `ms` milliseconds after the tasks of these tests are made.
fn after_ms(ms: u32) -> Timestamp {
    Timestamp::new(1_000 + i64::from(ms / 1_000), (ms % 1_000) * 1_000_000).unwrap()
}

fn task() -> AsyncTask {
    AsyncTask::new(URI, after_ms(0)).unwrap()
}

/// Runs a wait against an endpoint that answers with `statuses`, one poll
/// after the other; the first poll is made `delay_ms` after the task was
/// made, and each sleep lets `interval_ms` pass. Hands back the result and
/// the numbers of polls and sleeps.
fn run(
    mut task: AsyncTask,
    statuses: &[u16],
    delay_ms: u32,
    interval_ms: u32,
) -> (Result<Response, SimpleError>, usize, usize) {
    let mut polls = 0;
    let mut sleeps = 0;
    let mut elapsed_ms = delay_ms;
    loop {
        let request = task.poll_request();
        assert_eq!(request.method, Method::Get);
        assert_eq!(request.uri, task.uri());
        let status = statuses[polls];
        polls += 1;
        let body = format!("poll {}", polls);
        match task.step(Ok(response(status, &body)), &after_ms(elapsed_ms)) {
            PollStep::Done(result) => return (result, polls, sleeps),
            PollStep::Sleep(next) => {
                sleeps += 1;
                elapsed_ms += interval_ms;
                task = next;
            }
        }
    }
}

#[test]
fn the_sentinel_is_202_and_the_interval_three_seconds() {
    assert_eq!(ACCEPTED, 202);
    assert_eq!(POLL_INTERVAL_SECS, 3);
}

#[test]
fn a_task_needs_a_uri() {
    assert!(matches!(
        AsyncTask::new("not a uri", after_ms(0)),
        Err(SimpleError::InvalidUri)
    ));
    assert!(matches!(
        AsyncTask::new("", after_ms(0)),
        Err(SimpleError::InvalidUri)
    ));
    let task = AsyncTask::new(
        "https://management.azure.com/operations/1?api-version=1",
        after_ms(7),
    )
    .unwrap();
    assert_eq!(task.uri(), "https://management.azure.com/operations/1?api-version=1");
    assert_eq!(task.created().secs(), 1_000);
    assert_eq!(task.created().subsec_nanos(), 7_000_000);
}

#[test]
fn poll_request_is_a_get_with_an_empty_body() {
    let request = task().poll_request();
    assert_eq!(request.method, Method::Get);
    assert_eq!(request.uri, URI);
    assert!(request.headers.is_empty());
    assert_eq!(request.body, Some(Vec::new()));
}

#[test]
fn accepted_twice_then_ok_sleeps_twice_and_never_polls_a_fourth_time() {
    let (result, polls, sleeps) = run(task(), &[202, 202, 200], 0, 1);
    let last = result.unwrap();
    assert_eq!(last.status, 200);
    assert_eq!(last.body, "poll 3");
    assert_eq!(sleeps, 2);
    assert_eq!(polls, 3);
}

#[test]
fn always_accepted_with_a_timeout_of_5ms_ends_in_timeout() {
    let statuses = [202; 50];
    let (result, polls, sleeps) = run(task().timeout(Some(millis(5))), &statuses, 0, 1);
    assert!(matches!(result, Err(SimpleError::Timeout)));
    assert_eq!(polls, 7);
    assert_eq!(sleeps, 6);
}

#[test]
fn the_timeout_counts_from_when_the_task_was_made() {
    let statuses = [202; 50];
    let (result, polls, sleeps) = run(task().timeout(Some(millis(5))), &statuses, 6, 1);
    assert!(matches!(result, Err(SimpleError::Timeout)));
    assert_eq!(polls, 1);
    assert_eq!(sleeps, 0);
    let (result, polls, sleeps) = run(task().timeout(Some(millis(5))), &statuses, 3, 1);
    assert!(matches!(result, Err(SimpleError::Timeout)));
    assert_eq!(polls, 4);
    assert_eq!(sleeps, 3);
}

#[test]
fn elapsed_equal_to_the_timeout_is_not_yet_a_timeout() {
    let make = || task().timeout(Some(millis(5)));
    assert!(matches!(
        make().step(Ok(response(202, "")), &after_ms(5)),
        PollStep::Sleep(_)
    ));
    assert!(matches!(
        make().step(
            Ok(response(202, "")),
            &Timestamp::new(1_000, 5_000_001).unwrap()
        ),
        PollStep::Done(Err(SimpleError::Timeout))
    ));
}

#[test]
fn a_clock_that_went_back_does_not_time_out() {
    let limited = task().timeout(Some(millis(0)));
    assert!(matches!(
        limited.step(Ok(response(202, "")), &Timestamp::new(999, 0).unwrap()),
        PollStep::Sleep(_)
    ));
}

#[test]
fn times_far_apart_are_told_apart() {
    let early = AsyncTask::new(URI, Timestamp::new(i64::MIN, 0).unwrap())
        .unwrap()
        .timeout(Some(Span::new(u64::MAX, 999_999_998).unwrap()));
    assert!(matches!(
        early.step(
            Ok(response(202, "")),
            &Timestamp::new(i64::MAX, 999_999_998).unwrap()
        ),
        PollStep::Sleep(_)
    ));
    let early = AsyncTask::new(URI, Timestamp::new(i64::MIN, 0).unwrap())
        .unwrap()
        .timeout(Some(Span::new(u64::MAX, 999_999_998).unwrap()));
    assert!(matches!(
        early.step(
            Ok(response(202, "")),
            &Timestamp::new(i64::MAX, 999_999_999).unwrap()
        ),
        PollStep::Done(Err(SimpleError::Timeout))
    ));
}

#[test]
fn without_a_timeout_the_wait_goes_on() {
    let far = Timestamp::new(i64::MAX, 999_999_999).unwrap();
    assert!(matches!(
        task().step(Ok(response(202, "")), &far),
        PollStep::Sleep(_)
    ));
    let cleared = task().timeout(Some(millis(1))).timeout(None);
    assert!(matches!(
        cleared.step(Ok(response(202, "")), &far),
        PollStep::Sleep(_)
    ));
}

#[test]
fn a_final_answer_wins_over_the_timeout() {
    let limited = task().timeout(Some(millis(5)));
    match limited.step(Ok(response(200, "done")), &after_ms(100_000)) {
        PollStep::Done(Ok(r)) => {
            assert_eq!(r.status, 200);
            assert_eq!(r.body, "done");
        }
        other => panic!("unexpected: {:?}", other),
    }
}

#[test]
fn any_status_but_202_ends_the_wait_unchanged() {
    for status in [200u16, 201, 204, 301, 404, 500] {
        match task().step(Ok(response(status, "b")), &after_ms(0)) {
            PollStep::Done(Ok(r)) => {
                assert_eq!(r.status, status);
                assert_eq!(r.body, "b");
            }
            other => panic!("unexpected: {:?}", other),
        }
    }
}

#[test]
fn a_failed_poll_ends_the_wait_with_its_error() {
    let failure = SimpleError::HttpStatus {
        status: 409,
        body: "conflict".to_owned(),
    };
    match task().step(Err(failure), &after_ms(0)) {
        PollStep::Done(Err(SimpleError::HttpStatus { status, body })) => {
            assert_eq!(status, 409);
            assert_eq!(body, "conflict");
        }
        other => panic!("unexpected: {:?}", other),
    }
}

#[test]
fn location_header_gives_the_address_to_poll() {
    let mut r = response(202, "");
    r.headers.push(ResponseHeader {
        name: "location".to_owned(),
        value: b"https://management.azure.com/op/42".to_vec(),
    });
    let task = poll_location(&r, after_ms(250)).unwrap();
    assert_eq!(task.uri(), "https://management.azure.com/op/42");
    assert_eq!(task.created().secs(), 1_000);
    assert_eq!(task.created().subsec_nanos(), 250_000_000);
    assert!(matches!(
        task.step(Ok(response(202, "")), &after_ms(4_000_000)),
        PollStep::Sleep(_)
    ));
}

#[test]
fn location_header_can_fail_in_three_ways() {
    assert!(matches!(
        poll_location(&response(202, ""), after_ms(0)),
        Err(SimpleError::MissingLocation)
    ));
    let mut binary = response(202, "");
    binary.headers.push(ResponseHeader {
        name: "Location".to_owned(),
        value: vec![b'h', 0xff],
    });
    assert!(matches!(
        poll_location(&binary, after_ms(0)),
        Err(SimpleError::ToStrError)
    ));
    let mut spaced = response(202, "");
    spaced.headers.push(ResponseHeader {
        name: "Location".to_owned(),
        value: b"not a uri".to_vec(),
    });
    assert!(matches!(
        poll_location(&spaced, after_ms(0)),
        Err(SimpleError::InvalidUri)
    ));
}

#[test]
fn failures_of_signing_and_of_transport_end_the_wait_as_they_are() {
    match task().step(Err(SimpleError::Signing("bad key".to_owned())), &after_ms(0)) {
        PollStep::Done(Err(SimpleError::Signing(why))) => assert_eq!(why, "bad key"),
        other => panic!("unexpected: {:?}", other),
    }
    let limited = task().timeout(Some(millis(1)));
    match limited.step(
        Err(SimpleError::Transport("connection reset".to_owned())),
        &after_ms(9_000),
    ) {
        PollStep::Done(Err(SimpleError::Transport(why))) => assert_eq!(why, "connection reset"),
        other => panic!("unexpected: {:?}", other),
    }
}
