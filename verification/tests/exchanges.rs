use wifi_http::exchange::{
    get, post, post_request, summarize, Exchange, RequestError, Stage, Step, BODY_LIMIT,
};
use wifi_http::request::Method;
use wifi_http::stream::report_for;
use wifi_http::wifi::{Credentials, LinkEvent, Session};

fn connected() -> Session {
    let mut session = Session::new(Credentials::new("TestNet", "secret"));
    session.advance(LinkEvent::Applied);
    session.advance(LinkEvent::Applied);
    session.advance(LinkEvent::Applied);
    session.advance(LinkEvent::Polled(true));
    session
}

fn answered_get(status: u16) -> Exchange {
    let mut exchange = get(&connected(), "http://ifconfig.net").unwrap();
    exchange.done();
    exchange.answered(status);
    exchange
}

#[test]
fn get_logs_status_and_short_body() {
    let mut exchange = get(&connected(), "http://ifconfig.net").unwrap();
    assert_eq!(exchange.request().method, Method::Get);
    assert_eq!(exchange.request().url, "http://ifconfig.net");
    assert_eq!(exchange.next_step(), Step::Open);
    assert_eq!(exchange.status(), None);
    exchange.done();
    assert_eq!(exchange.next_step(), Step::Submit);
    exchange.answered(200);
    assert_eq!(exchange.status(), Some(200));
    assert_eq!(exchange.next_step(), Step::Read { limit: 1024 });

    assert!(exchange.receive(b"1.2.3.4").is_none());
    assert_eq!(exchange.next_step(), Step::Read { limit: 1017 });
    let report = exchange.receive(b"").unwrap();
    assert_eq!(report.bytes_read, 7);
    assert_eq!(report.text.as_deref(), Some("1.2.3.4"));
    assert_eq!(exchange.captured(), b"1.2.3.4");

    assert_eq!(exchange.stage(), Stage::Draining);
    assert_eq!(exchange.next_step(), Step::Read { limit: 1024 });
    assert_eq!(exchange.outcome(), None);
    assert!(exchange.receive(b"").is_none());
    assert_eq!(exchange.stage(), Stage::Finished);
    assert_eq!(exchange.next_step(), Step::Stop);
    assert_eq!(exchange.outcome(), Some(Ok(())));
    assert_eq!(exchange.status(), Some(200));
}

#[test]
fn post_of_hello_world_runs_to_a_status() {
    let mut exchange = post_request(&connected()).unwrap();
    assert_eq!(exchange.request().method, Method::Post);
    assert_eq!(exchange.request().url, "http://example.org/");
    assert_eq!(exchange.request().payload, b"Hello world!".to_vec());
    assert_eq!(exchange.request().headers[3].name, "content-length");
    assert_eq!(exchange.request().headers[3].value, "12");

    assert_eq!(exchange.next_step(), Step::Open);
    exchange.done();
    assert_eq!(exchange.next_step(), Step::Write);
    exchange.done();
    assert_eq!(exchange.next_step(), Step::Flush);
    exchange.done();
    assert_eq!(exchange.next_step(), Step::Submit);
    exchange.done();
    assert_eq!(exchange.next_step(), Step::Submit);
    assert_eq!(exchange.status(), None);
    exchange.answered(404);
    assert_eq!(exchange.status(), Some(404));
    let report = exchange.receive(b"").unwrap();
    assert_eq!(report.bytes_read, 0);
    assert_eq!(report.text.as_deref(), Some(""));
    assert!(exchange.receive(b"").is_none());
    assert_eq!(exchange.outcome(), Some(Ok(())));
}

#[test]
fn post_is_built_for_any_payload() {
    let exchange = post(&connected(), "http://example.org/upload", &[1, 2, 3]).unwrap();
    assert_eq!(exchange.request().url, "http://example.org/upload");
    assert_eq!(exchange.request().payload, vec![1, 2, 3]);
    assert_eq!(exchange.request().headers[3].value, "3");
    assert_eq!(exchange.stage(), Stage::Opening);
}

#[test]
fn long_body_is_cut_at_the_limit_and_drained() {
    let body: Vec<u8> = (0..1500usize).map(|i| b'a' + (i % 26) as u8).collect();
    let mut exchange = answered_get(200);
    assert!(exchange.receive(&body[0..600]).is_none());
    assert_eq!(exchange.next_step(), Step::Read { limit: 424 });
    let report = exchange.receive(&body[600..1024]).unwrap();
    assert_eq!(report.bytes_read, 1024);
    assert_eq!(report.text.as_deref(), Some(std::str::from_utf8(&body[0..1024]).unwrap()));
    assert_eq!(exchange.next_step(), Step::Read { limit: 1024 });
    assert!(exchange.receive(&body[1024..1500]).is_none());
    assert_eq!(exchange.captured(), &body[0..1024]);
    assert_eq!(exchange.stage(), Stage::Draining);
    assert!(exchange.receive(b"").is_none());
    assert_eq!(exchange.stage(), Stage::Finished);
    assert_eq!(exchange.captured().len(), BODY_LIMIT);
}

#[test]
fn body_of_exactly_the_limit_ends_filling_without_an_empty_read() {
    let body = vec![b'x'; 1024];
    let mut exchange = answered_get(200);
    let report = exchange.receive(&body).unwrap();
    assert_eq!(report.bytes_read, 1024);
    assert_eq!(report.text.unwrap().len(), 1024);
    assert_eq!(exchange.stage(), Stage::Draining);
    assert!(exchange.receive(b"").is_none());
    assert_eq!(exchange.outcome(), Some(Ok(())));
}

#[test]
fn oversized_chunk_is_kept_only_as_far_as_there_is_room() {
    let body = vec![b'y'; 3000];
    let mut exchange = answered_get(200);
    assert!(exchange.receive(b"abc").is_none());
    let report = exchange.receive(&body).unwrap();
    assert_eq!(report.bytes_read, 1024);
    assert_eq!(&exchange.captured()[0..3], b"abc");
    assert_eq!(&exchange.captured()[3..], &body[0..1021]);
}

#[test]
fn code_point_split_at_the_limit_is_reported_and_not_fatal() {
    let mut body = vec![b'a'; 1023];
    body.extend_from_slice("é".as_bytes());
    assert_eq!(body.len(), 1025);
    let mut exchange = answered_get(200);
    let report = exchange.receive(&body[0..1000]).or(exchange.receive(&body[1000..])).unwrap();
    assert_eq!(report.bytes_read, 1024);
    assert_eq!(report.text, None);
    assert_eq!(exchange.stage(), Stage::Draining);
    assert!(exchange.receive(b"").is_none());
    assert_eq!(exchange.outcome(), Some(Ok(())));
}

#[test]
fn invalid_bytes_are_reported_without_text() {
    let mut exchange = answered_get(200);
    assert!(exchange.receive(&[0xff, 0xfe]).is_none());
    let report = exchange.receive(&[]).unwrap();
    assert_eq!(report.bytes_read, 2);
    assert_eq!(report.text, None);
    assert!(exchange.receive(&[]).is_none());
    assert_eq!(exchange.outcome(), Some(Ok(())));
}

#[test]
fn failure_names_the_step_that_failed() {
    let session = connected();

    let mut at_open = post_request(&session).unwrap();
    at_open.failed();
    assert_eq!(at_open.stage(), Stage::Failed);
    assert_eq!(at_open.next_step(), Step::Stop);
    assert_eq!(at_open.outcome(), Some(Err(RequestError::Open)));

    let mut at_write = post_request(&session).unwrap();
    at_write.done();
    at_write.failed();
    assert_eq!(at_write.outcome(), Some(Err(RequestError::Write)));

    let mut at_flush = post_request(&session).unwrap();
    at_flush.done();
    at_flush.done();
    at_flush.failed();
    assert_eq!(at_flush.outcome(), Some(Err(RequestError::Flush)));

    let mut at_submit = post_request(&session).unwrap();
    at_submit.done();
    at_submit.done();
    at_submit.done();
    at_submit.failed();
    assert_eq!(at_submit.outcome(), Some(Err(RequestError::Submit)));

    let mut at_fill = answered_get(200);
    at_fill.receive(b"abc");
    at_fill.failed();
    assert_eq!(at_fill.outcome(), Some(Err(RequestError::Read)));
    assert_eq!(at_fill.status(), Some(200));

    let mut at_drain = answered_get(200);
    at_drain.receive(b"");
    at_drain.failed();
    assert_eq!(at_drain.outcome(), Some(Err(RequestError::Read)));
}

#[test]
fn ended_exchange_ignores_what_comes_after() {
    let mut exchange = answered_get(200);
    exchange.receive(b"");
    exchange.receive(b"");
    assert_eq!(exchange.outcome(), Some(Ok(())));
    exchange.failed();
    assert_eq!(exchange.outcome(), Some(Ok(())));
    assert!(exchange.receive(b"late").is_none());
    exchange.done();
    exchange.answered(500);
    assert_eq!(exchange.status(), Some(200));
    assert_eq!(exchange.stage(), Stage::Finished);

    let mut failed = get(&connected(), "http://ifconfig.net").unwrap();
    failed.failed();
    failed.failed();
    failed.done();
    assert!(failed.receive(b"x").is_none());
    assert_eq!(failed.outcome(), Some(Err(RequestError::Open)));
}

#[test]
fn events_out_of_turn_leave_the_exchange_alone() {
    let mut exchange = get(&connected(), "http://ifconfig.net").unwrap();
    exchange.answered(200);
    assert_eq!(exchange.status(), None);
    assert!(exchange.receive(b"early").is_none());
    assert_eq!(exchange.stage(), Stage::Opening);
    assert!(exchange.captured().is_empty());
}

#[test]
fn summary_decodes_valid_text() {
    let report = summarize("grüße".as_bytes());
    assert_eq!(report.bytes_read, 7);
    assert_eq!(report.text.as_deref(), Some("grüße"));
    let broken = summarize(&[b'o', b'k', 0xc3]);
    assert_eq!(broken.bytes_read, 3);
    assert_eq!(broken.text, None);
}

#[test]
fn whole_body_reports_as_its_reads_do() {
    let short = report_for(b"1.2.3.4");
    assert_eq!(short.bytes_read, 7);
    assert_eq!(short.text.as_deref(), Some("1.2.3.4"));

    let empty = report_for(b"");
    assert_eq!(empty.bytes_read, 0);
    assert_eq!(empty.text.as_deref(), Some(""));

    let body: Vec<u8> = (0..5000usize).map(|i| b'0' + (i % 10) as u8).collect();
    let long = report_for(&body);
    assert_eq!(long.bytes_read, 1024);
    assert_eq!(long.text.as_deref(), Some(std::str::from_utf8(&body[0..1024]).unwrap()));

    let mut exchange = answered_get(200);
    let mut logged = None;
    for chunk in body.chunks(333) {
        if let Some(report) = exchange.receive(chunk) {
            assert!(logged.is_none());
            logged = Some(report);
        }
    }
    assert!(exchange.receive(b"").is_none());
    let logged = logged.unwrap();
    assert_eq!(logged.bytes_read, long.bytes_read);
    assert_eq!(logged.text, long.text);
    assert_eq!(exchange.outcome(), Some(Ok(())));
}

#[test]
fn whole_body_with_a_split_code_point_has_no_text() {
    let mut body = vec![b'a'; 1023];
    body.extend_from_slice("é".as_bytes());
    let report = report_for(&body);
    assert_eq!(report.bytes_read, 1024);
    assert_eq!(report.text, None);
}
