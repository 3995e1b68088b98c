use sofa::{
    replay, Awaiting, Body, Client, CouchResponse, CouchStatus, CouchVendor, Expect, Header,
    Method, Outcome, Request, Response, SofaError, Step, Transcript,
};

fn local() -> Client {
    Client::new("http://localhost:5984").unwrap()
}

fn prefixed() -> Client {
    let mut client = local();
    client.set_prefix("test_");
    client
}

fn envelope(ok: Option<bool>, error: Option<&str>, reason: Option<&str>) -> CouchResponse {
    CouchResponse { ok, error: error.map(String::from), reason: reason.map(String::from) }
}

fn answer(status: u16, body: Body) -> Option<Response> {
    Some(Response { status, body })
}

fn request(method: Method, uri: &str) -> Request {
    Request {
        method,
        uri: uri.to_string(),
        headers: vec![
            Header { name: "Referer".to_string(), value: uri.to_string() },
            Header { name: "Content-Type".to_string(), value: "application/json".to_string() },
        ],
        body: None,
        gzip: true,
        timeout: 4,
    }
}

/// Carries an operation out against a server that answers with `replies`,
/// in turn; gives the requests that were sent and the result.
fn drive(first: Step, replies: Vec<Option<Response>>) -> (Vec<Request>, Result<Outcome, SofaError>) {
    let transcript = replay(first, replies);
    (transcript.sent, transcript.result.expect("the server was asked once more"))
}

fn puts(sent: &[Request]) -> usize {
    sent.iter().filter(|request| request.method == Method::Put).count()
}

fn database_of(result: Result<Outcome, SofaError>) -> (String, Client) {
    match result {
        Ok(Outcome::Database(database)) => {
            (database.name().to_string(), database.client().clone())
        }
        other => panic!("no database: {:?}", other),
    }
}

#[test]
fn db_begins_with_a_head_on_the_prefixed_name() {
    match prefixed().db("animals") {
        Step::Send(sent, awaiting) => {
            assert_eq!(sent, request(Method::Head, "http://localhost:5984/test_animals"));
            assert_eq!(
                awaiting,
                Awaiting::Probe { name: "test_animals".to_string(), client: prefixed() }
            );
            assert_eq!(awaiting.expects(), Expect::Nothing);
        }
        other => panic!("nothing to send: {:?}", other),
    }
}

#[test]
fn db_opens_an_existing_database_without_a_put() {
    let (sent, result) = drive(prefixed().db("animals"), vec![answer(200, Body::Empty)]);
    assert_eq!(sent, vec![request(Method::Head, "http://localhost:5984/test_animals")]);
    assert_eq!(puts(&sent), 0);
    assert_eq!(database_of(result), ("test_animals".to_string(), prefixed()));
}

#[test]
fn db_creates_a_missing_database_with_one_put() {
    let created = Body::Envelope(envelope(Some(true), None, None));
    let (sent, result) =
        drive(prefixed().db("animals"), vec![answer(404, Body::Empty), answer(201, created)]);
    assert_eq!(
        sent,
        vec![
            request(Method::Head, "http://localhost:5984/test_animals"),
            request(Method::Put, "http://localhost:5984/test_animals"),
        ]
    );
    assert_eq!(puts(&sent), 1);
    assert_eq!(database_of(result), ("test_animals".to_string(), prefixed()));
}

#[test]
fn db_takes_every_other_status_for_a_missing_database() {
    for status in [100u16, 199, 201, 204, 301, 401, 403, 404, 500, 503, 0, 65535] {
        let created = Body::Envelope(envelope(Some(true), None, None));
        let (sent, result) =
            drive(local().db("animals"), vec![answer(status, Body::Empty), answer(201, created)]);
        assert_eq!(sent.len(), 2);
        assert_eq!(sent[0].method, Method::Head);
        assert_eq!(sent[1].method, Method::Put);
        assert_eq!(puts(&sent), 1);
        assert_eq!(database_of(result).0, "animals");
    }
}

#[test]
fn db_reports_the_failure_of_the_creation() {
    let refused = Body::Envelope(envelope(Some(false), Some("unauthorized"), Some("no admin")));
    let (sent, result) =
        drive(local().db("animals"), vec![answer(401, Body::Empty), answer(401, refused)]);
    assert_eq!(puts(&sent), 1);
    assert_eq!(result, Err(SofaError::Server("no admin".to_string())));
}

#[test]
fn db_stops_where_the_inquiry_gets_no_answer() {
    let (sent, result) = drive(local().db("animals"), vec![None]);
    assert_eq!(sent.len(), 1);
    assert_eq!(puts(&sent), 0);
    assert_eq!(result, Err(SofaError::Transport));
}

#[test]
fn db_sends_nothing_where_the_uri_cannot_be_composed() {
    let mut client = local();
    client.set_uri("nowhere");
    let (sent, result) = drive(client.db("animals"), vec![]);
    assert!(sent.is_empty());
    assert_eq!(result, Err(SofaError::Configuration));
}

#[test]
fn make_db_begins_with_a_put_without_body() {
    match prefixed().make_db("x") {
        Step::Send(sent, awaiting) => {
            assert_eq!(sent, request(Method::Put, "http://localhost:5984/test_x"));
            assert_eq!(awaiting, Awaiting::Create { name: "test_x".to_string(), client: prefixed() });
            assert_eq!(awaiting.expects(), Expect::Envelope);
        }
        other => panic!("nothing to send: {:?}", other),
    }
}

#[test]
fn make_db_gives_the_handle_when_the_server_says_ok() {
    let body = Body::Envelope(envelope(Some(true), None, None));
    let (sent, result) = drive(prefixed().make_db("x"), vec![answer(201, body)]);
    assert_eq!(sent.len(), 1);
    let (name, client) = database_of(result);
    assert_eq!(name, "test_x");
    assert_eq!(client, prefixed());
}

#[test]
fn make_db_fails_with_the_reason_the_server_gives() {
    let body = Body::Envelope(envelope(Some(false), None, Some("file_exists")));
    let (_, result) = drive(local().make_db("x"), vec![answer(412, body)]);
    assert_eq!(result, Err(SofaError::Server("file_exists".to_string())));
}

#[test]
fn make_db_fails_with_a_fixed_text_when_the_server_gives_none() {
    let body = Body::Envelope(envelope(None, None, None));
    let (_, result) = drive(local().make_db("x"), vec![answer(200, body)]);
    assert_eq!(result, Err(SofaError::Server("unspecified error".to_string())));
}

#[test]
fn make_db_prefers_the_reason_to_the_error() {
    let both = Body::Envelope(envelope(Some(false), Some("file_exists"), Some("it is there")));
    let (_, result) = drive(local().make_db("x"), vec![answer(412, both)]);
    assert_eq!(result, Err(SofaError::Server("it is there".to_string())));
    let error_only = Body::Envelope(envelope(None, Some("file_exists"), None));
    let (_, result) = drive(local().make_db("x"), vec![answer(412, error_only)]);
    assert_eq!(result, Err(SofaError::Server("file_exists".to_string())));
}

#[test]
fn make_db_goes_by_the_envelope_and_not_by_the_status() {
    let body = Body::Envelope(envelope(Some(true), None, None));
    let (_, result) = drive(local().make_db("x"), vec![answer(500, body)]);
    assert_eq!(database_of(result).0, "x");
    let body = Body::Envelope(envelope(Some(false), None, None));
    let (_, result) = drive(local().make_db("x"), vec![answer(201, body)]);
    assert_eq!(result, Err(SofaError::Server("unspecified error".to_string())));
}

#[test]
fn make_db_fails_on_a_body_that_is_no_envelope() {
    for body in [Body::Malformed, Body::Empty, Body::Names(vec!["x".to_string()])] {
        let (_, result) = drive(local().make_db("x"), vec![answer(201, body)]);
        assert_eq!(result, Err(SofaError::Decode));
    }
    let (_, result) = drive(local().make_db("x"), vec![None]);
    assert_eq!(result, Err(SofaError::Transport));
}

#[test]
fn destroy_db_sends_a_delete_and_gives_what_ok_says() {
    match prefixed().destroy_db("x") {
        Step::Send(sent, awaiting) => {
            assert_eq!(sent, request(Method::Delete, "http://localhost:5984/test_x"));
            assert_eq!(awaiting, Awaiting::Destroy);
            assert_eq!(awaiting.expects(), Expect::Envelope);
        }
        other => panic!("nothing to send: {:?}", other),
    }
    let nothing = Body::Envelope(envelope(None, None, None));
    let (_, result) = drive(local().destroy_db("x"), vec![answer(200, nothing)]);
    assert_eq!(result, Ok(Outcome::Destroyed(false)));
    let yes = Body::Envelope(envelope(Some(true), None, None));
    let (_, result) = drive(local().destroy_db("x"), vec![answer(200, yes)]);
    assert_eq!(result, Ok(Outcome::Destroyed(true)));
    let no = Body::Envelope(envelope(Some(false), Some("not_found"), Some("missing")));
    let (_, result) = drive(local().destroy_db("x"), vec![answer(404, no)]);
    assert_eq!(result, Ok(Outcome::Destroyed(false)));
}

#[test]
fn destroy_db_fails_only_where_no_envelope_came() {
    let yes = Body::Envelope(envelope(Some(true), None, None));
    let (_, result) = drive(local().destroy_db("x"), vec![answer(500, yes)]);
    assert_eq!(result, Ok(Outcome::Destroyed(true)));
    let (_, result) = drive(local().destroy_db("x"), vec![answer(200, Body::Malformed)]);
    assert_eq!(result, Err(SofaError::Decode));
    let (_, result) = drive(local().destroy_db("x"), vec![None]);
    assert_eq!(result, Err(SofaError::Transport));
}

#[test]
fn list_dbs_asks_for_all_dbs_and_hands_the_names_on() {
    let names = vec!["_users".to_string(), "animals".to_string()];
    match local().list_dbs() {
        Step::Send(sent, awaiting) => {
            assert_eq!(sent, request(Method::Get, "http://localhost:5984/_all_dbs"));
            assert_eq!(awaiting.expects(), Expect::Names);
        }
        other => panic!("nothing to send: {:?}", other),
    }
    let (_, result) = drive(local().list_dbs(), vec![answer(200, Body::Names(names.clone()))]);
    assert_eq!(result, Ok(Outcome::Names(names)));
    let (_, result) = drive(local().list_dbs(), vec![answer(200, Body::Malformed)]);
    assert_eq!(result, Err(SofaError::Decode));
    let (_, result) = drive(local().list_dbs(), vec![None]);
    assert_eq!(result, Err(SofaError::Transport));
}

#[test]
fn check_status_asks_the_base_and_hands_the_status_on() {
    let status = CouchStatus {
        couchdb: "Welcome".to_string(),
        uuid: "0a1b2c".to_string(),
        version: "3.3.3".to_string(),
        vendor: CouchVendor { name: "The Apache Software Foundation".to_string(), version: "3.3.3".to_string() },
    };
    match local().check_status() {
        Step::Send(sent, awaiting) => {
            assert_eq!(sent, request(Method::Get, "http://localhost:5984/"));
            assert_eq!(awaiting, Awaiting::Status);
            assert_eq!(awaiting.expects(), Expect::Status);
        }
        other => panic!("nothing to send: {:?}", other),
    }
    let (_, result) = drive(local().check_status(), vec![answer(200, Body::Status(status.clone()))]);
    assert_eq!(result, Ok(Outcome::Status(status)));
    let envelope = Body::Envelope(envelope(Some(true), None, None));
    let (_, result) = drive(local().check_status(), vec![answer(200, envelope)]);
    assert_eq!(result, Err(SofaError::Decode));
    let (_, result) = drive(local().check_status(), vec![None]);
    assert_eq!(result, Err(SofaError::Transport));
}

#[test]
fn operations_carry_the_settings_of_the_moment() {
    let mut client = local();
    client.timeout(30);
    client.gzip(false);
    for step in [client.db("a"), client.make_db("a"), client.destroy_db("a"), client.list_dbs(), client.check_status()] {
        match step {
            Step::Send(sent, _) => assert_eq!((sent.gzip, sent.timeout), (false, 30)),
            other => panic!("nothing to send: {:?}", other),
        }
    }
}

#[test]
fn database_created_after_the_inquiry_goes_to_the_same_place() {
    let mut client = Client::new("http://db.example.org/couch/").unwrap();
    client.set_prefix("p-");
    let created = Body::Envelope(envelope(Some(true), None, None));
    let (sent, result) =
        drive(client.db("zoo"), vec![answer(404, Body::Empty), answer(201, created)]);
    assert_eq!(sent[0].uri, "http://db.example.org/couch/p-zoo");
    assert_eq!(sent[1], Request { method: Method::Put, ..sent[0].clone() });
    assert_eq!(database_of(result), ("p-zoo".to_string(), client));
}

#[test]
fn replay_stops_at_the_request_that_has_no_reply() {
    let head = request(Method::Head, "http://localhost:5984/animals");
    let put = request(Method::Put, "http://localhost:5984/animals");
    assert_eq!(
        replay(local().db("animals"), vec![]),
        Transcript { sent: vec![head.clone()], result: None }
    );
    assert_eq!(
        replay(local().db("animals"), vec![answer(404, Body::Empty)]),
        Transcript { sent: vec![head, put], result: None }
    );
}

#[test]
fn replay_leaves_surplus_replies_unused() {
    let surplus = Body::Envelope(envelope(Some(false), None, Some("never read")));
    let transcript = replay(
        local().db("animals"),
        vec![answer(200, Body::Empty), answer(500, surplus), None],
    );
    assert_eq!(transcript.sent.len(), 1);
    assert_eq!(database_of(transcript.result.unwrap()).0, "animals");
}

#[test]
fn replay_of_a_finished_step_sends_nothing() {
    let done = Step::Done(Ok(Outcome::Destroyed(true)));
    assert_eq!(
        replay(done, vec![None]),
        Transcript { sent: vec![], result: Some(Ok(Outcome::Destroyed(true))) }
    );
}

#[test]
fn resume_decides_one_step_at_a_time() {
    let awaiting = Awaiting::Probe { name: "animals".to_string(), client: local() };
    match awaiting.resume(answer(404, Body::Empty)) {
        Step::Send(sent, next) => {
            assert_eq!(sent, request(Method::Put, "http://localhost:5984/animals"));
            assert_eq!(next, Awaiting::Create { name: "animals".to_string(), client: local() });
            assert_eq!(
                next.resume(answer(412, Body::Envelope(envelope(Some(false), None, Some("file_exists"))))),
                Step::Done(Err(SofaError::Server("file_exists".to_string())))
            );
        }
        other => panic!("nothing to send: {:?}", other),
    }
    assert_eq!(Awaiting::Names.resume(None), Step::Done(Err(SofaError::Transport)));
}

#[test]
fn no_operation_sends_more_than_two_requests() {
    let created = || answer(201, Body::Envelope(envelope(Some(true), None, None)));
    let many = || vec![answer(404, Body::Empty), created(), created(), created()];
    assert_eq!(replay(local().db("a"), many()).sent.len(), 2);
    assert_eq!(replay(local().make_db("a"), many()).sent.len(), 1);
    assert_eq!(replay(local().destroy_db("a"), many()).sent.len(), 1);
    assert_eq!(replay(local().list_dbs(), many()).sent.len(), 1);
    assert_eq!(replay(local().check_status(), many()).sent.len(), 1);
}
