//! The operations on the server, as exchanges that someone else carries out.
//!
//! An operation begins with a [`Step`]. While the step is [`Step::Send`], the
//! caller sends its request, reads the answer as [`Awaiting::expects`] says,
//! and hands it to [`Awaiting::resume`], which gives the next step. A step
//! that is [`Step::Done`] holds the operation's result.

use crate::client::{
    built, effective_name, request_of, root_request, Client, ClientView,
};
use crate::database::{Database, DatabaseView};
use crate::error::{ErrorView, SofaError};
use crate::request::{Method, Request, RequestView};
use crate::types::system::{CouchResponse, CouchStatus, EnvelopeView, StatusView};
use vstd::prelude::*;
use vstd::string::StringExecFns;

verus! {

/// The body of an answer, read as the operation expects it.
#[derive(Debug, Clone, PartialEq, Eq)]
pub enum Body {
    /// No body was read.
    Empty,
    /// The envelope around the outcome of a change.
    Envelope(CouchResponse),
    /// A list of names.
    Names(Vec<String>),
    /// The server's description of itself.
    Status(CouchStatus),
    /// The body did not have the expected shape.
    Malformed,
}

/// What the server answered to a request.
#[derive(Debug, Clone, PartialEq, Eq)]
pub struct Response {
    /// The status code of the answer.
    pub status: u16,
    pub body: Body,
}

/// How the body of the awaited answer is to be read.
#[derive(Debug, Clone, Copy, PartialEq, Eq)]
pub enum Expect {
    /// The body is not read.
    Nothing,
    /// As a [`CouchResponse`].
    Envelope,
    /// As a list of names.
    Names,
    /// As a [`CouchStatus`].
    Status,
}

/// The request whose answer an operation is waiting for.
#[derive(Debug, Clone, PartialEq, Eq)]
pub enum Awaiting {
    /// The inquiry whether the database exists.
    Probe { name: String, client: Client },
    /// The creation of the database.
    Create { name: String, client: Client },
    /// The destruction of a database.
    Destroy,
    /// The list of the databases.
    Names,
    /// The server's description of itself.
    Status,
}

/// The result of an operation that succeeded.
#[derive(Debug, Clone, PartialEq, Eq)]
pub enum Outcome {
    /// The database exists: it was found, or has just been created.
    Database(Database),
    /// Whether the server confirmed the destruction.
    Destroyed(bool),
    /// The names of the databases on the server.
    Names(Vec<String>),
    /// The server's description of itself.
    Status(CouchStatus),
}

/// What an operation needs next.
#[derive(Debug, PartialEq, Eq)]
pub enum Step {
    /// A request is to be sent, and its answer handed to
    /// [`Awaiting::resume`].
    Send(Request, Awaiting),
    /// The operation is over.
    Done(Result<Outcome, SofaError>),
}

/// The mathematical value of a [`Body`].
pub enum BodyView {
    Empty,
    Envelope(EnvelopeView),
    Names(Seq<Seq<char>>),
    Status(StatusView),
    Malformed,
}

/// The mathematical value of a [`Response`].
pub struct ResponseView {
    pub status: u16,
    pub body: BodyView,
}

/// The mathematical value of an [`Awaiting`].
pub enum AwaitingView {
    Probe(DatabaseView),
    Create(DatabaseView),
    Destroy,
    Names,
    Status,
}

/// The mathematical value of an [`Outcome`].
pub enum OutcomeView {
    Database(DatabaseView),
    Destroyed(bool),
    Names(Seq<Seq<char>>),
    Status(StatusView),
}

/// The mathematical value of a [`Step`].
pub enum StepView {
    Send(RequestView, AwaitingView),
    Done(Result<OutcomeView, ErrorView>),
}

/// A list of names as sequences of characters.
pub open spec fn names_of(names: Seq<String>) -> Seq<Seq<char>> {
    names.map_values(|name: String| name@)
}

impl View for Body {
    type V = BodyView;

    open spec fn view(&self) -> BodyView {
        match self {
            Body::Empty => BodyView::Empty,
            Body::Envelope(envelope) => BodyView::Envelope(envelope@),
            Body::Names(names) => BodyView::Names(names_of(names@)),
            Body::Status(status) => BodyView::Status(status@),
            Body::Malformed => BodyView::Malformed,
        }
    }
}

impl View for Response {
    type V = ResponseView;

    open spec fn view(&self) -> ResponseView {
        ResponseView { status: self.status, body: self.body@ }
    }
}

impl View for Awaiting {
    type V = AwaitingView;

    open spec fn view(&self) -> AwaitingView {
        match self {
            Awaiting::Probe { name, client } => AwaitingView::Probe(
                DatabaseView { name: name@, client: client@ },
            ),
            Awaiting::Create { name, client } => AwaitingView::Create(
                DatabaseView { name: name@, client: client@ },
            ),
            Awaiting::Destroy => AwaitingView::Destroy,
            Awaiting::Names => AwaitingView::Names,
            Awaiting::Status => AwaitingView::Status,
        }
    }
}

impl View for Outcome {
    type V = OutcomeView;

    open spec fn view(&self) -> OutcomeView {
        match self {
            Outcome::Database(database) => OutcomeView::Database(database@),
            Outcome::Destroyed(confirmed) => OutcomeView::Destroyed(*confirmed),
            Outcome::Names(names) => OutcomeView::Names(names_of(names@)),
            Outcome::Status(status) => OutcomeView::Status(status@),
        }
    }
}

/// The mathematical value of the result of an operation.
pub open spec fn result_of(result: Result<Outcome, SofaError>) -> Result<OutcomeView, ErrorView> {
    match result {
        Ok(outcome) => Ok(outcome@),
        Err(e) => Err(e@),
    }
}

impl View for Step {
    type V = StepView;

    open spec fn view(&self) -> StepView {
        match self {
            Step::Send(request, awaiting) => StepView::Send(request@, awaiting@),
            Step::Done(result) => StepView::Done(result_of(*result)),
        }
    }
}

/// The mathematical value of what came back from the transport: `None`
/// where no answer came.
pub open spec fn reply_of(reply: Option<Response>) -> Option<ResponseView> {
    match reply {
        Some(response) => Some(response@),
        None => None,
    }
}

/// The status with which the server says that a database exists.
pub open spec fn found() -> u16 {
    200
}

/// The step that sends a request, where it could be built, and waits for its
/// answer; the end of the operation where it could not.
pub open spec fn sending(request: Result<RequestView, ErrorView>, awaiting: AwaitingView) -> StepView {
    match request {
        Ok(request) => StepView::Send(request, awaiting),
        Err(e) => StepView::Done(Err(e)),
    }
}

/// The database that `dbname` names through the client.
pub open spec fn target(c: ClientView, dbname: Seq<char>) -> DatabaseView {
    DatabaseView { name: effective_name(c, dbname), client: c }
}

/// The inquiry whether a database exists: a `HEAD` on its resource.
pub open spec fn probing(db: DatabaseView) -> StepView {
    sending(request_of(db.client, Method::Head, db.name, None, None), AwaitingView::Probe(db))
}

/// The creation of a database: a `PUT` on its resource.
pub open spec fn creating(db: DatabaseView) -> StepView {
    sending(request_of(db.client, Method::Put, db.name, None, None), AwaitingView::Create(db))
}

/// The destruction of a database: a `DELETE` on its resource.
pub open spec fn destroying(c: ClientView, dbname: Seq<char>) -> StepView {
    sending(
        request_of(c, Method::Delete, effective_name(c, dbname), None, None),
        AwaitingView::Destroy,
    )
}

/// The request for the names of all databases.
pub open spec fn listing(c: ClientView) -> StepView {
    sending(request_of(c, Method::Get, "/_all_dbs"@, None, None), AwaitingView::Names)
}

/// The request for the server's description of itself.
pub open spec fn checking(c: ClientView) -> StepView {
    sending(root_request(c, Method::Get), AwaitingView::Status)
}

/// What the server gave as the reason of a failure: its `reason`; without
/// one, its `error`; without either, a fixed text.
pub open spec fn failure_text(envelope: EnvelopeView) -> Seq<char> {
    match envelope.reason {
        Some(reason) => reason,
        None => match envelope.error {
            Some(error) => error,
            None => "unspecified error"@,
        },
    }
}

/// The result of a creation, from the envelope the server answered with.
pub open spec fn created(db: DatabaseView, envelope: EnvelopeView) -> Result<
    OutcomeView,
    ErrorView,
> {
    if envelope.ok == Some(true) {
        Ok(OutcomeView::Database(db))
    } else {
        Err(ErrorView::Server(failure_text(envelope)))
    }
}

/// Whether the envelope confirms the destruction: a missing `ok` does not.
pub open spec fn confirmed(envelope: EnvelopeView) -> bool {
    envelope.ok == Some(true)
}

/// How the body of the awaited answer is to be read.
pub open spec fn expected(awaiting: AwaitingView) -> Expect {
    match awaiting {
        AwaitingView::Probe(_) => Expect::Nothing,
        AwaitingView::Create(_) => Expect::Envelope,
        AwaitingView::Destroy => Expect::Envelope,
        AwaitingView::Names => Expect::Names,
        AwaitingView::Status => Expect::Status,
    }
}

/// The step that follows when the transport reports `reply` for the request
/// that was awaited.
pub open spec fn resumed(awaiting: AwaitingView, reply: Option<ResponseView>) -> StepView {
    match reply {
        None => StepView::Done(Err(ErrorView::Transport)),
        Some(response) => match awaiting {
            AwaitingView::Probe(db) => if response.status == found() {
                StepView::Done(Ok(OutcomeView::Database(db)))
            } else {
                creating(db)
            },
            AwaitingView::Create(db) => match response.body {
                BodyView::Envelope(envelope) => StepView::Done(created(db, envelope)),
                _ => StepView::Done(Err(ErrorView::Decode)),
            },
            AwaitingView::Destroy => match response.body {
                BodyView::Envelope(envelope) => StepView::Done(
                    Ok(OutcomeView::Destroyed(confirmed(envelope))),
                ),
                _ => StepView::Done(Err(ErrorView::Decode)),
            },
            AwaitingView::Names => match response.body {
                BodyView::Names(names) => StepView::Done(Ok(OutcomeView::Names(names))),
                _ => StepView::Done(Err(ErrorView::Decode)),
            },
            AwaitingView::Status => match response.body {
                BodyView::Status(status) => StepView::Done(Ok(OutcomeView::Status(status))),
                _ => StepView::Done(Err(ErrorView::Decode)),
            },
        },
    }
}

/// What driving an operation comes to: the requests that were sent, in
/// order, and the result once the operation is over.
pub struct Trace {
    pub sent: Seq<RequestView>,
    pub result: Option<Result<OutcomeView, ErrorView>>,
}

/// Drives an operation from `step`, answering its requests with `replies`
/// in turn, until the operation is over or the replies have run out.
pub open spec fn run(step: StepView, replies: Seq<Option<ResponseView>>) -> Trace
    decreases replies.len(),
{
    match step {
        StepView::Done(result) => Trace { sent: Seq::empty(), result: Some(result) },
        StepView::Send(request, awaiting) => if replies.len() == 0 {
            Trace { sent: seq![request], result: None }
        } else {
            let rest = run(resumed(awaiting, replies[0]), replies.skip(1));
            Trace { sent: seq![request] + rest.sent, result: rest.result }
        },
    }
}

/// An operation as it went against given answers: the requests that were
/// sent, in order, and the result if the operation came to its end.
#[derive(Debug, PartialEq, Eq)]
pub struct Transcript {
    pub sent: Vec<Request>,
    pub result: Option<Result<Outcome, SofaError>>,
}

/// The requests of a transcript as mathematical values.
pub open spec fn requests_of(sent: Seq<Request>) -> Seq<RequestView> {
    sent.map_values(|request: Request| request@)
}

/// The answers handed to [`replay`] as mathematical values.
pub open spec fn replies_of(replies: Seq<Option<Response>>) -> Seq<Option<ResponseView>> {
    replies.map_values(|reply: Option<Response>| reply_of(reply))
}

impl View for Transcript {
    type V = Trace;

    open spec fn view(&self) -> Trace {
        Trace {
            sent: requests_of(self.sent@),
            result: match self.result {
                Some(result) => Some(result_of(result)),
                None => None,
            },
        }
    }
}

/// A trace with requests put in front of it.
pub open spec fn after(sent: Seq<RequestView>, rest: Trace) -> Trace {
    Trace { sent: sent + rest.sent, result: rest.result }
}

/// How many of the requests are `PUT`s.
pub open spec fn puts(sent: Seq<RequestView>) -> nat {
    sent.filter(|request: RequestView| request.method == Method::Put).len()
}

/// The step that sends `request` where it was built.
fn send(request: Result<Request, SofaError>, awaiting: Awaiting) -> (step: Step)
    ensures
        step@ == sending(built(request), awaiting@),
{
    match request {
        Ok(request) => Step::Send(request, awaiting),
        Err(e) => Step::Done(Err(e)),
    }
}

/// The text that says why the server refused.
fn failure_message(envelope: CouchResponse) -> (text: String)
    ensures
        text@ == failure_text(envelope@),
{
    match envelope.reason {
        Some(reason) => reason,
        None => match envelope.error {
            Some(error) => error,
            None => String::from_str("unspecified error"),
        },
    }
}

/// Begins the creation of the database `name` through `client`.
fn create(name: String, client: Client) -> (step: Step)
    ensures
        step@ == creating(DatabaseView { name: name@, client: client@ }),
{
    let request = client.req(Method::Put, name.as_str(), None);
    send(request, Awaiting::Create { name, client })
}

impl Client {
    /// Begins to open the database `dbname`, creating it if the server does
    /// not have it: asks whether it exists.
    pub fn db(&self, dbname: &str) -> (step: Step)
        ensures
            step@ == probing(target(self@, dbname@)),
    {
        let name = self.build_dbname(dbname);
        let request = self.req(Method::Head, name.as_str(), None);
        send(request, Awaiting::Probe { name, client: self.duplicate() })
    }

    /// Begins to create the database `dbname`.
    pub fn make_db(&self, dbname: &str) -> (step: Step)
        ensures
            step@ == creating(target(self@, dbname@)),
    {
        create(self.build_dbname(dbname), self.duplicate())
    }

    /// Begins to destroy the database `dbname`.
    pub fn destroy_db(&self, dbname: &str) -> (step: Step)
        ensures
            step@ == destroying(self@, dbname@),
    {
        let name = self.build_dbname(dbname);
        send(self.req(Method::Delete, name.as_str(), None), Awaiting::Destroy)
    }

    /// Begins to list the databases of the server.
    pub fn list_dbs(&self) -> (step: Step)
        ensures
            step@ == listing(self@),
    {
        send(self.req(Method::Get, "/_all_dbs", None), Awaiting::Names)
    }

    /// Begins to ask the server for its description of itself.
    pub fn check_status(&self) -> (step: Step)
        ensures
            step@ == checking(self@),
    {
        send(self.root(Method::Get), Awaiting::Status)
    }
}

/// Carries an operation out from `first` against answers that are already
/// known: each request that the operation sends is answered with the next of
/// `replies`, `None` standing for an answer that never came. The operation
/// stops at its end, or at the request for which no reply is left.
pub fn replay(first: Step, replies: Vec<Option<Response>>) -> (transcript: Transcript)
    ensures
        transcript@ == run(first@, replies_of(replies@)),
{
    let ghost whole = run(first@, replies_of(replies@));
    let mut sent: Vec<Request> = Vec::new();
    let mut step = first;
    let mut rest = replies;
    assert(requests_of(sent@) + run(step@, replies_of(rest@)).sent =~= run(
        step@,
        replies_of(rest@),
    ).sent);
    loop
        invariant
            whole == run(first@, replies_of(replies@)),
            whole == after(requests_of(sent@), run(step@, replies_of(rest@))),
        decreases rest.len(),
    {
        let ghost before = requests_of(sent@);
        let ghost pending = replies_of(rest@);
        match step {
            Step::Done(result) => {
                assert(before + Seq::<RequestView>::empty() =~= before);
                return Transcript { sent, result: Some(result) };
            },
            Step::Send(request, awaiting) => {
                sent.push(request);
                assert(requests_of(sent@) =~= before + seq![request@]);
                if rest.len() == 0 {
                    return Transcript { sent, result: None };
                }
                let reply = rest.remove(0);
                assert(replies_of(rest@) =~= pending.skip(1));
                assert(reply_of(reply) == pending[0]);
                step = awaiting.resume(reply);
                assert((before + seq![request@]) + run(step@, replies_of(rest@)).sent =~= before + (
                seq![request@] + run(step@, replies_of(rest@)).sent));
            },
        }
    }
}

impl Awaiting {
    /// How the body of the awaited answer is to be read.
    pub fn expects(&self) -> (e: Expect)
        ensures
            e == expected(self@),
    {
        match self {
            Awaiting::Probe { .. } => Expect::Nothing,
            Awaiting::Create { .. } => Expect::Envelope,
            Awaiting::Destroy => Expect::Envelope,
            Awaiting::Names => Expect::Names,
            Awaiting::Status => Expect::Status,
        }
    }

    /// Takes what the transport reports for the awaited request, `None`
    /// where no answer came, and gives the step that follows.
    pub fn resume(self, reply: Option<Response>) -> (step: Step)
        ensures
            step@ == resumed(self@, reply_of(reply)),
    {
        let response = match reply {
            Some(response) => response,
            None => {
                return Step::Done(Err(SofaError::Transport));
            },
        };
        match self {
            Awaiting::Probe { name, client } => {
                if response.status == 200 {
                    Step::Done(Ok(Outcome::Database(Database::new(name, client))))
                } else {
                    create(name, client)
                }
            },
            Awaiting::Create { name, client } => match response.body {
                Body::Envelope(envelope) => match envelope.ok {
                    Some(true) => Step::Done(Ok(Outcome::Database(Database::new(name, client)))),
                    _ => Step::Done(Err(SofaError::Server(failure_message(envelope)))),
                },
                _ => Step::Done(Err(SofaError::Decode)),
            },
            Awaiting::Destroy => match response.body {
                Body::Envelope(envelope) => match envelope.ok {
                    Some(confirmed) => Step::Done(Ok(Outcome::Destroyed(confirmed))),
                    None => Step::Done(Ok(Outcome::Destroyed(false))),
                },
                _ => Step::Done(Err(SofaError::Decode)),
            },
            Awaiting::Names => match response.body {
                Body::Names(names) => Step::Done(Ok(Outcome::Names(names))),
                _ => Step::Done(Err(SofaError::Decode)),
            },
            Awaiting::Status => match response.body {
                Body::Status(status) => Step::Done(Ok(Outcome::Status(status))),
                _ => Step::Done(Err(SofaError::Decode)),
            },
        }
    }
}

/// Opening a database that the server reports as existing sends the inquiry
/// and nothing else: no `PUT` is sent, and the handle to the database is the
/// result.
pub proof fn lemma_found_database_is_not_created(
    c: ClientView,
    dbname: Seq<char>,
    replies: Seq<Option<ResponseView>>,
)
    requires
        replies.len() > 0,
        replies[0] matches Some(response) && response.status == found(),
    ensures
        puts(run(probing(target(c, dbname)), replies).sent) == 0,
        request_of(c, Method::Head, effective_name(c, dbname), None, None) matches Ok(inquiry)
            ==> run(probing(target(c, dbname)), replies) == (Trace {
            sent: seq![inquiry],
            result: Some(Ok(OutcomeView::Database(target(c, dbname)))),
        }),
{
    let db = target(c, dbname);
    reveal_with_fuel(run, 3);
    match request_of(c, Method::Head, db.name, None, None) {
        Ok(inquiry) => {
            let trace = run(probing(db), replies);
            assert(trace.sent =~= seq![inquiry]);
            lemma_puts_of_one(inquiry);
        },
        Err(_) => {
            lemma_puts_of_none();
        },
    }
}

/// Opening a database that the server does not report as existing goes on
/// as a creation does, whatever the status was: after the inquiry exactly one
/// `PUT` is sent, to the same URI, and its answer decides the result.
pub proof fn lemma_missing_database_is_created_once(
    c: ClientView,
    dbname: Seq<char>,
    replies: Seq<Option<ResponseView>>,
)
    requires
        request_of(c, Method::Head, effective_name(c, dbname), None, None).is_ok(),
        replies.len() > 0,
        replies[0] matches Some(response) && response.status != found(),
    ensures
        ({
            let trace = run(probing(target(c, dbname)), replies);
            let creation = run(creating(target(c, dbname)), replies.skip(1));
            let inquiry = request_of(c, Method::Head, effective_name(c, dbname), None, None)->Ok_0;
            &&& trace.sent == seq![inquiry, RequestView { method: Method::Put, ..inquiry }]
            &&& puts(trace.sent) == 1
            &&& trace.sent == seq![inquiry] + creation.sent
            &&& trace.result == creation.result
        }),
{
    let db = target(c, dbname);
    let inquiry = request_of(c, Method::Head, db.name, None, None)->Ok_0;
    let creation = RequestView { method: Method::Put, ..inquiry };
    let trace = run(probing(db), replies);
    reveal_with_fuel(run, 4);
    assert(request_of(c, Method::Put, db.name, None, None) == Ok::<RequestView, ErrorView>(creation));
    assert(trace.sent =~= seq![inquiry, creation]);
    assert(trace.sent =~= seq![inquiry] + run(creating(db), replies.skip(1)).sent);
    lemma_puts_of_two(inquiry, creation);
}

/// An operation that succeeds gives the kind of result it was begun for:
/// opening and creating give the database that was named, destroying gives
/// the server's confirmation, listing gives names, and the inquiry after the
/// server gives its status.
pub proof fn lemma_result_fits_the_operation(
    c: ClientView,
    dbname: Seq<char>,
    replies: Seq<Option<ResponseView>>,
)
    ensures
        run(probing(target(c, dbname)), replies).result matches Some(Ok(outcome))
            ==> outcome == OutcomeView::Database(target(c, dbname)),
        run(creating(target(c, dbname)), replies).result matches Some(Ok(outcome))
            ==> outcome == OutcomeView::Database(target(c, dbname)),
        run(destroying(c, dbname), replies).result matches Some(Ok(outcome))
            ==> outcome is Destroyed,
        run(listing(c), replies).result matches Some(Ok(outcome)) ==> outcome is Names,
        run(checking(c), replies).result matches Some(Ok(outcome)) ==> outcome is Status,
{
    reveal_with_fuel(run, 4);
}

/// No operation sends more than two requests, and only the opening of a
/// database sends a second one: nothing is ever tried again.
pub proof fn lemma_nothing_is_retried(step: StepView, replies: Seq<Option<ResponseView>>)
    ensures
        run(step, replies).sent.len() <= 2,
        step matches StepView::Send(_, awaiting) && !(awaiting is Probe) ==> run(
            step,
            replies,
        ).sent.len() == 1,
        replies.len() >= 2 ==> run(step, replies).result.is_some(),
{
    reveal_with_fuel(run, 4);
}

proof fn lemma_puts_of_none()
    ensures
        puts(Seq::<RequestView>::empty()) == 0,
{
    reveal_with_fuel(Seq::filter, 1);
}

proof fn lemma_puts_of_one(request: RequestView)
    ensures
        puts(seq![request]) == if request.method == Method::Put {
            1nat
        } else {
            0nat
        },
{
    reveal_with_fuel(Seq::filter, 2);
    assert(seq![request].drop_last() =~= Seq::<RequestView>::empty());
}

proof fn lemma_puts_of_two(first: RequestView, second: RequestView)
    requires
        first.method != Method::Put,
        second.method == Method::Put,
    ensures
        puts(seq![first, second]) == 1,
{
    reveal_with_fuel(Seq::filter, 3);
    assert(seq![first, second].drop_last() =~= seq![first]);
    assert(seq![first].drop_last() =~= Seq::<RequestView>::empty());
}

} // verus!
