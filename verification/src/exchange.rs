//! One HTTP exchange, from the opening of the request to the last byte of
//! the response.
//!
//! An [`Exchange`] never touches the network. It says which step comes next,
//! its owner carries the step out against the HTTP client and tells the
//! exchange what came of it.

use crate::decimal::decimal_text;
use crate::request::{get_request, post_request_for, Method, Request, RequestView};
use crate::wifi::{LinkState, Session};
use vstd::prelude::*;
use vstd::slice::slice_subrange;
use vstd::string::StringSliceAdditionalSpecFns;
use vstd::string::is_ascii_spec_bytes;
use vstd::utf8::{decode_utf8, is_ascii_chars, valid_utf8};

verus! {

/// The number of bytes of a response body that are kept and decoded. What
/// a body holds beyond them is read and dropped.
pub const BODY_LIMIT: usize = 1024;

#[derive(Clone, Copy, Debug, PartialEq, Eq, Structural)]
pub enum Stage {
    /// The request has yet to be opened.
    Opening,
    /// The payload has yet to be written.
    Writing,
    /// The request stream has yet to be flushed.
    Flushing,
    /// The request has yet to be submitted.
    Submitting,
    /// The head of the body is being read.
    Filling,
    /// The rest of the body is being read and dropped.
    Draining,
    /// The body has ended.
    Finished,
    /// A step failed.
    Failed,
}

/// What the owner of the HTTP client has to do next.
#[derive(Clone, Copy, Debug, PartialEq, Eq, Structural)]
pub enum Step {
    /// Open a request with the exchange's method, URL and header lines.
    Open,
    /// Write the whole payload to the request stream.
    Write,
    /// Flush the request stream.
    Flush,
    /// Submit the request and wait for the status line.
    Submit,
    /// Read once from the body, at most `limit` bytes.
    Read { limit: usize },
    /// Nothing is left to do.
    Stop,
}

/// The step at which an exchange failed.
#[derive(Clone, Copy, Debug, PartialEq, Eq, Structural)]
pub enum RequestError {
    Open,
    Write,
    Flush,
    Submit,
    Read,
}

/// What is logged of a response body: how many bytes of it were kept, and
/// their text, or `None` where they are no valid UTF-8.
#[derive(Debug)]
pub struct BodyReport {
    pub bytes_read: usize,
    pub text: Option<String>,
}

pub struct BodyReportView {
    pub bytes_read: nat,
    pub text: Option<Seq<char>>,
}

impl View for BodyReport {
    type V = BodyReportView;

    open spec fn view(&self) -> BodyReportView {
        BodyReportView {
            bytes_read: self.bytes_read as nat,
            text: match self.text {
                Some(text) => Some(text@),
                None => None,
            },
        }
    }
}

/// The report on the kept bytes `bytes`.
pub open spec fn report_of(bytes: Seq<u8>) -> BodyReportView {
    BodyReportView {
        bytes_read: bytes.len(),
        text: if valid_utf8(bytes) {
            Some(decode_utf8(bytes))
        } else {
            None
        },
    }
}

/// The part of a body that is kept: all of it up to `BODY_LIMIT` bytes, its
/// first `BODY_LIMIT` bytes beyond that.
pub open spec fn head(body: Seq<u8>) -> Seq<u8> {
    if body.len() <= BODY_LIMIT {
        body
    } else {
        body.take(BODY_LIMIT as int)
    }
}

/// `std::str::from_utf8`: the bytes as text where they are valid UTF-8, and
/// nothing where they are not. The text is the one that the bytes encode.
#[verifier::external_body]
fn text_of<'a>(bytes: &'a [u8]) -> (r: Option<&'a str>)
    ensures
        r is Some <==> valid_utf8(bytes@),
        r is Some ==> r->0@ == decode_utf8(bytes@),
{
    match std::str::from_utf8(bytes) {
        Ok(text) => Some(text),
        Err(_) => None,
    }
}

/// Decodes the kept bytes of a body for the log.
pub fn summarize(bytes: &[u8]) -> (r: BodyReport)
    ensures
        r@ == report_of(bytes@),
{
    let text: Option<String> = match text_of(bytes) {
        Some(text) => Some(text.to_owned()),
        None => None,
    };
    BodyReport { bytes_read: bytes.len(), text }
}

/// An exchange in progress.
#[derive(Debug)]
pub struct Exchange {
    request: Request,
    stage: Stage,
    status: Option<u16>,
    captured: Vec<u8>,
    error: Option<RequestError>,
}

/// What an exchange is: the request that it carries, its stage, the status
/// of the response once known, the bytes of the body kept so far, and the
/// step that failed, if one did.
pub struct ExchangeView {
    pub request: RequestView,
    pub stage: Stage,
    pub status: Option<u16>,
    pub captured: Seq<u8>,
    pub error: Option<RequestError>,
}

/// An exchange on which nothing has been done yet.
pub open spec fn fresh(request: RequestView) -> ExchangeView {
    ExchangeView {
        request,
        stage: Stage::Opening,
        status: None,
        captured: Seq::empty(),
        error: None,
    }
}

pub open spec fn well_formed(v: ExchangeView) -> bool {
    &&& v.captured.len() <= BODY_LIMIT
    &&& v.stage == Stage::Filling ==> v.captured.len() < BODY_LIMIT
    &&& v.error is Some <==> v.stage == Stage::Failed
    &&& (v.stage == Stage::Filling || v.stage == Stage::Draining || v.stage == Stage::Finished)
        ==> v.status is Some
    &&& (v.stage == Stage::Opening || v.stage == Stage::Writing || v.stage == Stage::Flushing
        || v.stage == Stage::Submitting) ==> v.status is None && v.captured.len() == 0
}

/// The step that each stage calls for.
pub open spec fn step_in(v: ExchangeView) -> Step {
    match v.stage {
        Stage::Opening => Step::Open,
        Stage::Writing => Step::Write,
        Stage::Flushing => Step::Flush,
        Stage::Submitting => Step::Submit,
        Stage::Filling => Step::Read { limit: (BODY_LIMIT - v.captured.len()) as usize },
        Stage::Draining => Step::Read { limit: BODY_LIMIT },
        Stage::Finished => Step::Stop,
        Stage::Failed => Step::Stop,
    }
}

/// The exchange after `Open`, `Write` or `Flush` was carried out. Only a
/// POST writes and flushes; a GET is submitted as soon as it is open.
pub open spec fn after_done(v: ExchangeView) -> ExchangeView {
    match v.stage {
        Stage::Opening => ExchangeView {
            stage: if v.request.method == Method::Post {
                Stage::Writing
            } else {
                Stage::Submitting
            },
            ..v
        },
        Stage::Writing => ExchangeView { stage: Stage::Flushing, ..v },
        Stage::Flushing => ExchangeView { stage: Stage::Submitting, ..v },
        _ => v,
    }
}

/// The exchange after the request was submitted and answered with `status`.
pub open spec fn after_status(v: ExchangeView, status: u16) -> ExchangeView {
    if v.stage == Stage::Submitting {
        ExchangeView { stage: Stage::Filling, status: Some(status), ..v }
    } else {
        v
    }
}

/// The exchange after one read from the body gave `chunk`. While the head
/// is being filled, the chunk is kept as far as there is room, and filling
/// ends when the room is used up or the chunk is empty. After that every
/// chunk is dropped, and an empty one ends the exchange.
pub open spec fn after_chunk(v: ExchangeView, chunk: Seq<u8>) -> ExchangeView {
    match v.stage {
        Stage::Filling => {
            let room = BODY_LIMIT - v.captured.len();
            let captured = v.captured + (if chunk.len() <= room {
                chunk
            } else {
                chunk.take(room)
            });
            ExchangeView {
                stage: if chunk.len() == 0 || captured.len() >= BODY_LIMIT {
                    Stage::Draining
                } else {
                    Stage::Filling
                },
                captured,
                ..v
            }
        },
        Stage::Draining => if chunk.len() == 0 {
            ExchangeView { stage: Stage::Finished, ..v }
        } else {
            v
        },
        _ => v,
    }
}

/// What is logged when one read from the body gave `chunk`: the report on
/// the kept bytes, at the read that ends the filling, and nothing at any
/// other.
pub open spec fn reported(v: ExchangeView, chunk: Seq<u8>) -> Option<BodyReportView> {
    if v.stage == Stage::Filling && after_chunk(v, chunk).stage == Stage::Draining {
        Some(report_of(after_chunk(v, chunk).captured))
    } else {
        None
    }
}

/// The step that fails when an exchange fails at `stage`.
pub open spec fn error_at(stage: Stage) -> Option<RequestError> {
    match stage {
        Stage::Opening => Some(RequestError::Open),
        Stage::Writing => Some(RequestError::Write),
        Stage::Flushing => Some(RequestError::Flush),
        Stage::Submitting => Some(RequestError::Submit),
        Stage::Filling => Some(RequestError::Read),
        Stage::Draining => Some(RequestError::Read),
        Stage::Finished => None,
        Stage::Failed => None,
    }
}

/// The exchange after its current step failed. One that has ended stays as
/// it ended.
pub open spec fn after_failure(v: ExchangeView) -> ExchangeView {
    if error_at(v.stage) is Some {
        ExchangeView { stage: Stage::Failed, error: error_at(v.stage), ..v }
    } else {
        v
    }
}

/// How an exchange ended, if it has.
pub open spec fn outcome_of(v: ExchangeView) -> Option<Result<(), RequestError>> {
    match v.stage {
        Stage::Finished => Some(Ok(())),
        Stage::Failed => match v.error {
            Some(error) => Some(Err(error)),
            None => None,
        },
        _ => None,
    }
}

impl View for Exchange {
    type V = ExchangeView;

    closed spec fn view(&self) -> ExchangeView {
        ExchangeView {
            request: self.request@,
            stage: self.stage,
            status: self.status,
            captured: self.captured@,
            error: self.error,
        }
    }
}

impl Exchange {
    /// An exchange for `request`, on which nothing has been done yet.
    fn new(request: Request) -> (r: Exchange)
        ensures
            r@ == fresh(request@),
            well_formed(r@),
    {
        Exchange { request, stage: Stage::Opening, status: None, captured: Vec::new(), error: None }
    }

    pub fn request(&self) -> (r: &Request)
        ensures
            r@ == self@.request,
    {
        &self.request
    }

    pub fn stage(&self) -> (r: Stage)
        ensures
            r == self@.stage,
    {
        self.stage
    }

    /// The status of the response, once the request has been answered.
    pub fn status(&self) -> (r: Option<u16>)
        ensures
            r == self@.status,
    {
        self.status
    }

    /// The bytes of the body kept so far.
    pub fn captured(&self) -> (r: &[u8])
        ensures
            r@ == self@.captured,
    {
        self.captured.as_slice()
    }

    /// What to do next.
    pub fn next_step(&self) -> (r: Step)
        requires
            well_formed(self@),
        ensures
            r == step_in(self@),
    {
        match self.stage {
            Stage::Opening => Step::Open,
            Stage::Writing => Step::Write,
            Stage::Flushing => Step::Flush,
            Stage::Submitting => Step::Submit,
            Stage::Filling => Step::Read { limit: BODY_LIMIT - self.captured.len() },
            Stage::Draining => Step::Read { limit: BODY_LIMIT },
            Stage::Finished => Step::Stop,
            Stage::Failed => Step::Stop,
        }
    }

    /// `Open`, `Write` or `Flush` was carried out.
    pub fn done(&mut self)
        requires
            well_formed(old(self)@),
        ensures
            final(self)@ == after_done(old(self)@),
            well_formed(final(self)@),
    {
        let next: Stage = match self.stage {
            Stage::Opening => match self.request.method {
                Method::Post => Stage::Writing,
                Method::Get => Stage::Submitting,
            },
            Stage::Writing => Stage::Flushing,
            Stage::Flushing => Stage::Submitting,
            stage => stage,
        };
        self.stage = next;
    }

    /// The request was submitted and answered with `status`.
    pub fn answered(&mut self, status: u16)
        requires
            well_formed(old(self)@),
        ensures
            final(self)@ == after_status(old(self)@, status),
            well_formed(final(self)@),
    {
        if self.stage == Stage::Submitting {
            self.stage = Stage::Filling;
            self.status = Some(status);
        }
    }

    /// One read from the body gave `chunk`; an empty chunk is a read of no
    /// bytes. Returns what is to be logged of the body, at the read that
    /// ends the filling of its head.
    pub fn receive(&mut self, chunk: &[u8]) -> (r: Option<BodyReport>)
        requires
            well_formed(old(self)@),
        ensures
            final(self)@ == after_chunk(old(self)@, chunk@),
            well_formed(final(self)@),
            match r {
                Some(report) => reported(old(self)@, chunk@) == Some(report@),
                None => reported(old(self)@, chunk@) is None,
            },
    {
        match self.stage {
            Stage::Filling => {
                let room: usize = BODY_LIMIT - self.captured.len();
                let kept: &[u8] = if chunk.len() <= room {
                    chunk
                } else {
                    slice_subrange(chunk, 0, room)
                };
                let ghost before = self.captured@;
                let mut i: usize = 0;
                while i < kept.len()
                    invariant
                        i <= kept.len(),
                        self.captured@ == before + kept@.take(i as int),
                        self.request == old(self).request,
                        self.stage == old(self).stage,
                        self.status == old(self).status,
                        self.error == old(self).error,
                    decreases kept.len() - i,
                {
                    self.captured.push(kept[i]);
                    i += 1;
                    assert(self.captured@ =~= before + kept@.take(i as int));
                }
                assert(kept@.take(kept.len() as int) =~= kept@);
                if chunk.len() == 0 || self.captured.len() >= BODY_LIMIT {
                    self.stage = Stage::Draining;
                    Some(summarize(self.captured.as_slice()))
                } else {
                    None
                }
            },
            Stage::Draining => {
                if chunk.len() == 0 {
                    self.stage = Stage::Finished;
                }
                None
            },
            _ => None,
        }
    }

    /// The current step failed.
    pub fn failed(&mut self)
        requires
            well_formed(old(self)@),
        ensures
            final(self)@ == after_failure(old(self)@),
            well_formed(final(self)@),
    {
        let error: Option<RequestError> = match self.stage {
            Stage::Opening => Some(RequestError::Open),
            Stage::Writing => Some(RequestError::Write),
            Stage::Flushing => Some(RequestError::Flush),
            Stage::Submitting => Some(RequestError::Submit),
            Stage::Filling => Some(RequestError::Read),
            Stage::Draining => Some(RequestError::Read),
            Stage::Finished => None,
            Stage::Failed => None,
        };
        if error.is_some() {
            self.stage = Stage::Failed;
            self.error = error;
        }
    }

    /// How the exchange ended: `None` while it is under way.
    pub fn outcome(&self) -> (r: Option<Result<(), RequestError>>)
        requires
            well_formed(self@),
        ensures
            r == outcome_of(self@),
            r is Some <==> step_in(self@) == Step::Stop,
    {
        match self.stage {
            Stage::Finished => Some(Ok(())),
            Stage::Failed => match self.error {
                Some(error) => Some(Err(error)),
                None => None,
            },
            _ => None,
        }
    }
}

/// A GET of `url` over `session`: an exchange to carry out once the session
/// is connected, and nothing before that.
pub fn get(session: &Session, url: &str) -> (r: Option<Exchange>)
    ensures
        r is Some <==> session.spec_state() == LinkState::Connected,
        r is Some ==> r->0@ == fresh(get_request(url@)) && well_formed(r->0@),
{
    if session.is_connected() {
        Some(Exchange::new(Request::get(url)))
    } else {
        None
    }
}

/// A plain-text POST of `payload` to `url` over `session`: an exchange to
/// carry out once the session is connected, and nothing before that.
pub fn post(session: &Session, url: &str, payload: &[u8]) -> (r: Option<Exchange>)
    ensures
        r is Some <==> session.spec_state() == LinkState::Connected,
        r is Some ==> r->0@ == fresh(post_request_for(url@, payload@)) && well_formed(r->0@),
{
    if session.is_connected() {
        Some(Exchange::new(Request::post(url, payload)))
    } else {
        None
    }
}

/// The greeting that `post_request` sends.
pub open spec fn greeting() -> Seq<u8> {
    "Hello world!".spec_bytes()
}

/// The greeting POST: `Hello world!`, twelve bytes of plain text, to
/// `http://example.org/`.
pub fn post_request(session: &Session) -> (r: Option<Exchange>)
    ensures
        r is Some <==> session.spec_state() == LinkState::Connected,
        r is Some ==> r->0@ == fresh(post_request_for("http://example.org/"@, greeting()))
            && well_formed(r->0@),
        greeting().len() == 12,
        post_request_for("http://example.org/"@, greeting()).headers[3] == (
            "content-length"@,
            "12"@,
        ),
{
    let payload: &[u8] = "Hello world!".as_bytes();
    proof {
        reveal_strlit("Hello world!");
        reveal_strlit("12");
        reveal_with_fuel(decimal_text, 3);
        assert(is_ascii_chars("Hello world!"@));
        is_ascii_spec_bytes("Hello world!");
        assert(greeting().len() == 12);
        assert(decimal_text(12) =~= "12"@);
    }
    post(session, "http://example.org/", payload)
}

} // verus!
