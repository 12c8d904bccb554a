//! The vote webhook: authenticate the request, decode its body, dispatch the
//! vote.
//!
//! A request moves through [`Stage`]s. It starts out awaiting authentication,
//! then awaits its body, and ends either dispatched, with the vote to hand to
//! the handler, or rejected. Both rejections answer with the same status, so
//! that a caller cannot tell which check failed.

use crate::error::ErrorKind;
use crate::text::{bytes_eq, eq_ignore_ascii_case, same_ignoring_case};
use crate::vote::{decode, decoded, Vote, VoteView};
use vstd::prelude::*;
use vstd::string::StringSliceAdditionalSpecFns;
use vstd::utf8::{decode_utf8, encode_utf8, valid_utf8};

verus! {

/// The status that answers a dispatched vote.
pub const STATUS_OK: u16 = 200;

/// The status that answers every rejected request.
pub const STATUS_UNAUTHORIZED: u16 = 401;

/// One header of an inbound request.
#[derive(Clone, Debug)]
pub struct Header {
    /// The header's name; its case does not matter.
    pub name: String,
    /// The header's value, as the bytes that came over the wire.
    pub value: Vec<u8>,
}

/// The mathematical value of a [`Header`].
pub struct HeaderView {
    pub name: Seq<char>,
    pub value: Seq<u8>,
}

impl View for Header {
    type V = HeaderView;

    open spec fn view(&self) -> HeaderView {
        HeaderView { name: self.name@, value: self.value@ }
    }
}

impl DeepView for Header {
    type V = HeaderView;

    open spec fn deep_view(&self) -> HeaderView {
        self@
    }
}

/// Receives the votes that the webhook dispatches.
pub trait VoteHandler {
    /// Called once for each vote that passed authentication and decoding.
    fn voted(&self, vote: Vote);
}

/// What every request is checked against and dispatched to: the shared
/// secret and the handler. It is made once and never changes.
pub struct WebhookState<T> {
    /// The handler that receives the votes.
    pub state: T,
    /// The secret that the `Authorization` header must carry.
    pub password: String,
}

/// How far a request has come.
#[derive(Clone, Debug)]
pub enum Stage {
    /// Nothing has been checked yet.
    AwaitingAuth,
    /// The credential was accepted; the body has not been read.
    AwaitingBody,
    /// The body decoded to this vote, which goes to the handler.
    Dispatched(Vote),
    /// The request was turned down, for a bad credential or a bad body.
    Rejected(ErrorKind),
}

/// The mathematical value of a [`Stage`].
pub enum StageView {
    AwaitingAuth,
    AwaitingBody,
    Dispatched(VoteView),
    Rejected(ErrorKind),
}

impl View for Stage {
    type V = StageView;

    open spec fn view(&self) -> StageView {
        match *self {
            Stage::AwaitingAuth => StageView::AwaitingAuth,
            Stage::AwaitingBody => StageView::AwaitingBody,
            Stage::Dispatched(vote) => StageView::Dispatched(vote@),
            Stage::Rejected(why) => StageView::Rejected(why),
        }
    }
}

/// The value of the first header called `Authorization`, if there is one.
pub open spec fn credential_in(headers: Seq<HeaderView>) -> Option<Seq<u8>>
    decreases headers.len(),
{
    if headers.len() == 0 {
        None
    } else if same_ignoring_case(headers[0].name, "authorization"@) {
        Some(headers[0].value)
    } else {
        credential_in(headers.drop_first())
    }
}

/// Whether the headers carry the secret: there is a credential, it is UTF-8
/// text, and that text is the secret, character for character.
pub open spec fn admits(secret: Seq<char>, headers: Seq<HeaderView>) -> bool {
    match credential_in(headers) {
        Some(bytes) => valid_utf8(bytes) && decode_utf8(bytes) == secret,
        None => false,
    }
}

/// The stage that follows `stage` for a request with these headers and this
/// body. A request that was dispatched or rejected stays as it is.
pub open spec fn next_stage(
    secret: Seq<char>,
    stage: StageView,
    headers: Seq<HeaderView>,
    body: Seq<char>,
) -> StageView {
    match stage {
        StageView::AwaitingAuth => if admits(secret, headers) {
            StageView::AwaitingBody
        } else {
            StageView::Rejected(ErrorKind::Unauthorized)
        },
        StageView::AwaitingBody => match decoded(body) {
            Some(vote) => StageView::Dispatched(vote),
            None => StageView::Rejected(ErrorKind::MalformedPayload),
        },
        _ => stage,
    }
}

/// Where a request ends: the stage after authentication and decoding.
pub open spec fn outcome(secret: Seq<char>, headers: Seq<HeaderView>, body: Seq<char>) -> StageView {
    next_stage(
        secret,
        next_stage(secret, StageView::AwaitingAuth, headers, body),
        headers,
        body,
    )
}

/// The status that answers a request at `stage`: none before it has ended.
pub open spec fn status_of(stage: StageView) -> Option<u16> {
    match stage {
        StageView::Dispatched(_) => Some(STATUS_OK),
        StageView::Rejected(_) => Some(STATUS_UNAUTHORIZED),
        _ => None,
    }
}

/// Bytes are the secret's UTF-8 encoding exactly when they are valid UTF-8
/// that decodes to the secret.
pub proof fn lemma_credential_matches(bytes: Seq<u8>, secret: Seq<char>)
    ensures
        (bytes == encode_utf8(secret)) <==> (valid_utf8(bytes) && decode_utf8(bytes) == secret),
{
    vstd::utf8::encode_utf8_valid_utf8(secret);
    vstd::utf8::encode_utf8_decode_utf8(secret);
    if valid_utf8(bytes) {
        vstd::utf8::decode_utf8_encode_utf8(bytes);
    }
}

/// A request is answered with 200 exactly when its credential is admitted and
/// its body decodes; every other request gets 401, whichever check failed.
pub proof fn lemma_status_of_outcome(secret: Seq<char>, headers: Seq<HeaderView>, body: Seq<char>)
    ensures
        status_of(outcome(secret, headers, body)) == Some(
            if admits(secret, headers) && decoded(body) is Some {
                STATUS_OK
            } else {
                STATUS_UNAUTHORIZED
            },
        ),
        outcome(secret, headers, body) matches StageView::Dispatched(vote) ==> admits(
            secret,
            headers,
        ) && decoded(body) == Some(vote),
        !admits(secret, headers) ==> outcome(secret, headers, body) == StageView::Rejected(
            ErrorKind::Unauthorized,
        ),
{
}

/// The vote that a request hands to the handler, if it hands one over.
pub open spec fn delivery(secret: Seq<char>, request: (Seq<HeaderView>, Seq<char>)) -> Option<
    VoteView,
> {
    match outcome(secret, request.0, request.1) {
        StageView::Dispatched(vote) => Some(vote),
        _ => None,
    }
}

/// The votes that a run of requests hands to the handler, oldest first. Each
/// request is judged on its own: by the secret, its headers and its body.
pub open spec fn deliveries(secret: Seq<char>, requests: Seq<(Seq<HeaderView>, Seq<char>)>) -> Seq<
    VoteView,
> {
    requests.filter_map(|request: (Seq<HeaderView>, Seq<char>)| delivery(secret, request))
}

/// Repeating a request that is dispatched `n` times hands the handler the
/// same vote `n` times: no request changes what the next one meets.
pub proof fn lemma_repeated_requests(
    secret: Seq<char>,
    headers: Seq<HeaderView>,
    body: Seq<char>,
    n: nat,
)
    requires
        outcome(secret, headers, body) is Dispatched,
    ensures
        deliveries(secret, Seq::new(n, |i: int| (headers, body))) == Seq::new(
            n,
            |i: int| outcome(secret, headers, body)->Dispatched_0,
        ),
    decreases n,
{
    let requests = Seq::new(n, |i: int| (headers, body));
    let votes = Seq::new(n, |i: int| outcome(secret, headers, body)->Dispatched_0);
    if n > 0 {
        let fewer = (n - 1) as nat;
        lemma_repeated_requests(secret, headers, body, fewer);
        assert(requests.drop_last() =~= Seq::new(fewer, |i: int| (headers, body)));
        assert(votes =~= Seq::new(fewer, |i: int| outcome(secret, headers, body)->Dispatched_0)
            + seq![outcome(secret, headers, body)->Dispatched_0]);
    } else {
        assert(deliveries(secret, requests) =~= votes);
    }
}

/// Finds the value of the first header called `Authorization`.
pub fn credential(headers: &Vec<Header>) -> (found: Option<&Vec<u8>>)
    ensures
        match found {
            Some(value) => credential_in(headers.deep_view()) == Some(value@),
            None => credential_in(headers.deep_view()) is None,
        },
{
    let ghost all = headers.deep_view();
    let mut i: usize = 0;
    assert(all.skip(0) =~= all);
    while i < headers.len()
        invariant
            0 <= i <= headers.len(),
            all == headers.deep_view(),
            credential_in(all) == credential_in(all.skip(i as int)),
        decreases headers.len() - i,
    {
        proof {
            let rest = all.skip(i as int);
            assert(rest[0] == headers[i as int]@);
            assert(rest.drop_first() =~= all.skip(i + 1));
        }
        if eq_ignore_ascii_case(headers[i].name.as_str(), "authorization") {
            return Some(&headers[i].value);
        }
        i += 1;
    }
    None
}

/// Decides admission: the first `Authorization` header must hold the secret.
///
/// A request without that header is turned down, and so is one whose value
/// is not UTF-8 text or differs from the secret in any character.
pub fn authorize(secret: &str, headers: &Vec<Header>) -> (admitted: bool)
    ensures
        admitted == admits(secret@, headers.deep_view()),
{
    match credential(headers) {
        Some(value) => {
            proof {
                lemma_credential_matches(value@, secret@);
            }
            bytes_eq(value.as_slice(), secret.as_bytes())
        },
        None => false,
    }
}

/// Puts the secret and the handler together for the lifetime of the server.
pub fn webhook<T>(password: String, state: T) -> (hook: WebhookState<T>)
    ensures
        hook.password == password,
        hook.state == state,
{
    WebhookState { state, password }
}

impl Stage {
    /// The status to answer with once the request has ended: 200 for a
    /// dispatched vote, 401 for a rejection of either kind.
    pub fn status(&self) -> (code: Option<u16>)
        ensures
            code == status_of(self@),
    {
        match self {
            Stage::Dispatched(_) => Some(STATUS_OK),
            Stage::Rejected(_) => Some(STATUS_UNAUTHORIZED),
            _ => None,
        }
    }
}

impl<T> WebhookState<T> {
    /// Takes a request one stage further.
    pub fn advance(&self, stage: Stage, headers: &Vec<Header>, body: &str) -> (next: Stage)
        ensures
            next@ == next_stage(self.password@, stage@, headers.deep_view(), body@),
    {
        match stage {
            Stage::AwaitingAuth => if authorize(self.password.as_str(), headers) {
                Stage::AwaitingBody
            } else {
                Stage::Rejected(ErrorKind::Unauthorized)
            },
            Stage::AwaitingBody => match decode(body) {
                Ok(vote) => Stage::Dispatched(vote),
                Err(_) => Stage::Rejected(ErrorKind::MalformedPayload),
            },
            Stage::Dispatched(vote) => Stage::Dispatched(vote),
            Stage::Rejected(why) => Stage::Rejected(why),
        }
    }

    /// Runs a request to its end: authentication first, then decoding.
    ///
    /// The result is `Dispatched` with the decoded vote, or `Rejected`; the
    /// body of a request that failed authentication is never decoded.
    pub fn receive(&self, headers: &Vec<Header>, body: &str) -> (end: Stage)
        ensures
            end@ == outcome(self.password@, headers.deep_view(), body@),
            end@ is Dispatched || end@ is Rejected,
    {
        let authenticated = self.advance(Stage::AwaitingAuth, headers, body);
        self.advance(authenticated, headers, body)
    }
}

impl<T: VoteHandler> WebhookState<T> {
    /// Handles one request from start to finish and returns the status to
    /// answer with.
    ///
    /// The handler is called, once and with the decoded vote, exactly when
    /// the answer is 200; the call has returned by then.
    pub fn handle(&self, headers: &Vec<Header>, body: &str) -> (code: u16)
        ensures
            Some(code) == status_of(outcome(self.password@, headers.deep_view(), body@)),
    {
        match self.receive(headers, body) {
            Stage::Dispatched(vote) => {
                self.state.voted(vote);
                STATUS_OK
            },
            _ => STATUS_UNAUTHORIZED,
        }
    }
}

} // verus!
