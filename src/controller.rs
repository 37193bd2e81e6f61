//! Typed request/response operations on top of the pending-request table.
//!
//! Emitting a request and waiting on its answer channel happen outside; this
//! module decides what is sent and keeps the table that answers are matched
//! against.

use crate::ids::new_request_id;
use crate::protocol::{RequestKind, UIRequest, UIResponse};
use crate::registry::{Delivery, PendingRequests};
use tokio::sync::oneshot::error::RecvError;
use tokio::sync::oneshot::{Receiver, Sender};
use vstd::prelude::*;

verus! {

/// The title under which the editor is opened.
pub const EDITOR_TITLE: &'static str = "Monaco Editor";

/// The text of the error that a dropped answer channel turns into.
pub const CANCELLED_TEXT: &'static str = "Request cancelled";

/// The table gained a slot under `id`, which no request waited under before,
/// and kept every other slot.
pub open spec fn opened(
    before: Map<Seq<char>, Sender<String>>,
    after: Map<Seq<char>, Sender<String>>,
    id: Seq<char>,
) -> bool {
    &&& !before.contains_key(id)
    &&& after == before.insert(id, after[id])
}

/// Giving up on a request that was just opened leaves the table as it was
/// before the request was opened.
pub proof fn lemma_abandon_restores(
    before: Map<Seq<char>, Sender<String>>,
    after: Map<Seq<char>, Sender<String>>,
    id: Seq<char>,
)
    requires
        opened(before, after, id),
    ensures
        after.remove(id) == before,
{
    assert(after.remove(id) =~= before);
}

/// What an error says, in words.
pub open spec fn error_text(e: UiError) -> Seq<char> {
    match e {
        UiError::Transport(m) => m@,
        UiError::Cancelled => CANCELLED_TEXT@,
    }
}

/// A request that waits for an answer, with the channel the answer arrives on.
pub struct Prompt {
    pub request: UIRequest,
    pub answer: Receiver<String>,
}

/// Why an operation that talks to the presentation layer failed.
#[derive(Debug)]
pub enum UiError {
    /// The request could not be handed to the presentation layer.
    Transport(String),
    /// The answer channel was torn down before an answer arrived.
    Cancelled,
}

impl UiError {
    /// The error described in words.
    pub fn message(&self) -> (r: String)
        ensures
            r@ == error_text(*self),
    {
        match self {
            UiError::Transport(m) => m.clone(),
            UiError::Cancelled => String::from_str(CANCELLED_TEXT),
        }
    }
}

/// Builds requests and matches answers to the requests that wait for them.
pub struct UIController {
    pending: PendingRequests,
}

impl View for UIController {
    type V = Map<Seq<char>, Sender<String>>;

    /// The answer slots that wait, by request id.
    closed spec fn view(&self) -> Map<Seq<char>, Sender<String>> {
        self.pending@
    }
}

impl UIController {
    /// A controller with nothing pending.
    pub fn new() -> (r: UIController)
        ensures
            r@ == Map::<Seq<char>, Sender<String>>::empty(),
    {
        UIController { pending: PendingRequests::new() }
    }

    fn open_slot(&mut self, candidate: String) -> (r: (String, Receiver<String>))
        ensures
            opened(old(self)@, final(self)@, r.0@),
            !old(self)@.contains_key(candidate@) ==> r.0@ == candidate@,
            r.0@.len() >= candidate@.len(),
    {
        let id = self.pending.unused_id(candidate);
        let (sender, receiver) = tokio::sync::oneshot::channel();
        self.pending.register(id.clone(), sender);
        (id, receiver)
    }

    /// Registers an answer slot under `id`, or under an id made from it when
    /// `id` is already taken, and builds the text-input request that goes
    /// with it.
    pub fn ask_input_with_id(&mut self, id: String, message: &str) -> (r: Prompt)
        ensures
            !old(self)@.contains_key(id@) ==> r.request.id@ == id@,
            r.request.id@.len() >= id@.len(),
            r.request.kind == RequestKind::Input,
            r.request.message@ == message@,
            r.request.options is None,
            r.request.html_content is None,
            opened(old(self)@, final(self)@, r.request.id@),
    {
        let (id, answer) = self.open_slot(id);
        Prompt { request: UIRequest::input(id, message), answer }
    }

    /// Asks for a line of text under a fresh id.
    pub fn ask_input(&mut self, message: &str) -> (r: Prompt)
        ensures
            r.request.id@.len() >= 36,
            r.request.kind == RequestKind::Input,
            r.request.message@ == message@,
            r.request.options is None,
            r.request.html_content is None,
            opened(old(self)@, final(self)@, r.request.id@),
    {
        self.ask_input_with_id(new_request_id(), message)
    }

    /// Registers an answer slot under `id`, or under an id made from it when
    /// `id` is already taken, and builds the selection request that goes with
    /// it. Which label comes back is up to the presentation layer.
    pub fn ask_select_with_id(&mut self, id: String, message: &str, options: Vec<String>) -> (r:
        Prompt)
        ensures
            !old(self)@.contains_key(id@) ==> r.request.id@ == id@,
            r.request.id@.len() >= id@.len(),
            r.request.kind == RequestKind::Select,
            r.request.message@ == message@,
            r.request.options == Some(options),
            r.request.html_content is None,
            opened(old(self)@, final(self)@, r.request.id@),
    {
        let (id, answer) = self.open_slot(id);
        Prompt { request: UIRequest::select(id, message, options), answer }
    }

    /// Asks for one of `options` under a fresh id.
    pub fn ask_select(&mut self, message: &str, options: Vec<String>) -> (r: Prompt)
        ensures
            r.request.id@.len() >= 36,
            r.request.kind == RequestKind::Select,
            r.request.message@ == message@,
            r.request.options == Some(options),
            r.request.html_content is None,
            opened(old(self)@, final(self)@, r.request.id@),
    {
        self.ask_select_with_id(new_request_id(), message, options)
    }

    /// Registers an answer slot under `id`, or under an id made from it when
    /// `id` is already taken, and builds the request that opens the editor on
    /// `payload`; the answer is what the editor hands back.
    pub fn show_editor_with_id(&mut self, id: String, payload: String) -> (r: Prompt)
        ensures
            !old(self)@.contains_key(id@) ==> r.request.id@ == id@,
            r.request.id@.len() >= id@.len(),
            r.request.kind == RequestKind::Editor,
            r.request.message@ == EDITOR_TITLE@,
            r.request.options is None,
            r.request.html_content == Some(payload),
            opened(old(self)@, final(self)@, r.request.id@),
    {
        let (id, answer) = self.open_slot(id);
        Prompt { request: UIRequest::editor(id, EDITOR_TITLE, payload), answer }
    }

    /// Opens the editor on `payload` under a fresh id and waits for it.
    pub fn show_editor(&mut self, payload: String) -> (r: Prompt)
        ensures
            r.request.id@.len() >= 36,
            r.request.kind == RequestKind::Editor,
            r.request.message@ == EDITOR_TITLE@,
            r.request.options is None,
            r.request.html_content == Some(payload),
            opened(old(self)@, final(self)@, r.request.id@),
    {
        self.show_editor_with_id(new_request_id(), payload)
    }

    /// Opens the editor on `payload` without waiting for it.
    pub fn show_editor_sync(&self, payload: String) -> (r: UIRequest)
        ensures
            r.id@.len() == 36,
            r.kind == RequestKind::Editor,
            r.message@ == EDITOR_TITLE@,
            r.options is None,
            r.html_content == Some(payload),
    {
        UIRequest::editor(new_request_id(), EDITOR_TITLE, payload)
    }

    /// Shows HTML; nothing waits for an answer.
    pub fn show_html(&self, message: &str, html_content: String) -> (r: UIRequest)
        ensures
            r.id@.len() == 36,
            r.kind == RequestKind::Html,
            r.message@ == message@,
            r.options is None,
            r.html_content == Some(html_content),
    {
        UIRequest::html(new_request_id(), message, html_content)
    }

    /// Whether a request still waits under `id`.
    pub fn is_pending(&self, id: &str) -> (r: bool)
        ensures
            r == self@.contains_key(id@),
    {
        self.pending.is_pending(id)
    }

    /// Hands an answer to the request it names. An answer for an id that
    /// nothing waits under (unknown, or answered before) is dropped.
    pub fn ui_response(&mut self, response: UIResponse) -> (r: Delivery)
        ensures
            final(self)@ == old(self)@.remove(response.id@),
            (r == Delivery::UnknownId) <==> !old(self)@.contains_key(response.id@),
    {
        let UIResponse { id, value } = response;
        self.pending.deliver(id.as_str(), value)
    }

    /// Gives up on the request under `id`, for instance when it could not be
    /// emitted; its waiter sees the channel close. Returns whether one waited.
    pub fn abandon(&mut self, id: &str) -> (r: bool)
        ensures
            final(self)@ == old(self)@.remove(id@),
            r == old(self)@.contains_key(id@),
    {
        self.pending.abandon(id)
    }

    /// What a finished wait gives the caller: the answer, or a cancellation
    /// when the channel closed without one.
    pub fn settle(outcome: Result<String, RecvError>) -> (r: Result<String, UiError>)
        ensures
            outcome matches Ok(v) ==> r == Ok::<String, UiError>(v),
            outcome is Err ==> r matches Err(UiError::Cancelled),
    {
        match outcome {
            Ok(v) => Ok(v),
            Err(_) => Err(UiError::Cancelled),
        }
    }
}

} // verus!
