//! The connection worker: what is done for one connection, step by step.
//!
//! A worker reads and writes nothing itself and holds no store. It names the
//! next action, and its surroundings carry the action out and report the
//! event that came of it: they read from the transport, take the lock of the
//! session store for one operation, fetch the default page, write to the
//! transport. What to do next is decided here, and what is written in the end
//! is the answer of the router.

use vstd::prelude::*;
use vstd::string::*;
use crate::request::{
    body_of, classify, cookie_of, extract_cookie, request_of, request_text, route_of, Route,
};
use crate::response::{encode_response, wire_format, Response, ResponseView};
use crate::router::{
    delete_response, get_response, handle_delete_request, handle_get_request,
    handle_post_request, handle_put_request, login_answer, login_response, logout_answer,
    logout_response, not_found_answer, not_found_response, post_response, put_response,
    process_request, response_to, store_after,
};
use crate::session::{get_session_id, SessionStore, StoreView};

verus! {

/// What a worker waits for.
pub enum Worker {
    /// For the request to be read.
    Reading,
    /// For the session cookie of `request` to be resolved.
    Resolving { request: String },
    /// For the default page to be fetched.
    Fetching,
    /// For a session to be created.
    Creating,
    /// For a session to be removed.
    Removing,
    /// For the answer to be written.
    Writing,
    /// For nothing: the connection is done with.
    Closed,
}

/// What a worker asks of its surroundings.
pub enum Action {
    /// Read once from the transport, `READ_LIMIT` bytes at most.
    Read,
    /// Resolve `cookie` against the session store.
    Resolve { cookie: String },
    /// Fetch the default page.
    FetchDefaultPage,
    /// Create a session in the session store.
    CreateSession,
    /// Remove the session `id` from the session store.
    RemoveSession { id: String },
    /// Write all of `wire` to the transport.
    Write { wire: String },
    /// Close the connection. Nothing more will be asked.
    Close,
}

/// What the surroundings report to a worker.
pub enum Event {
    /// The request was read: `buffer` holds its bytes.
    Read { buffer: Vec<u8> },
    /// The cookie was resolved, to the live session `session_id` or to none.
    Resolved { session_id: Option<String> },
    /// The default page was fetched.
    Fetched { default_page: String },
    /// A session was created, and `id` is its identifier.
    Created { id: String },
    /// The session was removed.
    Removed,
    /// The answer was written.
    Written,
    /// The action could not be carried out.
    Failed,
}

/// A worker, as specifications see it.
pub enum WorkerView {
    Reading,
    Resolving { request: Seq<char> },
    Fetching,
    Creating,
    Removing,
    Writing,
    Closed,
}

/// An action, as specifications see it.
pub enum ActionView {
    Read,
    Resolve { cookie: Seq<char> },
    FetchDefaultPage,
    CreateSession,
    RemoveSession { id: Seq<char> },
    Write { wire: Seq<char> },
    Close,
}

/// An event, as specifications see it.
pub enum EventView {
    Read { buffer: Seq<u8> },
    Resolved { session_id: Option<Seq<char>> },
    Fetched { default_page: Seq<char> },
    Created { id: Seq<char> },
    Removed,
    Written,
    Failed,
}

impl View for Worker {
    type V = WorkerView;

    open spec fn view(&self) -> WorkerView {
        match *self {
            Worker::Reading => WorkerView::Reading,
            Worker::Resolving { request } => WorkerView::Resolving { request: request@ },
            Worker::Fetching => WorkerView::Fetching,
            Worker::Creating => WorkerView::Creating,
            Worker::Removing => WorkerView::Removing,
            Worker::Writing => WorkerView::Writing,
            Worker::Closed => WorkerView::Closed,
        }
    }
}

impl View for Action {
    type V = ActionView;

    open spec fn view(&self) -> ActionView {
        match *self {
            Action::Read => ActionView::Read,
            Action::Resolve { cookie } => ActionView::Resolve { cookie: cookie@ },
            Action::FetchDefaultPage => ActionView::FetchDefaultPage,
            Action::CreateSession => ActionView::CreateSession,
            Action::RemoveSession { id } => ActionView::RemoveSession { id: id@ },
            Action::Write { wire } => ActionView::Write { wire: wire@ },
            Action::Close => ActionView::Close,
        }
    }
}

impl View for Event {
    type V = EventView;

    open spec fn view(&self) -> EventView {
        match *self {
            Event::Read { buffer } => EventView::Read { buffer: buffer@ },
            Event::Resolved { session_id } => EventView::Resolved {
                session_id: session_id.deep_view(),
            },
            Event::Fetched { default_page } => EventView::Fetched { default_page: default_page@ },
            Event::Created { id } => EventView::Created { id: id@ },
            Event::Removed => EventView::Removed,
            Event::Written => EventView::Written,
            Event::Failed => EventView::Failed,
        }
    }
}

/// The step of a worker that has its answer: it asks for the answer to be
/// written, as the encoder writes it.
pub open spec fn answering(response: ResponseView) -> (WorkerView, ActionView) {
    (
        WorkerView::Writing,
        ActionView::Write { wire: wire_format(response.0, response.1, response.2) },
    )
}

/// The step of a worker once the session of `request` is known. What the
/// answer needs of the surroundings is asked for: the default page, a new
/// session, or a session removed. An answer that needs nothing is written.
pub open spec fn once_resolved(request: Seq<char>, session_id: Option<Seq<char>>) -> (
    WorkerView,
    ActionView,
) {
    match route_of(request) {
        Route::GetRoot => match session_id {
            Some(_) => answering(get_response(session_id, Seq::empty())),
            None => (WorkerView::Fetching, ActionView::FetchDefaultPage),
        },
        Route::PostData => answering(post_response(body_of(request))),
        Route::PutData => answering(put_response(body_of(request))),
        Route::DeleteData => answering(delete_response()),
        Route::Login => (WorkerView::Creating, ActionView::CreateSession),
        Route::Logout => match session_id {
            Some(id) => (WorkerView::Removing, ActionView::RemoveSession { id }),
            None => answering(logout_response()),
        },
        Route::Unmatched => answering(not_found_response()),
    }
}

/// The step that a worker takes on an event: where it goes, and what it asks
/// for next.
///
/// A request is read and decoded, and its cookie resolved; a request without
/// a session cookie has no session, and nothing is resolved for it. Then the
/// request is routed, the answer encoded and written, and the connection
/// closed. A failure closes the connection, and so does an event that the
/// worker did not wait for: where the request cannot be read, the default
/// page cannot be fetched or the store cannot be reached, the client gets no
/// answer.
pub open spec fn step_of(worker: WorkerView, event: EventView) -> (WorkerView, ActionView) {
    match (worker, event) {
        (WorkerView::Reading, EventView::Read { buffer }) => {
            let request = request_of(buffer);
            match cookie_of(request) {
                Some(cookie) => (WorkerView::Resolving { request }, ActionView::Resolve { cookie }),
                None => once_resolved(request, None),
            }
        },
        (WorkerView::Resolving { request }, EventView::Resolved { session_id }) => once_resolved(
            request,
            session_id,
        ),
        (WorkerView::Fetching, EventView::Fetched { default_page }) => answering(
            get_response(None, default_page),
        ),
        (WorkerView::Creating, EventView::Created { id }) => answering(login_response(id)),
        (WorkerView::Removing, EventView::Removed) => answering(logout_response()),
        (WorkerView::Writing, EventView::Written) => (WorkerView::Closed, ActionView::Close),
        _ => (WorkerView::Closed, ActionView::Close),
    }
}

/// The event that comes of `action` where nothing fails and no other worker
/// changes the store meanwhile: `buffer` holds what the client sent, `store`
/// is the session store and `default_page` the default page.
pub open spec fn event_of(
    action: ActionView,
    buffer: Seq<u8>,
    store: StoreView,
    default_page: Seq<char>,
) -> EventView {
    match action {
        ActionView::Read => EventView::Read { buffer },
        ActionView::Resolve { cookie } => EventView::Resolved {
            session_id: store.lookup(Some(cookie)),
        },
        ActionView::FetchDefaultPage => EventView::Fetched { default_page },
        ActionView::CreateSession => EventView::Created { id: store.next_id() },
        ActionView::RemoveSession { .. } => EventView::Removed,
        ActionView::Write { .. } => EventView::Written,
        ActionView::Close => EventView::Failed,
    }
}

/// The store after `action` was carried out on it.
pub open spec fn store_of(action: ActionView, store: StoreView) -> StoreView {
    match action {
        ActionView::CreateSession => store.create(),
        ActionView::RemoveSession { id } => store.remove(id),
        _ => store,
    }
}

/// How far a connection has come.
pub struct Progress {
    /// What the worker waits for.
    pub worker: WorkerView,
    /// What the worker asked for last.
    pub action: ActionView,
    /// The session store.
    pub store: StoreView,
    /// What was written to the transport, in the order of writing.
    pub written: Seq<Seq<char>>,
}

/// A connection before anything was done: the worker asks for the request,
/// and nothing is written.
pub open spec fn at_start(store: StoreView) -> Progress {
    Progress {
        worker: WorkerView::Reading,
        action: ActionView::Read,
        store,
        written: Seq::empty(),
    }
}

/// The connection after the action asked for was carried out, without
/// failure, and the worker took its step. Once the worker asks to close,
/// nothing changes any more.
pub open spec fn carried_out(progress: Progress, buffer: Seq<u8>, default_page: Seq<char>) -> Progress {
    if progress.action is Close {
        progress
    } else {
        let event = event_of(progress.action, buffer, progress.store, default_page);
        let next = step_of(progress.worker, event);
        Progress {
            worker: next.0,
            action: next.1,
            store: store_of(progress.action, progress.store),
            written: match progress.action {
                ActionView::Write { wire } => progress.written.push(wire),
                _ => progress.written,
            },
        }
    }
}

/// The connection after `n` actions were carried out.
pub open spec fn served(
    buffer: Seq<u8>,
    store: StoreView,
    default_page: Seq<char>,
    n: nat,
) -> Progress
    decreases n,
{
    if n == 0 {
        at_start(store)
    } else {
        carried_out(served(buffer, store, default_page, (n - 1) as nat), buffer, default_page)
    }
}

/// The answer to `request` as it goes over the wire, from a server whose
/// session store is `store`: the answer of the router, encoded.
pub open spec fn answer_to(request: Seq<char>, store: StoreView, default_page: Seq<char>) -> Seq<
    char,
> {
    let session_id = store.lookup(cookie_of(request));
    let response = response_to(request, session_id, store, default_page);
    wire_format(response.0, response.1, response.2)
}

/// Serves one connection in one call, for a server that has the session store
/// and the default page at hand: decodes the request that `buffer` holds,
/// resolves its cookie, routes it and encodes the answer. The default page is
/// looked at only where the answer holds it.
pub fn handle_connection(buffer: &[u8], session_store: &mut SessionStore, default_page: &str) -> (wire:
    String)
    requires
        old(session_store).wf(),
    ensures
        final(session_store).wf(),
        wire@ == answer_to(request_of(buffer@), old(session_store)@, default_page@),
        final(session_store)@ == store_after(
            request_of(buffer@),
            old(session_store)@.lookup(cookie_of(request_of(buffer@))),
            old(session_store)@,
        ),
{
    let request = request_text(buffer);
    let cookie = extract_cookie(request.as_str());
    let session_id = get_session_id(&cookie, session_store);
    let (status_line, contents, cookie_header) = process_request(
        request.as_str(),
        session_id,
        session_store,
        default_page,
    );
    encode_response(status_line, contents, cookie_header)
}

/// A worker that is served without failure, and alone on the store, is done
/// after four actions at most. It has then written the answer of the router
/// to the request, once, and nothing else, and the store is as the router
/// leaves it.
pub proof fn law_worker_answers_as_the_router(
    buffer: Seq<u8>,
    store: StoreView,
    default_page: Seq<char>,
)
    ensures
        ({
            let request = request_of(buffer);
            let end = served(buffer, store, default_page, 4);
            &&& end.worker is Closed
            &&& end.action is Close
            &&& end.written == seq![answer_to(request, store, default_page)]
            &&& end.store == store_after(request, store.lookup(cookie_of(request)), store)
        }),
{
    reveal_with_fuel(served, 5);
}

/// A failure, whenever it comes, closes the connection.
pub proof fn law_failure_closes(worker: WorkerView)
    ensures
        step_of(worker, EventView::Failed) == (WorkerView::Closed, ActionView::Close),
{
}

impl Worker {
    /// A worker for a connection that was just accepted, and what it asks
    /// for first.
    pub fn start() -> (first: (Worker, Action))
        ensures
            first.0@ == WorkerView::Reading,
            first.1@ == ActionView::Read,
    {
        (Worker::Reading, Action::Read)
    }

    /// Takes the step that `event` calls for.
    pub fn step(self, event: Event) -> (next: (Worker, Action))
        ensures
            (next.0@, next.1@) == step_of(self@, event@),
    {
        match (self, event) {
            (Worker::Reading, Event::Read { buffer }) => {
                let request = request_text(buffer.as_slice());
                match extract_cookie(request.as_str()) {
                    Some(cookie) => (Worker::Resolving { request }, Action::Resolve { cookie }),
                    None => resolved(request.as_str(), None),
                }
            },
            (Worker::Resolving { request }, Event::Resolved { session_id }) => resolved(
                request.as_str(),
                session_id,
            ),
            (Worker::Fetching, Event::Fetched { default_page }) => answer(
                handle_get_request(None, default_page.as_str()),
            ),
            (Worker::Creating, Event::Created { id }) => answer(login_answer(id.as_str())),
            (Worker::Removing, Event::Removed) => answer(logout_answer()),
            (Worker::Writing, Event::Written) => (Worker::Closed, Action::Close),
            _ => (Worker::Closed, Action::Close),
        }
    }
}

/// The step of a worker that has its answer.
fn answer(response: Response) -> (next: (Worker, Action))
    ensures
        (next.0@, next.1@) == answering(response.deep_view()),
{
    let (status_line, contents, cookie_header) = response;
    (Worker::Writing, Action::Write { wire: encode_response(status_line, contents, cookie_header) })
}

/// The step of a worker that has learnt the session of `request`.
fn resolved(request: &str, session_id: Option<String>) -> (next: (Worker, Action))
    ensures
        (next.0@, next.1@) == once_resolved(request@, session_id.deep_view()),
{
    match classify(request) {
        Route::GetRoot => match session_id {
            Some(_) => answer(handle_get_request(session_id, "")),
            None => (Worker::Fetching, Action::FetchDefaultPage),
        },
        Route::PostData => answer(handle_post_request(request)),
        Route::PutData => answer(handle_put_request(request)),
        Route::DeleteData => answer(handle_delete_request()),
        Route::Login => (Worker::Creating, Action::CreateSession),
        Route::Logout => match session_id {
            Some(id) => (Worker::Removing, Action::RemoveSession { id }),
            None => answer(logout_answer()),
        },
        Route::Unmatched => answer(not_found_answer()),
    }
}

} // verus!
