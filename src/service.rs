//! The per-connection service: cancellation linkage for each request, the
//! response that a worker's reply becomes, and the end-of-stream notifier
//! that releases a request once its response body is gone.

use vstd::prelude::*;
use tokio_util::sync::CancellationToken;

verus! {

#[verifier::external_type_specification]
#[verifier::external_body]
pub struct ExCancellationToken(CancellationToken);

/// Relies on `CancellationToken::new`: a token that is not yet cancelled.
pub assume_specification[ CancellationToken::new ]() -> CancellationToken;

/// Relies on `CancellationToken::clone`: the clone shares the token's node
/// (the same `Arc`), so it is the same token.
pub assume_specification[ <CancellationToken as Clone>::clone ](t: &CancellationToken) -> (r: CancellationToken)
    ensures
        r == *t,
;

/// Whether `c` was made as a child of `p`: cancelling `p` cancels `c`, and
/// cancelling `c` leaves `p` alone.
pub uninterp spec fn is_child_of(c: CancellationToken, p: CancellationToken) -> bool;

/// Relies on `CancellationToken::child_token`: a new node registered under
/// the token's node, cancelled with its parent and cancellable alone.
pub assume_specification[ CancellationToken::child_token ](t: &CancellationToken) -> (r: CancellationToken)
    ensures
        is_child_of(r, *t),
;

/// Relies on `CancellationToken::cancel`: cancels the token and its children.
pub assume_specification[ CancellationToken::cancel ](t: &CancellationToken);

/// The liveness of a client connection as a worker observes it.
#[derive(PartialEq, Eq, Structural, Clone, Copy, Debug)]
pub enum ConnSync {
    /// The client still wants the response.
    Want,
    /// The client is gone.
    Recv,
}

/// The state that a connection watch takes once its request's token fires.
pub open spec fn watch_on_cancel() -> ConnSync {
    ConnSync::Recv
}

/// The state of a request's connection watch: the worker learns that the
/// client is gone as soon as the request's token has fired.
pub fn linked_watch_state(request_cancelled: bool) -> (r: ConnSync)
    ensures
        r == (if request_cancelled {
            watch_on_cancel()
        } else {
            ConnSync::Want
        }),
{
    if request_cancelled {
        ConnSync::Recv
    } else {
        ConnSync::Want
    }
}

/// How the dispatch of one request ended.
#[derive(PartialEq, Eq, Structural, Clone, Copy, Debug)]
pub enum DispatchResult {
    /// The request message could not be handed to the main worker's inbox.
    NotSent,
    /// The worker replied with a response.
    Replied,
    /// The worker replied with an error.
    WorkerFailed,
    /// The reply channel was dropped without a reply.
    ReplyDropped,
}

/// What the service answers the client.
#[derive(PartialEq, Eq, Structural, Clone, Copy, Debug)]
pub enum ResponsePlan {
    /// The worker's response, its body behind an end-of-stream notifier.
    Forward,
    /// The status code, with an empty body behind an end-of-stream notifier.
    Empty(u16),
}

pub const INTERNAL_SERVER_ERROR: u16 = 500;

/// Every failure after the request was accepted becomes an empty 500.
pub open spec fn response_for(d: DispatchResult) -> ResponsePlan {
    match d {
        DispatchResult::Replied => ResponsePlan::Forward,
        _ => ResponsePlan::Empty(500),
    }
}

pub fn plan_response(d: DispatchResult) -> (r: ResponsePlan)
    ensures
        r == response_for(d),
{
    match d {
        DispatchResult::Replied => ResponsePlan::Forward,
        _ => ResponsePlan::Empty(INTERNAL_SERVER_ERROR),
    }
}

/// The result of one notification: whether the token fired, and whether the
/// notifier is still armed afterwards.
pub open spec fn notify_step(armed: bool) -> (bool, bool) {
    (armed, false)
}

/// How many times the token fires over `n` notifications.
pub open spec fn fires(armed: bool, n: nat) -> nat
    decreases n,
{
    if n == 0 {
        0
    } else {
        (if notify_step(armed).0 { 1nat } else { 0nat }) + fires(notify_step(armed).1, (n - 1) as nat)
    }
}

/// However many times a response body is released (read to its end, aborted,
/// or dropped unread), the request's token fires exactly once.
pub proof fn lemma_notifier_fires_once(n: nat)
    requires
        n >= 1,
    ensures
        fires(true, n) == 1,
{
    lemma_disarmed_never_fires((n - 1) as nat);
}

proof fn lemma_disarmed_never_fires(n: nat)
    ensures
        fires(false, n) == 0,
    decreases n,
{
    if n > 0 {
        lemma_disarmed_never_fires((n - 1) as nat);
    }
}

/// Owns a request's cancellation token and cancels it when the response body
/// it travels with is released.
pub struct EosNotifier {
    cancel: Option<CancellationToken>,
}

impl EosNotifier {
    /// Whether the token has yet to be cancelled by this notifier.
    pub closed spec fn armed(&self) -> bool {
        self.cancel is Some
    }

    pub fn new(cancel: CancellationToken) -> (r: Self)
        ensures
            r.armed(),
    {
        EosNotifier { cancel: Some(cancel) }
    }

    pub fn is_armed(&self) -> (r: bool)
        ensures
            r == self.armed(),
    {
        self.cancel.is_some()
    }

    /// Cancels the owned token the first time; later calls do nothing.
    pub fn notify(&mut self) -> (fired: bool)
        ensures
            (fired, final(self).armed()) == notify_step(old(self).armed()),
    {
        match self.cancel.take() {
            Some(cancel) => {
                cancel.cancel();
                true
            },
            None => false,
        }
    }
}

/// The service of one client connection: it routes every request to the
/// main worker's inbox and owns the connection's cancellation token.
pub struct WorkerService<T> {
    worker_req_tx: T,
    cancel: CancellationToken,
}

impl<T> WorkerService<T> {
    /// A service for the main worker's inbox, and a handle on its connection
    /// token for the task that serves the connection.
    pub fn new(worker_req_tx: T) -> (r: (Self, CancellationToken))
        ensures
            r.0.inbox() == worker_req_tx,
            r.0.conn_token() == r.1,
    {
        let cancel = CancellationToken::new();
        let handle = cancel.clone();
        (WorkerService { worker_req_tx, cancel }, handle)
    }

    pub closed spec fn inbox(&self) -> T {
        self.worker_req_tx
    }

    /// The connection's token, of which every request token is a child.
    pub closed spec fn conn_token(&self) -> CancellationToken {
        self.cancel
    }

    /// The main worker's inbox.
    pub fn worker_req_tx(&self) -> (r: &T)
        ensures
            *r == self.inbox(),
    {
        &self.worker_req_tx
    }

    /// A fresh token for one request, cancelled with the connection.
    pub fn request_token(&self) -> (r: CancellationToken)
        ensures
            is_child_of(r, self.conn_token()),
    {
        self.cancel.child_token()
    }
}

/// Cancelling the handle that `WorkerService::new` returns (which the
/// connection task drop-guards) cancels every request token the service
/// makes, and the connection watch of a cancelled request reads `Recv`.
pub proof fn lemma_connection_cancel_reaches_requests<T>(
    s: WorkerService<T>,
    handle: CancellationToken,
    req: CancellationToken,
)
    requires
        s.conn_token() == handle,
        is_child_of(req, s.conn_token()),
    ensures
        is_child_of(req, handle),
        watch_on_cancel() == ConnSync::Recv,
{
}

} // verus!
