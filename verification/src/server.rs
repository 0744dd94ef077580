use crate::bridge::{decode_response, decoded};
use crate::builder::{PythonConfig, PythonConfigView};
use crate::error::{
    CustomUnicomError, ErrorView, ExceptionClass, ScriptError, ScriptErrorView, UnicomError,
    UnicomErrorKind,
};
use crate::message::{FrameView, PythonMessage, RequestView, UnicomMethod, UnicomRequest};
use crate::names::NameTable;
use crate::pending::PendingController;
use vstd::prelude::*;
use vstd::string::*;

verus! {

/// How many outbound messages may wait for the transport. A sender that
/// finds the channel full waits.
pub const OUTBOUND_CAPACITY: usize = 64;

/// How many items may wait for one background worker.
pub const WORKER_CAPACITY: usize = 64;

/// The failure of a request under a word that is no verb.
pub open spec fn unknown_method(method: Seq<char>) -> ErrorView {
    ErrorView { kind: UnicomErrorKind::MethodNotAllowed, description: "unknown method "@ + method }
}

/// The failure of a request for which no correlation id is left.
pub open spec fn exhausted() -> ErrorView {
    ErrorView { kind: UnicomErrorKind::Internal, description: "no correlation id is left"@ }
}

/// The failure of a request whose response did not come in time.
pub open spec fn timed_out() -> ErrorView {
    ErrorView { kind: UnicomErrorKind::Internal, description: "request timed out"@ }
}

/// The failure of a message for a background worker that nobody created.
pub open spec fn no_worker() -> ErrorView {
    ErrorView { kind: UnicomErrorKind::NotFound, description: "no background worker found"@ }
}

/// What happened to a background worker that waits for its next item.
#[derive(Clone, Copy, Debug, PartialEq, Eq, Structural)]
pub enum WorkerEvent {
    /// An item arrived.
    Item,
    /// The call for the last item failed.
    Failed,
    /// The channel was closed.
    Closed,
}

/// What a background worker does next.
#[derive(Clone, Copy, Debug, PartialEq, Eq, Structural)]
pub enum WorkerAction {
    /// Call the worker's callable with the server object and the item, and
    /// wait for it to end before the next item is taken.
    Invoke,
    /// End the worker.
    Stop,
}

/// What a background worker does next: it serves items one after the other
/// until the channel is closed or a call fails.
pub fn worker_step(event: WorkerEvent) -> (r: WorkerAction)
    ensures
        r == (match event {
            WorkerEvent::Item => WorkerAction::Invoke,
            WorkerEvent::Failed => WorkerAction::Stop,
            WorkerEvent::Closed => WorkerAction::Stop,
        }),
{
    match event {
        WorkerEvent::Item => WorkerAction::Invoke,
        WorkerEvent::Failed => WorkerAction::Stop,
        WorkerEvent::Closed => WorkerAction::Stop,
    }
}

/// The handle that a script has of its node.
///
/// `H` is the type of the values that stand for objects of the script, `W`
/// that of the channels that lead to background workers.
#[derive(Debug)]
pub struct PythonServer<H, W> {
    user_data: NameTable<H>,
    background_worker: NameTable<W>,
    config: PythonConfig<H>,
}

/// What a `PythonServer` stands for in contracts.
pub struct PythonServerView<H, W> {
    pub user_data: Map<Seq<char>, H>,
    pub background_worker: Map<Seq<char>, W>,
    pub config: PythonConfigView<H>,
}

impl<H, W> View for PythonServer<H, W> {
    type V = PythonServerView<H, W>;

    closed spec fn view(&self) -> PythonServerView<H, W> {
        PythonServerView {
            user_data: self.user_data@,
            background_worker: self.background_worker@,
            config: self.config@,
        }
    }
}

impl<H, W> PythonServer<H, W> {
    pub closed spec fn wf(&self) -> bool {
        &&& self.user_data.wf()
        &&& self.background_worker.wf()
        &&& self.config.wf()
    }

    /// The server object of a node whose script starts from `config`.
    pub fn new(config: PythonConfig<H>) -> (r: PythonServer<H, W>)
        requires
            config.wf(),
        ensures
            r.wf(),
            r@ == (PythonServerView::<H, W> {
                user_data: Map::empty(),
                background_worker: Map::empty(),
                config: config@,
            }),
    {
        PythonServer { user_data: NameTable::new(), background_worker: NameTable::new(), config }
    }

    /// The configuration that the script starts from.
    pub fn pyconfig(&self) -> (r: &PythonConfig<H>)
        ensures
            r@ == self@.config,
            self.wf() ==> r.wf(),
    {
        &self.config
    }

    pub fn error_not_found(&self, message: String) -> (r: ScriptError)
        ensures
            r@ == (ScriptErrorView { class: ExceptionClass::NotFound, message: message@ }),
    {
        ScriptError::new(ExceptionClass::NotFound, message)
    }

    pub fn error_parameter_invalid(&self, message: String) -> (r: ScriptError)
        ensures
            r@ == (ScriptErrorView { class: ExceptionClass::ParameterInvalid, message: message@ }),
    {
        ScriptError::new(ExceptionClass::ParameterInvalid, message)
    }

    pub fn error_input_invalid(&self, message: String) -> (r: ScriptError)
        ensures
            r@ == (ScriptErrorView { class: ExceptionClass::InputInvalid, message: message@ }),
    {
        ScriptError::new(ExceptionClass::InputInvalid, message)
    }

    pub fn error_internal(&self, message: String) -> (r: ScriptError)
        ensures
            r@ == (ScriptErrorView { class: ExceptionClass::Internal, message: message@ }),
    {
        ScriptError::new(ExceptionClass::Internal, message)
    }

    pub fn error_not_allowed(&self, message: String) -> (r: ScriptError)
        ensures
            r@ == (ScriptErrorView { class: ExceptionClass::NotAllowed, message: message@ }),
    {
        ScriptError::new(ExceptionClass::NotAllowed, message)
    }

    pub fn error_method_not_allowed(&self, message: String) -> (r: ScriptError)
        ensures
            r@ == (ScriptErrorView { class: ExceptionClass::MethodNotAllowed, message: message@ }),
    {
        ScriptError::new(ExceptionClass::MethodNotAllowed, message)
    }

    pub fn error_empty(&self, message: String) -> (r: ScriptError)
        ensures
            r@ == (ScriptErrorView { class: ExceptionClass::Empty, message: message@ }),
    {
        ScriptError::new(ExceptionClass::Empty, message)
    }

    pub fn error_parse_error(&self, message: String) -> (r: ScriptError)
        ensures
            r@ == (ScriptErrorView { class: ExceptionClass::ParseError, message: message@ }),
    {
        ScriptError::new(ExceptionClass::ParseError, message)
    }

    /// Opens an outbound request: reads the verb, takes the next correlation
    /// id from `pending`, where the request now waits, and hands out the
    /// message for the transport. The caller sends the message, waits to be
    /// woken, and then asks `response`; where it gives up, it calls `expire`
    /// or `cancel`.
    ///
    /// Fails, and leaves `pending` as it is, where `method` is no verb and
    /// where no correlation id is left.
    pub fn request(
        &self,
        pending: &mut PendingController,
        node: String,
        api: String,
        method: &str,
        parameters: serde_json::Map<String, serde_json::Value>,
    ) -> (r: Result<PythonMessage, CustomUnicomError>)
        requires
            old(pending).wf(),
        ensures
            final(pending).wf(),
            match UnicomMethod::spec_parse(method@) {
                None => {
                    &&& r is Err
                    &&& r->Err_0@ == unknown_method(method@)
                    &&& final(pending)@ == old(pending)@
                },
                Some(verb) => match old(pending)@.next_id() {
                    None => {
                        &&& r is Err
                        &&& r->Err_0@ == exhausted()
                        &&& final(pending)@ == old(pending)@
                    },
                    Some(id) => {
                        &&& r is Ok
                        &&& r->Ok_0@ == (FrameView::Request {
                            id,
                            data: RequestView {
                                id: 0,
                                node_name: node@,
                                name: api@,
                                method: verb,
                                parameters,
                            },
                        })
                        &&& final(pending)@ == old(pending)@.allocate()
                    },
                },
            },
    {
        let verb = match UnicomMethod::parse(method) {
            Some(verb) => verb,
            None => {
                let mut description = String::from_str("unknown method ");
                description.append(method);
                return Err(
                    CustomUnicomError {
                        error: UnicomError { kind: UnicomErrorKind::MethodNotAllowed, description },
                    },
                );
            },
        };
        match pending.allocate() {
            Some(id) => Ok(
                PythonMessage::Request {
                    id,
                    data: UnicomRequest { id: 0, node_name: node, name: api, method: verb, parameters },
                },
            ),
            None => Err(
                CustomUnicomError {
                    error: UnicomError::new(UnicomErrorKind::Internal, "no correlation id is left"),
                },
            ),
        }
    }

    /// Keeps `object` under `name`, in place of what was kept there.
    pub fn create_user_data(&mut self, name: String, object: H)
        requires
            old(self).wf(),
        ensures
            final(self).wf(),
            final(self)@ == (PythonServerView {
                user_data: old(self)@.user_data.insert(name@, object),
                ..old(self)@
            }),
    {
        self.user_data.insert(name, object);
    }

    /// What is kept under `name`.
    pub fn get_user_data(&self, name: &str) -> (r: Option<&H>)
        requires
            self.wf(),
        ensures
            r is Some <==> self@.user_data.contains_key(name@),
            r is Some ==> *r->Some_0 == self@.user_data[name@],
    {
        self.user_data.get(name)
    }

    /// Registers the background worker `name`, reached through `channel`,
    /// in place of the worker of that name. The caller starts the worker,
    /// which then goes by `worker_step`.
    pub fn create_bg_worker(&mut self, name: String, channel: W)
        requires
            old(self).wf(),
        ensures
            final(self).wf(),
            final(self)@ == (PythonServerView {
                background_worker: old(self)@.background_worker.insert(name@, channel),
                ..old(self)@
            }),
    {
        self.background_worker.insert(name, channel);
    }

    /// The channel on which to send an item to the background worker
    /// `name`, for a sender that may wait without blocking its thread.
    pub fn send_bg_worker(&self, name: &str) -> (r: Result<&W, CustomUnicomError>)
        requires
            self.wf(),
        ensures
            r is Ok <==> self@.background_worker.contains_key(name@),
            r is Ok ==> *r->Ok_0 == self@.background_worker[name@],
            r is Err ==> r->Err_0@ == no_worker(),
    {
        match self.background_worker.get(name) {
            Some(channel) => Ok(channel),
            None => Err(
                CustomUnicomError {
                    error: UnicomError::new(UnicomErrorKind::NotFound, "no background worker found"),
                },
            ),
        }
    }

    /// The channel on which to send an item to the background worker
    /// `name`, for a sender outside the scheduler, which blocks its thread
    /// until the item is taken in.
    pub fn send_bg_worker_thread_safe(&self, name: &str) -> (r: Result<&W, CustomUnicomError>)
        requires
            self.wf(),
        ensures
            r is Ok <==> self@.background_worker.contains_key(name@),
            r is Ok ==> *r->Ok_0 == self@.background_worker[name@],
            r is Err ==> r->Err_0@ == no_worker(),
    {
        self.send_bg_worker(name)
    }
}

/// Takes the outcome of outbound request `id` from `pending`. `None`
/// says that the response has not come: the caller waits on. A response
/// hands out the JSON value that its payload writes; a failure that
/// came in place of the response, or that `pending` answers with, is
/// handed on.
pub fn response(pending: &mut PendingController, id: u64) -> (r: Option<
    Result<serde_json::Value, CustomUnicomError>,
>)
    requires
        old(pending).wf(),
    ensures
        final(pending).wf(),
        final(pending)@ == old(pending)@.take(id),
        match old(pending)@.taken(id) {
            None => r is None,
            Some(Err(error)) => r is Some && r->Some_0 is Err && r->Some_0->Err_0@ == error,
            Some(Ok(data)) => r is Some && (match decoded(data) {
                Ok(value) => r->Some_0 == Ok::<serde_json::Value, CustomUnicomError>(value),
                Err(error) => r->Some_0 is Err && r->Some_0->Err_0@ == error,
            }),
        },
{
    match pending.take(id) {
        None => None,
        Some(Err(error)) => Some(Err(CustomUnicomError { error })),
        Some(Ok(data)) => Some(decode_response(data)),
    }
}

/// Gives up outbound request `id` because its response did not come in
/// time: the entry leaves `pending`, so that a response that comes later
/// is dropped, and the caller gets the failure to report.
pub fn expire(pending: &mut PendingController, id: u64) -> (r: CustomUnicomError)
    requires
        old(pending).wf(),
    ensures
        final(pending).wf(),
        final(pending)@ == old(pending)@.abandon(id),
        r@ == timed_out(),
{
    pending.abandon(id);
    CustomUnicomError { error: UnicomError::new(UnicomErrorKind::Internal, "request timed out") }
}

/// Gives up outbound request `id` because its caller went away: the
/// entry leaves `pending`, so that a response that comes later is
/// dropped.
pub fn cancel(pending: &mut PendingController, id: u64)
    requires
        old(pending).wf(),
    ensures
        final(pending).wf(),
        final(pending)@ == old(pending)@.abandon(id),
{
    pending.abandon(id);
}

} // verus!
