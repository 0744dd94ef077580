use crate::builder::{dangling_endpoint, PythonConfig, PythonConfigView};
use crate::config::{Api, NodeConfig, NodeConfigView};
use crate::error::{CustomUnicomError, ErrorView, UnicomError, UnicomErrorKind};
use crate::message::{FrameView, PythonMessage, RequestView, UnicomMethod, UnicomRequest, UnixMessage};
use crate::pending::{not_found, PendingController};
use crate::text::{decimal, decimal_digits};
use vstd::prelude::*;
use vstd::string::*;

verus! {

/// Where a node stands in its life.
#[derive(Clone, Copy, Debug, PartialEq, Eq, Structural)]
pub enum AppState {
    Created,
    Initializing,
    Ready,
    Running,
    Closing,
    Closed,
}

/// Why a node shuts down.
#[derive(Clone, Copy, Debug, PartialEq, Eq, Structural)]
pub enum ShutdownReason {
    /// A signal asked the process to end.
    Signal,
    /// The stream could not be read: the peer went away, or the frame was
    /// broken.
    ReadError,
    /// The peer sent `Quit`.
    PeerQuit,
    /// The peer refused the configuration.
    ConfigFailure,
    /// The long-lived task of the script ended.
    RunReturned,
    /// The node could not be initialized.
    InitFailure,
}

impl AppState {
    /// How far a node has come in its life.
    pub open spec fn rank(self) -> nat {
        match self {
            AppState::Created => 0,
            AppState::Initializing => 1,
            AppState::Ready => 2,
            AppState::Running => 3,
            AppState::Closing => 4,
            AppState::Closed => 5,
        }
    }
}

/// One event in the life of a node, as contracts see it.
pub enum AppEvent<H> {
    Initialize,
    Ready { config: PythonConfigView<H>, run: Option<H>, close: Option<H> },
    Start,
    Shutdown { reason: ShutdownReason },
    Close,
}

/// The failure that releases the callers that wait when the node closes.
pub open spec fn closed() -> ErrorView {
    ErrorView { kind: UnicomErrorKind::Internal, description: "node closed"@ }
}

/// The failure of a request for an API id that the node does not have.
pub open spec fn unknown_api(id: u64) -> ErrorView {
    ErrorView {
        kind: UnicomErrorKind::NotFound,
        description: "api_id not found "@ + decimal_digits(id as nat),
    }
}

/// The failure of a request under a verb that the API does not declare.
pub open spec fn undeclared_method(method: UnicomMethod) -> ErrorView {
    ErrorView {
        kind: UnicomErrorKind::MethodNotAllowed,
        description: "method not allowed "@ + method.spec_name(),
    }
}

/// The failure of a configuration that arrives at a node which does not
/// wait for one.
pub open spec fn not_initializing() -> ErrorView {
    ErrorView { kind: UnicomErrorKind::NotAllowed, description: "node is not initializing"@ }
}

/// The name of the file that holds the script of an application.
pub open spec fn script_name() -> Seq<char> {
    "app.py"@
}

/// The path of the script of the application in directory `dir`.
pub open spec fn script_path_of(dir: Seq<char>) -> Seq<char> {
    if dir.len() == 0 || dir.last() == '/' {
        dir + script_name()
    } else {
        dir + "/"@ + script_name()
    }
}

/// The path of the script of the application in directory `dir`.
pub fn script_path(dir: &str) -> (r: String)
    ensures
        r@ == script_path_of(dir@),
{
    let n = dir.unicode_len();
    let mut path = String::from_str(dir);
    if n > 0 && dir.get_char(n - 1) != '/' {
        path.append("/");
    }
    path.append("app.py");
    path
}

/// What the reader of the stream does with a frame.
#[derive(Debug, PartialEq)]
pub enum ReaderAction {
    /// The outcome of request `id` is stored: wake its caller.
    Wake { id: u64 },
    /// The frame answers no request that waits: note the failure and go on.
    Dropped { error: UnicomError },
    /// Serve the request in a task of its own and answer under `id`.
    Execute { id: u64, data: UnicomRequest },
    /// The node shuts down: read no more.
    Stop,
}

/// What a `ReaderAction` stands for in contracts.
pub enum ReaderActionView {
    Wake { id: u64 },
    Dropped { error: ErrorView },
    Execute { id: u64, data: RequestView },
    Stop,
}

impl View for ReaderAction {
    type V = ReaderActionView;

    open spec fn view(&self) -> ReaderActionView {
        match self {
            ReaderAction::Wake { id } => ReaderActionView::Wake { id: *id },
            ReaderAction::Dropped { error } => ReaderActionView::Dropped { error: error@ },
            ReaderAction::Execute { id, data } => ReaderActionView::Execute { id: *id, data: data@ },
            ReaderAction::Stop => ReaderActionView::Stop,
        }
    }
}

/// What the writer of the stream does with what it took from the outbound
/// channel.
#[derive(Debug, PartialEq)]
pub enum WriterAction {
    /// Write the frame and take the next message.
    Send(UnixMessage),
    /// Write the frame and end.
    SendLast(UnixMessage),
    /// End without writing.
    Stop,
}

/// What the writer does with `message`: a request goes out under its id,
/// `Quit` goes out as the last frame, and a closed channel (`None`) ends the
/// writer.
pub fn outbound(message: Option<PythonMessage>) -> (r: WriterAction)
    ensures
        match message {
            Some(PythonMessage::Request { id, data }) => r matches WriterAction::Send(frame)
                && frame@ == (FrameView::Request { id, data: data@ }),
            Some(PythonMessage::Quit) => r matches WriterAction::SendLast(frame) && frame@
                == FrameView::Quit,
            None => r == WriterAction::Stop,
        },
{
    match message {
        Some(PythonMessage::Request { id, data }) => WriterAction::Send(
            UnixMessage::Request { id, data },
        ),
        Some(PythonMessage::Quit) => WriterAction::SendLast(UnixMessage::Quit),
        None => WriterAction::Stop,
    }
}

/// The frame that answers the inbound request `id`: the payload in a
/// response, a failure in an error frame.
pub fn reply(id: u64, result: Result<Vec<u8>, CustomUnicomError>) -> (r: UnixMessage)
    ensures
        r@ == (match result {
            Ok(data) => FrameView::Response { id, data: data@ },
            Err(e) => FrameView::Error { id, error: e@ },
        }),
{
    match result {
        Ok(data) => UnixMessage::Response { id, data },
        Err(e) => UnixMessage::Error { id, error: e.error },
    }
}

/// What is to be done when a node closes.
#[derive(Debug, PartialEq)]
pub struct ClosePlan {
    /// The message to put on the outbound channel: the writer ends with it.
    pub message: PythonMessage,
    /// Whether the script has something to call, which is to be waited for.
    pub call_close: bool,
    /// The requests that were released with `closed()`: wake their callers.
    pub released: Vec<u64>,
}

/// A node: the configuration and the handlers that its script gave it, and
/// where it stands in its life.
///
/// `H` is the type of the values that stand for objects of the script.
#[derive(Debug)]
pub struct App<H> {
    api_objects: Vec<H>,
    run_object: Option<H>,
    close_object: Option<H>,
    config: NodeConfig,
    state: AppState,
    reason: Option<ShutdownReason>,
}

/// What an `App` stands for in contracts.
pub struct AppView<H> {
    pub state: AppState,
    /// Why the node shuts down: the reason that came first.
    pub reason: Option<ShutdownReason>,
    pub config: NodeConfigView,
    /// The handler of each API, at the position that is the API's id.
    pub api_objects: Seq<H>,
    /// The long-lived task of the script.
    pub run_object: Option<H>,
    /// What the script wants called when the node closes.
    pub close_object: Option<H>,
}

impl<H> View for App<H> {
    type V = AppView<H>;

    closed spec fn view(&self) -> AppView<H> {
        AppView {
            state: self.state,
            reason: self.reason,
            config: self.config@,
            api_objects: self.api_objects@,
            run_object: self.run_object,
            close_object: self.close_object,
        }
    }
}

impl<H> AppView<H> {
    /// Every API has its handler at its id, every endpoint names a path or
    /// APIs of the node, and a node shuts down for a reason.
    pub open spec fn wf(self) -> bool {
        &&& self.api_objects.len() == self.config.apis.len()
        &&& self.config.dense()
        &&& self.config.distinct()
        &&& self.config.complete()
        &&& (self.state == AppState::Closing || self.state == AppState::Closed)
            == self.reason is Some
    }

    /// Whether the node still has to shut down.
    pub open spec fn alive(self) -> bool {
        self.state != AppState::Closing && self.state != AppState::Closed
    }

    /// The node after a notice to shut down for `reason`: the first notice
    /// moves it to `Closing`, any later one changes nothing.
    pub open spec fn shutdown(self, reason: ShutdownReason) -> AppView<H> {
        if self.alive() {
            AppView { state: AppState::Closing, reason: Some(reason), ..self }
        } else {
            self
        }
    }

    /// The node after `initialize`: a node that was created is
    /// initializing, any other stays as it is.
    pub open spec fn initialize(self) -> AppView<H> {
        if self.state == AppState::Created {
            AppView { state: AppState::Initializing, ..self }
        } else {
            self
        }
    }

    /// Whether `ready` takes `config`: the node is initializing, and every
    /// endpoint of `config` names a path or APIs of the node.
    pub open spec fn accepts(self, config: PythonConfigView<H>) -> bool {
        self.state == AppState::Initializing && config.config.complete()
    }

    /// The node after `ready`: where it takes `config`, it is ready and has
    /// what the script collected; a close handler that was registered in
    /// `config` goes before `close`. Otherwise it stays as it is.
    pub open spec fn ready(
        self,
        config: PythonConfigView<H>,
        run: Option<H>,
        close: Option<H>,
    ) -> AppView<H> {
        if self.accepts(config) {
            AppView {
                state: AppState::Ready,
                reason: self.reason,
                config: config.config,
                api_objects: config.api_objects,
                run_object: run,
                close_object: match config.close_handler {
                    Some(handler) => Some(handler),
                    None => close,
                },
            }
        } else {
            self
        }
    }

    /// The node after `start`: a node that was ready runs, any other stays
    /// as it is.
    pub open spec fn start(self) -> AppView<H> {
        if self.state == AppState::Ready {
            AppView { state: AppState::Running, ..self }
        } else {
            self
        }
    }

    /// The node after `close`: a node that shuts down is closed, any other
    /// stays as it is.
    pub open spec fn close(self) -> AppView<H> {
        if self.state == AppState::Closing {
            AppView { state: AppState::Closed, ..self }
        } else {
            self
        }
    }

    /// The node after one event of its life.
    pub open spec fn step(self, event: AppEvent<H>) -> AppView<H> {
        match event {
            AppEvent::Initialize => self.initialize(),
            AppEvent::Ready { config, run, close } => self.ready(config, run, close),
            AppEvent::Start => self.start(),
            AppEvent::Shutdown { reason } => self.shutdown(reason),
            AppEvent::Close => self.close(),
        }
    }

    /// What serves a request for API `id` under `method`: the handler at
    /// `id`, where the API exists and declares the verb.
    pub open spec fn handler(self, id: u64, method: UnicomMethod) -> Result<H, ErrorView> {
        if id >= self.api_objects.len() {
            Err(unknown_api(id))
        } else if !self.config.apis[id as int].declares(method) {
            Err(undeclared_method(method))
        } else {
            Ok(self.api_objects[id as int])
        }
    }

    /// The code with which the process ends: 0, unless the node could not be
    /// initialized.
    pub open spec fn exit_code(self) -> u8 {
        if self.reason == Some(ShutdownReason::InitFailure) {
            1
        } else {
            0
        }
    }
}

impl<H> App<H> {
    /// No table in the configuration holds a name twice.
    pub closed spec fn inv(&self) -> bool {
        self.config.wf()
    }

    /// The tables are in order, and the node stands for a well-formed view.
    pub open spec fn wf(&self) -> bool {
        self.inv() && self@.wf()
    }

    /// A node that was created and knows nothing of its script yet.
    pub fn new() -> (r: App<H>)
        ensures
            r.wf(),
            r@ == (AppView::<H> {
                state: AppState::Created,
                reason: None,
                config: NodeConfigView::named(Seq::empty()),
                api_objects: Seq::empty(),
                run_object: None,
                close_object: None,
            }),
    {
        let config = NodeConfig::new("");
        proof {
            reveal_strlit("");
            assert(""@ =~= Seq::<char>::empty());
        }
        App {
            api_objects: Vec::new(),
            run_object: None,
            close_object: None,
            config,
            state: AppState::Created,
            reason: None,
        }
    }

    pub fn state(&self) -> (r: AppState)
        ensures
            r == self@.state,
    {
        self.state
    }

    /// Why the node shuts down.
    pub fn reason(&self) -> (r: Option<ShutdownReason>)
        ensures
            r == self@.reason,
    {
        self.reason
    }

    /// What the node tells the broker of itself: the first frame on the
    /// stream.
    pub fn config(&self) -> (r: &NodeConfig)
        ensures
            r@ == self@.config,
    {
        &self.config
    }

    /// Begins the initialization: the caller now loads the script and lets
    /// it fill a `PythonConfig`. Says whether the node was `Created`; a node
    /// in any other state stays as it is.
    pub fn initialize(&mut self) -> (r: bool)
        requires
            old(self).wf(),
        ensures
            final(self).wf(),
            r == (old(self)@.state == AppState::Created),
            final(self)@ == old(self)@.initialize(),
    {
        match self.state {
            AppState::Created => {
                self.state = AppState::Initializing;
                true
            },
            _ => false,
        }
    }

    /// Ends the initialization with what the script collected: `config`,
    /// and the callables `run` and `close` of the script, where it has
    /// them. A close handler that the script registered in `config` goes
    /// before `close`.
    ///
    /// Succeeds, and makes the node `Ready`, where the node is
    /// `Initializing` and every endpoint of `config` names a path or APIs of
    /// the node. Fails otherwise, and leaves the node as it is.
    pub fn ready(&mut self, config: PythonConfig<H>, run: Option<H>, close: Option<H>) -> (r:
        Result<(), CustomUnicomError>)
        requires
            old(self).wf(),
            config.wf(),
        ensures
            final(self).wf(),
            final(self)@ == old(self)@.ready(config@, run, close),
            r is Ok <==> old(self)@.accepts(config@),
            r matches Err(e) ==> (if old(self)@.state != AppState::Initializing {
                e@ == not_initializing()
            } else {
                exists|i: int|
                    #[trigger] config@.config.first_dangling(i) && e@ == dangling_endpoint(
                        config@.config.endpoints[i].regex,
                    )
            }),
    {
        match self.state {
            AppState::Initializing => {},
            _ => {
                return Err(
                    CustomUnicomError {
                        error: UnicomError::new(
                            UnicomErrorKind::NotAllowed,
                            "node is not initializing",
                        ),
                    },
                );
            },
        }
        match config.finish() {
            Ok(finished) => {
                self.config = finished.config;
                self.api_objects = finished.api_objects;
                self.run_object = run;
                self.close_object = match finished.close_handler {
                    Some(handler) => Some(handler),
                    None => close,
                };
                self.state = AppState::Ready;
                Ok(())
            },
            Err(e) => Err(e),
        }
    }

    /// Starts the node: the caller sends `config()` as the first frame,
    /// starts the reader and the writer of the stream and, where the node is
    /// `runnable`, schedules the long-lived task of the script. Says whether
    /// the node was `Ready`; a node in any other state stays as it is.
    pub fn start(&mut self) -> (r: bool)
        requires
            old(self).wf(),
        ensures
            final(self).wf(),
            r == (old(self)@.state == AppState::Ready),
            final(self)@ == old(self)@.start(),
    {
        match self.state {
            AppState::Ready => {
                self.state = AppState::Running;
                true
            },
            _ => false,
        }
    }

    /// Whether the script has a long-lived task.
    pub fn runnable(&self) -> (r: bool)
        ensures
            r == self@.run_object is Some,
    {
        self.run_object.is_some()
    }

    /// The long-lived task of the script, to be called with the server
    /// object. When it ends, the node shuts down for `RunReturned`.
    pub fn run(&self) -> (r: Option<&H>)
        ensures
            r is Some <==> self@.run_object is Some,
            r is Some ==> *r->Some_0 == self@.run_object->Some_0,
    {
        self.run_object.as_ref()
    }

    /// What the script wants called, with the server object, when the node
    /// closes.
    pub fn close_object(&self) -> (r: Option<&H>)
        ensures
            r is Some <==> self@.close_object is Some,
            r is Some ==> *r->Some_0 == self@.close_object->Some_0,
    {
        self.close_object.as_ref()
    }

    /// Takes notice that the node is to shut down. The first notice moves
    /// the node to `Closing` and is answered with `true`: the caller then
    /// closes the node. Any later notice changes nothing.
    pub fn shutdown(&mut self, reason: ShutdownReason) -> (r: bool)
        requires
            old(self).wf(),
        ensures
            final(self).wf(),
            r == old(self)@.alive(),
            final(self)@ == old(self)@.shutdown(reason),
    {
        match self.state {
            AppState::Closing => false,
            AppState::Closed => false,
            _ => {
                self.state = AppState::Closing;
                self.reason = Some(reason);
                true
            },
        }
    }

    /// Closes a node that shuts down: every request that waits in `pending`
    /// is released with the failure `closed()`, and the node is `Closed`.
    /// The plan says what the caller does: put `Quit` on the outbound
    /// channel, wait for the close handler of the script, wake the callers
    /// that were released, and abort the tasks that still run.
    ///
    /// Only a node that is `Closing` closes: for any other the result is
    /// `None`, and nothing changes. So a node hands out one plan, and one
    /// `Quit`, in its life.
    pub fn close(&mut self, pending: &mut PendingController) -> (r: Option<ClosePlan>)
        requires
            old(self).wf(),
            old(pending).wf(),
        ensures
            final(self).wf(),
            final(pending).wf(),
            r is Some <==> old(self)@.state == AppState::Closing,
            match r {
                Some(plan) => {
                    &&& final(pending)@ == old(pending)@.drain(closed())
                    &&& plan.message@ == FrameView::Quit
                    &&& plan.call_close == old(self)@.close_object is Some
                    &&& forall|id: u64|
                        plan.released@.contains(id) <==> old(pending)@.is_waiting(id)
                    &&& forall|i: int, j: int|
                        0 <= i < j < plan.released@.len() ==> plan.released@[i]
                            < plan.released@[j]
                },
                None => final(pending)@ == old(pending)@,
            },
            final(self)@ == old(self)@.close(),
    {
        match self.state {
            AppState::Closing => {
                let error = UnicomError::new(UnicomErrorKind::Internal, "node closed");
                let released = pending.drain(&error);
                self.state = AppState::Closed;
                Some(
                    ClosePlan {
                        message: PythonMessage::Quit,
                        call_close: self.close_object.is_some(),
                        released,
                    },
                )
            },
            _ => None,
        }
    }

    /// The code with which the process ends.
    pub fn exit_code(&self) -> (r: u8)
        ensures
            r == self@.exit_code(),
    {
        match self.reason {
            Some(ShutdownReason::InitFailure) => 1,
            _ => 0,
        }
    }

    /// Whether API `api` answers under `method`.
    fn declares(api: &Api, method: UnicomMethod) -> (r: bool)
        ensures
            r == api@.declares(method),
    {
        let mut i: usize = 0;
        while i < api.methods.len()
            invariant
                i <= api.methods@.len(),
                forall|j: int| 0 <= j < i ==> (#[trigger] api@.methods[j]).method != method,
            decreases api.methods@.len() - i,
        {
            if api.methods[i].method == method {
                assert(api@.methods[i as int].method == method);
                return true;
            }
            i += 1;
        }
        false
    }

    /// Finds the handler that serves an inbound request: the one at the
    /// request's API id. Fails with `unknown_api` where the node has no API
    /// under that id, and with `undeclared_method` where the API does not
    /// answer under the verb of the request.
    ///
    /// The caller asks the handler's attribute `request.method.name()` for
    /// its signature, binds the arguments, calls it with the server object,
    /// and turns what it hands back into the reply.
    pub fn execute(&self, request: &UnicomRequest) -> (r: Result<&H, CustomUnicomError>)
        requires
            self.wf(),
        ensures
            match self@.handler(request.id, request.method) {
                Ok(handler) => r is Ok && *r->Ok_0 == handler,
                Err(error) => r is Err && r->Err_0@ == error,
            },
    {
        if request.id >= self.api_objects.len() as u64 {
            let mut description = String::from_str("api_id not found ");
            let digits = decimal(request.id);
            description.append(digits.as_str());
            return Err(
                CustomUnicomError {
                    error: UnicomError { kind: UnicomErrorKind::NotFound, description },
                },
            );
        }
        let index = request.id as usize;
        let api = &self.config.apis[index];
        assert(self@.config.apis[index as int] == api@);
        if !Self::declares(api, request.method) {
            let mut description = String::from_str("method not allowed ");
            description.append(request.method.name());
            return Err(
                CustomUnicomError {
                    error: UnicomError { kind: UnicomErrorKind::MethodNotAllowed, description },
                },
            );
        }
        Ok(&self.api_objects[index])
    }

    /// What the reader does with a frame that came from the peer.
    ///
    /// A response, and a failure under an id other than 0, completes the
    /// request that waits under its id: its caller is to be woken. Where no
    /// request waits there, the frame is dropped, and the reader goes on. A
    /// request is to be served. `Quit`, and a failure under id 0, which
    /// says that the peer refused the configuration, shut the node down.
    pub fn on_frame(&mut self, pending: &mut PendingController, frame: UnixMessage) -> (r:
        ReaderAction)
        requires
            old(self).wf(),
            old(pending).wf(),
        ensures
            final(self).wf(),
            final(pending).wf(),
            match frame {
                UnixMessage::Response { id, data } => {
                    &&& final(self)@ == old(self)@
                    &&& final(pending)@ == old(pending)@.complete(id, Ok(data@))
                    &&& r@ == (if old(pending)@.is_waiting(id) {
                        ReaderActionView::Wake { id }
                    } else {
                        ReaderActionView::Dropped { error: not_found(id) }
                    })
                },
                UnixMessage::Error { id, error } => if id == 0 {
                    &&& final(self)@ == old(self)@.shutdown(ShutdownReason::ConfigFailure)
                    &&& final(pending)@ == old(pending)@
                    &&& r == ReaderAction::Stop
                } else {
                    &&& final(self)@ == old(self)@
                    &&& final(pending)@ == old(pending)@.complete(id, Err(error@))
                    &&& r@ == (if old(pending)@.is_waiting(id) {
                        ReaderActionView::Wake { id }
                    } else {
                        ReaderActionView::Dropped { error: not_found(id) }
                    })
                },
                UnixMessage::Request { id, data } => {
                    &&& final(self)@ == old(self)@
                    &&& final(pending)@ == old(pending)@
                    &&& r@ == (ReaderActionView::Execute { id, data: data@ })
                },
                UnixMessage::Quit => {
                    &&& final(self)@ == old(self)@.shutdown(ShutdownReason::PeerQuit)
                    &&& final(pending)@ == old(pending)@
                    &&& r == ReaderAction::Stop
                },
            },
    {
        match frame {
            UnixMessage::Response { id, data } => match pending.complete(id, Ok(data)) {
                Ok(_) => ReaderAction::Wake { id },
                Err(error) => ReaderAction::Dropped { error },
            },
            UnixMessage::Error { id, error } => {
                if id == 0 {
                    self.shutdown(ShutdownReason::ConfigFailure);
                    ReaderAction::Stop
                } else {
                    match pending.complete(id, Err(error)) {
                        Ok(_) => ReaderAction::Wake { id },
                        Err(error) => ReaderAction::Dropped { error },
                    }
                }
            },
            UnixMessage::Request { id, data } => ReaderAction::Execute { id, data },
            UnixMessage::Quit => {
                self.shutdown(ShutdownReason::PeerQuit);
                ReaderAction::Stop
            },
        }
    }

    /// What the reader does when the stream cannot be read: the node shuts
    /// down, and the reader ends.
    pub fn on_read_error(&mut self) -> (r: ReaderAction)
        requires
            old(self).wf(),
        ensures
            final(self).wf(),
            final(self)@ == old(self)@.shutdown(ShutdownReason::ReadError),
            r == ReaderAction::Stop,
    {
        self.shutdown(ShutdownReason::ReadError);
        ReaderAction::Stop
    }
}

/// A node only moves forward in its life: no event takes it back to a state
/// that it has left, a closed node stays as it is, and a well-formed node
/// stays well formed.
pub proof fn law_states_only_advance<H>(app: AppView<H>, event: AppEvent<H>)
    requires
        app.wf(),
        event matches AppEvent::Ready { config, .. } ==> config.wf(),
    ensures
        app.state.rank() <= app.step(event).state.rank(),
        app.state == AppState::Closed ==> app.step(event) == app,
        app.step(event).wf(),
{
}

/// Shutting down is idempotent: whatever notices follow the first one, the
/// node stays as the first one left it.
pub proof fn law_shutdown_is_idempotent<H>(
    app: AppView<H>,
    first: ShutdownReason,
    later: Seq<ShutdownReason>,
)
    ensures
        shutdown_all(app.shutdown(first), later) == app.shutdown(first),
        !app.shutdown(first).alive(),
    decreases later.len(),
{
    if later.len() > 0 {
        law_shutdown_is_idempotent(app, first, later.drop_last());
    }
}

/// The node after the notices of `reasons`, first to last.
pub open spec fn shutdown_all<H>(app: AppView<H>, reasons: Seq<ShutdownReason>) -> AppView<H>
    decreases reasons.len(),
{
    if reasons.len() == 0 {
        app
    } else {
        shutdown_all(app, reasons.drop_last()).shutdown(reasons.last())
    }
}

} // verus!
