use vstd::prelude::*;
use vstd::string::*;

verus! {

/// The class of a failure that a node reports to its peer.
#[derive(Clone, Copy, Debug, PartialEq, Eq, Hash, Structural)]
pub enum UnicomErrorKind {
    NotFound,
    ParameterInvalid,
    InputInvalid,
    Internal,
    NotAllowed,
    MethodNotAllowed,
    Empty,
    ParseError,
}

impl UnicomErrorKind {
    /// The name under which the kind is written.
    pub open spec fn spec_name(self) -> Seq<char> {
        match self {
            UnicomErrorKind::NotFound => "NotFound"@,
            UnicomErrorKind::ParameterInvalid => "ParameterInvalid"@,
            UnicomErrorKind::InputInvalid => "InputInvalid"@,
            UnicomErrorKind::Internal => "Internal"@,
            UnicomErrorKind::NotAllowed => "NotAllowed"@,
            UnicomErrorKind::MethodNotAllowed => "MethodNotAllowed"@,
            UnicomErrorKind::Empty => "Empty"@,
            UnicomErrorKind::ParseError => "ParseError"@,
        }
    }

    pub fn name(self) -> (r: &'static str)
        ensures
            r@ == self.spec_name(),
    {
        match self {
            UnicomErrorKind::NotFound => "NotFound",
            UnicomErrorKind::ParameterInvalid => "ParameterInvalid",
            UnicomErrorKind::InputInvalid => "InputInvalid",
            UnicomErrorKind::Internal => "Internal",
            UnicomErrorKind::NotAllowed => "NotAllowed",
            UnicomErrorKind::MethodNotAllowed => "MethodNotAllowed",
            UnicomErrorKind::Empty => "Empty",
            UnicomErrorKind::ParseError => "ParseError",
        }
    }
}

/// A failure: its kind and a text for the reader.
#[derive(Debug, PartialEq, Eq)]
pub struct UnicomError {
    pub kind: UnicomErrorKind,
    pub description: String,
}

/// What an `UnicomError` stands for in contracts.
pub struct ErrorView {
    pub kind: UnicomErrorKind,
    pub description: Seq<char>,
}

impl ErrorView {
    /// The text that `UnicomError::to_string` writes: the kind's name, a
    /// colon and a space, then the description.
    pub open spec fn rendered(self) -> Seq<char> {
        self.kind.spec_name() + ": "@ + self.description
    }
}

impl View for UnicomError {
    type V = ErrorView;

    open spec fn view(&self) -> ErrorView {
        ErrorView { kind: self.kind, description: self.description@ }
    }
}

impl Clone for UnicomError {
    fn clone(&self) -> (r: Self)
        ensures
            r == *self,
    {
        UnicomError { kind: self.kind, description: self.description.clone() }
    }
}

impl UnicomError {
    pub fn new(kind: UnicomErrorKind, description: &str) -> (e: UnicomError)
        ensures
            e@ == (ErrorView { kind, description: description@ }),
    {
        UnicomError { kind, description: String::from_str(description) }
    }

    /// The error as one line of text.
    pub fn to_string(&self) -> (r: String)
        ensures
            r@ == self@.rendered(),
    {
        let mut r = String::from_str(self.kind.name());
        r.append(": ");
        r.append(self.description.as_str());
        r
    }
}

/// A `UnicomError` on its way between the node and the script.
#[derive(Debug, PartialEq, Eq)]
pub struct CustomUnicomError {
    pub error: UnicomError,
}

impl View for CustomUnicomError {
    type V = ErrorView;

    open spec fn view(&self) -> ErrorView {
        self.error@
    }
}

impl From<UnicomError> for CustomUnicomError {
    fn from(e: UnicomError) -> (r: CustomUnicomError) {
        CustomUnicomError { error: e }
    }
}

impl vstd::std_specs::convert::FromSpecImpl<UnicomError> for CustomUnicomError {
    open spec fn obeys_from_spec() -> bool {
        true
    }

    open spec fn from_spec(e: UnicomError) -> CustomUnicomError {
        CustomUnicomError { error: e }
    }
}

impl From<CustomUnicomError> for UnicomError {
    fn from(e: CustomUnicomError) -> (r: UnicomError) {
        e.error
    }
}

impl vstd::std_specs::convert::FromSpecImpl<CustomUnicomError> for UnicomError {
    open spec fn obeys_from_spec() -> bool {
        true
    }

    open spec fn from_spec(e: CustomUnicomError) -> UnicomError {
        e.error
    }
}

/// The exception classes that a script raises to report a typed failure.
#[derive(Clone, Copy, Debug, PartialEq, Eq, Hash, Structural)]
pub enum ExceptionClass {
    NotFound,
    ParameterInvalid,
    InputInvalid,
    Internal,
    NotAllowed,
    MethodNotAllowed,
    Empty,
    ParseError,
}

impl ExceptionClass {
    /// The kind of failure that the class is named after.
    pub open spec fn spec_kind(self) -> UnicomErrorKind {
        match self {
            ExceptionClass::NotFound => UnicomErrorKind::NotFound,
            ExceptionClass::ParameterInvalid => UnicomErrorKind::ParameterInvalid,
            ExceptionClass::InputInvalid => UnicomErrorKind::InputInvalid,
            ExceptionClass::Internal => UnicomErrorKind::Internal,
            ExceptionClass::NotAllowed => UnicomErrorKind::NotAllowed,
            ExceptionClass::MethodNotAllowed => UnicomErrorKind::MethodNotAllowed,
            ExceptionClass::Empty => UnicomErrorKind::Empty,
            ExceptionClass::ParseError => UnicomErrorKind::ParseError,
        }
    }

    pub fn kind(self) -> (r: UnicomErrorKind)
        ensures
            r == self.spec_kind(),
    {
        match self {
            ExceptionClass::NotFound => UnicomErrorKind::NotFound,
            ExceptionClass::ParameterInvalid => UnicomErrorKind::ParameterInvalid,
            ExceptionClass::InputInvalid => UnicomErrorKind::InputInvalid,
            ExceptionClass::Internal => UnicomErrorKind::Internal,
            ExceptionClass::NotAllowed => UnicomErrorKind::NotAllowed,
            ExceptionClass::MethodNotAllowed => UnicomErrorKind::MethodNotAllowed,
            ExceptionClass::Empty => UnicomErrorKind::Empty,
            ExceptionClass::ParseError => UnicomErrorKind::ParseError,
        }
    }
}

/// A typed failure for a script to raise: the class of the exception and
/// its message.
#[derive(Debug, PartialEq, Eq)]
pub struct ScriptError {
    pub class: ExceptionClass,
    pub message: String,
}

/// What a `ScriptError` stands for in contracts.
pub struct ScriptErrorView {
    pub class: ExceptionClass,
    pub message: Seq<char>,
}

impl View for ScriptError {
    type V = ScriptErrorView;

    open spec fn view(&self) -> ScriptErrorView {
        ScriptErrorView { class: self.class, message: self.message@ }
    }
}

impl ScriptErrorView {
    /// The exception that the bridge sees when a script raises the failure:
    /// one of its class alone, with its message as text.
    pub open spec fn raised(self, report: Seq<char>, traceback: Option<Seq<char>>) -> ExceptionView {
        ExceptionView { classes: seq![self.class], text: self.message, report, traceback }
    }
}

impl ScriptError {
    pub fn new(class: ExceptionClass, message: String) -> (r: ScriptError)
        ensures
            r@ == (ScriptErrorView { class, message: message@ }),
    {
        ScriptError { class, message }
    }

    /// The exception that the bridge sees when a script raises the failure.
    /// `report` is what the interpreter says of it, `traceback` where it was
    /// raised.
    pub fn raised(self, report: String, traceback: Option<String>) -> (r: ScriptException)
        ensures
            r@ == self@.raised(
                report@,
                match traceback {
                    Some(t) => Some(t@),
                    None => None,
                },
            ),
    {
        let mut classes: Vec<ExceptionClass> = Vec::new();
        classes.push(self.class);
        assert(classes@ =~= seq![self.class]);
        ScriptException { classes, text: self.message, report, traceback }
    }
}

/// A typed failure that a script raises reaches the peer with the kind of
/// its class and with its message, whatever the interpreter reports of it.
pub proof fn law_typed_failures_keep_their_message(
    error: ScriptErrorView,
    report: Seq<char>,
    traceback: Option<Seq<char>>,
)
    ensures
        error.raised(report, traceback).typed(),
        error.raised(report, traceback).error() == (ErrorView {
            kind: error.class.spec_kind(),
            description: error.message,
        }),
{
    let classes = seq![error.class];
    assert(classes[0] == error.class);
    assert(forall|c: ExceptionClass| classes.contains(c) <==> c == error.class);
}

/// An exception that a script raised, as the bridge saw it.
#[derive(Debug, PartialEq, Eq)]
pub struct ScriptException {
    /// The exported classes of which the raised object is an instance.
    pub classes: Vec<ExceptionClass>,
    /// The raised object written as text: the message it was made with.
    pub text: String,
    /// The exception as the interpreter reports it: type name and message.
    pub report: String,
    /// The traceback written as text, where the exception carries one.
    pub traceback: Option<String>,
}

/// What a `ScriptException` stands for in contracts.
pub struct ExceptionView {
    pub classes: Seq<ExceptionClass>,
    pub text: Seq<char>,
    pub report: Seq<char>,
    pub traceback: Option<Seq<char>>,
}

impl View for ScriptException {
    type V = ExceptionView;

    open spec fn view(&self) -> ExceptionView {
        ExceptionView {
            classes: self.classes@,
            text: self.text@,
            report: self.report@,
            traceback: match self.traceback {
                Some(t) => Some(t@),
                None => None,
            },
        }
    }
}

impl ExceptionView {
    /// Whether the exception is of one of the exported classes.
    pub open spec fn typed(self) -> bool {
        exists|class: ExceptionClass| self.classes.contains(class)
    }

    /// The kind of failure that the exception stands for: that of its
    /// class, where the classes are tried in a fixed order; an exception of
    /// no exported class is an internal failure.
    pub open spec fn kind(self) -> UnicomErrorKind {
        if self.classes.contains(ExceptionClass::NotFound) {
            UnicomErrorKind::NotFound
        } else if self.classes.contains(ExceptionClass::ParameterInvalid) {
            UnicomErrorKind::ParameterInvalid
        } else if self.classes.contains(ExceptionClass::InputInvalid) {
            UnicomErrorKind::InputInvalid
        } else if self.classes.contains(ExceptionClass::NotAllowed) {
            UnicomErrorKind::NotAllowed
        } else if self.classes.contains(ExceptionClass::MethodNotAllowed) {
            UnicomErrorKind::MethodNotAllowed
        } else if self.classes.contains(ExceptionClass::Empty) {
            UnicomErrorKind::Empty
        } else if self.classes.contains(ExceptionClass::Internal) {
            UnicomErrorKind::Internal
        } else if self.classes.contains(ExceptionClass::ParseError) {
            UnicomErrorKind::ParseError
        } else {
            UnicomErrorKind::Internal
        }
    }

    /// The traceback's text, or the words that stand for a missing one.
    pub open spec fn trace_text(self) -> Seq<char> {
        match self.traceback {
            Some(t) => t,
            None => "no traceback"@,
        }
    }

    /// The description of the failure: the message of an exception of an
    /// exported class, the interpreter's report and the traceback of any
    /// other.
    pub open spec fn description(self) -> Seq<char> {
        if self.typed() {
            self.text
        } else {
            self.report + " \n "@ + self.trace_text()
        }
    }

    /// The failure that the exception is reported as.
    pub open spec fn error(self) -> ErrorView {
        ErrorView { kind: self.kind(), description: self.description() }
    }
}

/// Whether `class` occurs in `classes`.
pub fn has_class(classes: &Vec<ExceptionClass>, class: ExceptionClass) -> (r: bool)
    ensures
        r == classes@.contains(class),
{
    let mut i: usize = 0;
    while i < classes.len()
        invariant
            i <= classes.len(),
            forall|j: int| 0 <= j < i ==> classes@[j] != class,
        decreases classes.len() - i,
    {
        if classes[i] == class {
            return true;
        }
        i += 1;
    }
    false
}

impl ScriptException {
    /// Whether the exception is of one of the exported classes.
    pub fn typed(&self) -> (r: bool)
        ensures
            r == self@.typed(),
    {
        if self.classes.len() > 0 {
            assert(self@.classes.contains(self@.classes[0]));
            true
        } else {
            false
        }
    }

    /// The kind of failure that the exception stands for.
    pub fn kind(&self) -> (r: UnicomErrorKind)
        ensures
            r == self@.kind(),
    {
        if has_class(&self.classes, ExceptionClass::NotFound) {
            UnicomErrorKind::NotFound
        } else if has_class(&self.classes, ExceptionClass::ParameterInvalid) {
            UnicomErrorKind::ParameterInvalid
        } else if has_class(&self.classes, ExceptionClass::InputInvalid) {
            UnicomErrorKind::InputInvalid
        } else if has_class(&self.classes, ExceptionClass::NotAllowed) {
            UnicomErrorKind::NotAllowed
        } else if has_class(&self.classes, ExceptionClass::MethodNotAllowed) {
            UnicomErrorKind::MethodNotAllowed
        } else if has_class(&self.classes, ExceptionClass::Empty) {
            UnicomErrorKind::Empty
        } else if has_class(&self.classes, ExceptionClass::Internal) {
            UnicomErrorKind::Internal
        } else if has_class(&self.classes, ExceptionClass::ParseError) {
            UnicomErrorKind::ParseError
        } else {
            UnicomErrorKind::Internal
        }
    }
}

impl CustomUnicomError {
    /// Turns an exception of the script into the failure that the node
    /// reports. An exception of an exported class keeps its message and
    /// gets the kind of its class. Any other becomes an internal failure
    /// whose description holds the interpreter's report and the traceback.
    pub fn from_exception(exception: ScriptException) -> (r: CustomUnicomError)
        ensures
            r@ == exception@.error(),
    {
        let kind = exception.kind();
        if exception.typed() {
            CustomUnicomError { error: UnicomError { kind, description: exception.text } }
        } else {
            let mut description = exception.report;
            description.append(" \n ");
            match exception.traceback {
                Some(trace) => description.append(trace.as_str()),
                None => description.append("no traceback"),
            }
            CustomUnicomError { error: UnicomError { kind, description } }
        }
    }
}

} // verus!
