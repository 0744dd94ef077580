use crate::config::{parameters_view, Parameter, ParameterView};
use crate::error::{CustomUnicomError, ErrorView, UnicomError, UnicomErrorKind};
use crate::json::{
    error_text, json_error_text, json_keys, json_parsed, json_written, object_keys, parse_json,
    text_from_utf8, write_json,
};
use crate::message::UnicomRequest;
use crate::names::same_text;
use vstd::prelude::*;
use vstd::string::*;
use vstd::utf8::{decode_utf8, encode_utf8, valid_utf8};

verus! {

/// One parameter of a handler, as the handler declares it.
#[derive(Debug, PartialEq, Eq)]
pub struct RawParameter {
    pub name: String,
    /// The annotation of the parameter, written as text.
    pub annotation: String,
    /// Whether the handler gives the parameter a default.
    pub has_default: bool,
}

/// What a `RawParameter` stands for in contracts.
pub struct RawParameterView {
    pub name: Seq<char>,
    pub annotation: Seq<char>,
    pub has_default: bool,
}

impl View for RawParameter {
    type V = RawParameterView;

    open spec fn view(&self) -> RawParameterView {
        RawParameterView {
            name: self.name@,
            annotation: self.annotation@,
            has_default: self.has_default,
        }
    }
}

/// What `signature` stands for in contracts.
pub open spec fn signature_view(signature: Seq<RawParameter>) -> Seq<RawParameterView> {
    signature.map_values(|p: RawParameter| p@)
}

/// The name of the parameter that stands for the server object. A caller
/// never gives it: the node does.
pub open spec fn server_name() -> Seq<char> {
    "server"@
}

impl RawParameterView {
    /// Whether the parameter stands for the server object.
    pub open spec fn is_server(self) -> bool {
        self.name == server_name()
    }

    /// What the node tells the broker of the parameter: nothing of the
    /// server object, and of any other its name, its annotation and
    /// whether it lacks a default.
    pub open spec fn described(self) -> Option<ParameterView> {
        if self.is_server() {
            None
        } else {
            Some(
                ParameterView {
                    name: self.name,
                    kind: self.annotation,
                    mandatory: !self.has_default,
                },
            )
        }
    }
}

/// The parameters that a handler declares, as the node tells them to the
/// broker: in the order of the declaration, without the server object.
pub open spec fn introspected(signature: Seq<RawParameterView>) -> Seq<ParameterView> {
    signature.filter_map(|p: RawParameterView| p.described())
}

/// The server object is no parameter for the broker: every parameter that
/// the node describes is one that the handler declares under another name,
/// and it is mandatory where the handler gives it no default.
pub proof fn law_introspection_hides_the_server(signature: Seq<RawParameterView>, i: int)
    requires
        0 <= i < introspected(signature).len(),
    ensures
        introspected(signature)[i].name != server_name(),
        exists|j: int|
            0 <= j < signature.len() && (#[trigger] signature[j]).described() == Some(
                introspected(signature)[i],
            ),
    decreases signature.len(),
{
    let describe = |p: RawParameterView| p.described();
    assert(signature.len() > 0);
    let front = signature.drop_last();
    let last = signature.last();
    if i < introspected(front).len() {
        law_introspection_hides_the_server(front, i);
        let j = choose|j: int|
            0 <= j < front.len() && (#[trigger] front[j]).described() == Some(
                introspected(front)[i],
            );
        assert(signature[j] == front[j]);
    } else {
        assert(describe(last) is Some);
        assert(signature[signature.len() - 1].described() == Some(introspected(signature)[i]));
    }
}

/// Describes the parameters of a handler to the broker.
pub fn introspect_signature(signature: &Vec<RawParameter>) -> (r: Vec<Parameter>)
    ensures
        parameters_view(r@) == introspected(signature_view(signature@)),
{
    let ghost raw = signature_view(signature@);
    let ghost describe = |p: RawParameterView| p.described();
    let mut described: Vec<Parameter> = Vec::new();
    let mut i: usize = 0;
    assert(raw.take(0) =~= Seq::<RawParameterView>::empty());
    while i < signature.len()
        invariant
            i <= signature@.len(),
            raw == signature_view(signature@),
            describe == (|p: RawParameterView| p.described()),
            parameters_view(described@) == raw.take(i as int).filter_map(describe),
        decreases signature@.len() - i,
    {
        let p = &signature[i];
        proof {
            raw.lemma_filter_map_take_succ(describe, i as int);
        }
        let ghost before = parameters_view(described@);
        if !same_text(p.name.as_str(), "server") {
            let q = Parameter {
                name: p.name.clone(),
                kind: p.annotation.clone(),
                mandatory: !p.has_default,
            };
            described.push(q);
            assert(parameters_view(described@) =~= before + seq![q@]);
        } else {
            assert(before + Seq::<ParameterView>::empty() =~= before);
        }
        i += 1;
    }
    assert(raw.take(signature@.len() as int) =~= raw);
    described
}

/// Where the value of one declared parameter comes from when the node calls
/// a handler.
#[derive(Clone, Copy, Debug, PartialEq, Eq, Structural)]
pub enum Binding {
    /// The node gives the server object.
    Server,
    /// The request gives the value under the parameter's name.
    Provided,
    /// Nothing is given: the handler's default stands.
    Default,
}

/// The failure of a call that lacks a parameter without a default.
pub open spec fn missing_parameter(name: Seq<char>) -> ErrorView {
    ErrorView {
        kind: UnicomErrorKind::ParameterInvalid,
        description: "missing parameter "@ + name,
    }
}

impl RawParameterView {
    /// Where the value of the parameter comes from, given the names that
    /// the request provides; `None` where it comes from nowhere. The server
    /// object goes before a value of the request, and that before the
    /// default.
    pub open spec fn bound(self, provided: Seq<Seq<char>>) -> Option<Binding> {
        if self.is_server() {
            Some(Binding::Server)
        } else if provided.contains(self.name) {
            Some(Binding::Provided)
        } else if self.has_default {
            Some(Binding::Default)
        } else {
            None
        }
    }
}

/// What `names` stands for in contracts.
pub open spec fn names_view(names: Seq<String>) -> Seq<Seq<char>> {
    names.map_values(|n: String| n@)
}

/// Where the value of each declared parameter comes from.
pub open spec fn bound_all(signature: Seq<RawParameterView>, provided: Seq<Seq<char>>) -> Seq<
    Option<Binding>,
> {
    signature.map_values(|p: RawParameterView| p.bound(provided))
}

/// Whether parameter `i` is the first of the signature that gets no value.
pub open spec fn first_unbound(
    signature: Seq<RawParameterView>,
    provided: Seq<Seq<char>>,
    i: int,
) -> bool {
    &&& 0 <= i < signature.len()
    &&& signature[i].bound(provided) is None
    &&& forall|j: int| 0 <= j < i ==> (#[trigger] signature[j]).bound(provided) is Some
}

/// Whether `name` is one of `names`.
pub fn has_name(names: &Vec<String>, name: &str) -> (r: bool)
    ensures
        r == names_view(names@).contains(name@),
{
    let mut i: usize = 0;
    while i < names.len()
        invariant
            i <= names@.len(),
            forall|j: int| 0 <= j < i ==> names_view(names@)[j] != name@,
        decreases names@.len() - i,
    {
        if same_text(names[i].as_str(), name) {
            assert(names_view(names@)[i as int] == name@);
            return true;
        }
        i += 1;
    }
    false
}

/// Decides for each declared parameter of a handler where its value comes
/// from. A name that the request provides and the handler does not declare
/// is passed over. The call fails, on the first parameter in the order of
/// the declaration that has neither a value nor a default.
pub fn bind_arguments(signature: &Vec<RawParameter>, provided: &Vec<String>) -> (r: Result<
    Vec<Binding>,
    CustomUnicomError,
>)
    ensures
        match r {
            Ok(bindings) => bindings@.map_values(|b: Binding| Some(b)) == bound_all(
                signature_view(signature@),
                names_view(provided@),
            ),
            Err(e) => exists|i: int|
                #[trigger] first_unbound(signature_view(signature@), names_view(provided@), i)
                    && e@ == missing_parameter(signature_view(signature@)[i].name),
        },
{
    let ghost raw = signature_view(signature@);
    let ghost given = names_view(provided@);
    let mut bindings: Vec<Binding> = Vec::new();
    let mut i: usize = 0;
    while i < signature.len()
        invariant
            i <= signature@.len(),
            raw == signature_view(signature@),
            given == names_view(provided@),
            bindings@.len() == i,
            forall|j: int| 0 <= j < i ==> raw[j].bound(given) == Some(#[trigger] bindings@[j]),
        decreases signature@.len() - i,
    {
        let p = &signature[i];
        assert(p@ == raw[i as int]);
        if same_text(p.name.as_str(), "server") {
            bindings.push(Binding::Server);
        } else if has_name(provided, p.name.as_str()) {
            bindings.push(Binding::Provided);
        } else if p.has_default {
            bindings.push(Binding::Default);
        } else {
            let mut description = String::from_str("missing parameter ");
            description.append(p.name.as_str());
            assert forall|j: int| 0 <= j < i implies (#[trigger] raw[j]).bound(given) is Some by {
                assert(raw[j].bound(given) == Some(bindings@[j]));
            }
            assert(first_unbound(raw, given, i as int));
            return Err(
                CustomUnicomError {
                    error: UnicomError { kind: UnicomErrorKind::ParameterInvalid, description },
                },
            );
        }
        i += 1;
    }
    assert(bindings@.map_values(|b: Binding| Some(b)) =~= bound_all(raw, given));
    Ok(bindings)
}

/// Decides for each declared parameter of a handler where its value comes
/// from, given the request that the handler is to serve: its parameters
/// provide the values.
pub fn bind_request(signature: &Vec<RawParameter>, request: &UnicomRequest) -> (r: Result<
    Vec<Binding>,
    CustomUnicomError,
>)
    ensures
        match r {
            Ok(bindings) => bindings@.map_values(|b: Binding| Some(b)) == bound_all(
                signature_view(signature@),
                json_keys(request.parameters),
            ),
            Err(e) => exists|i: int|
                #[trigger] first_unbound(
                    signature_view(signature@),
                    json_keys(request.parameters),
                    i,
                ) && e@ == missing_parameter(signature_view(signature@)[i].name),
        },
{
    let provided = object_keys(&request.parameters);
    assert(names_view(provided@) =~= json_keys(request.parameters));
    bind_arguments(signature, &provided)
}

/// What a handler handed back.
#[derive(Debug, PartialEq)]
pub enum PythonReturn {
    /// A buffer of raw bytes.
    Binary(Vec<u8>),
    /// Any other value, read as JSON.
    Value(serde_json::Value),
}

/// How a failure of `serde_json` is reported.
pub open spec fn json_failure(error: serde_json::Error) -> ErrorView {
    ErrorView { kind: UnicomErrorKind::ParseError, description: json_error_text(error) }
}

/// The payload of the response that carries `written`, the JSON text of a
/// value or the reason why there is none: the text in UTF-8.
pub open spec fn text_payload(written: Result<Seq<char>, serde_json::Error>) -> Result<
    Seq<u8>,
    ErrorView,
> {
    match written {
        Ok(text) => Ok(encode_utf8(text)),
        Err(error) => Err(json_failure(error)),
    }
}

impl PythonReturn {
    /// The payload of the response that carries what the handler handed
    /// back: raw bytes as they are, any other value as its JSON text in
    /// UTF-8.
    pub open spec fn payload(self) -> Result<Seq<u8>, ErrorView> {
        match self {
            PythonReturn::Binary(data) => Ok(data@),
            PythonReturn::Value(value) => text_payload(json_written(value)),
        }
    }

    /// Turns what a handler handed back into the payload of the response.
    pub fn into_payload(self) -> (r: Result<Vec<u8>, CustomUnicomError>)
        ensures
            match self.payload() {
                Ok(data) => r is Ok && r->Ok_0@ == data,
                Err(error) => r is Err && r->Err_0@ == error,
            },
    {
        match self {
            PythonReturn::Binary(data) => Ok(data),
            PythonReturn::Value(value) => payload_of_text(write_json(&value)),
        }
    }
}

/// How a failure of `serde_json` is reported.
pub fn report_json_error(error: &serde_json::Error) -> (r: CustomUnicomError)
    ensures
        r@ == json_failure(*error),
{
    CustomUnicomError {
        error: UnicomError { kind: UnicomErrorKind::ParseError, description: error_text(error) },
    }
}

/// The payload of the response that carries `written`, the JSON text of a
/// value or the reason why there is none.
pub fn payload_of_text(written: Result<String, serde_json::Error>) -> (r: Result<
    Vec<u8>,
    CustomUnicomError,
>)
    ensures
        match written {
            Ok(text) => r is Ok && r->Ok_0@ == encode_utf8(text@),
            Err(error) => r is Err && r->Err_0@ == json_failure(error),
        },
{
    match written {
        Ok(text) => Ok(text.as_str().as_bytes_vec()),
        Err(error) => Err(report_json_error(&error)),
    }
}

/// The failure of a payload that is no text.
pub open spec fn not_text() -> ErrorView {
    ErrorView { kind: UnicomErrorKind::ParseError, description: "response is not valid UTF-8"@ }
}

/// What the caller of an outbound request gets for the payload of the
/// response: the JSON value that the payload writes in UTF-8.
pub open spec fn decoded(data: Seq<u8>) -> Result<serde_json::Value, ErrorView> {
    if !valid_utf8(data) {
        Err(not_text())
    } else {
        match json_parsed(decode_utf8(data)) {
            Ok(value) => Ok(value),
            Err(error) => Err(json_failure(error)),
        }
    }
}

/// What the caller of an outbound request gets for a payload whose text
/// was read as `parsed`.
pub fn value_of_parsed(parsed: Result<serde_json::Value, serde_json::Error>) -> (r: Result<
    serde_json::Value,
    CustomUnicomError,
>)
    ensures
        match parsed {
            Ok(value) => r == Ok::<serde_json::Value, CustomUnicomError>(value),
            Err(error) => r is Err && r->Err_0@ == json_failure(error),
        },
{
    match parsed {
        Ok(value) => Ok(value),
        Err(error) => Err(report_json_error(&error)),
    }
}

/// Reads the payload of a response as a JSON value.
pub fn decode_response(data: Vec<u8>) -> (r: Result<serde_json::Value, CustomUnicomError>)
    ensures
        match decoded(data@) {
            Ok(value) => r == Ok::<serde_json::Value, CustomUnicomError>(value),
            Err(error) => r is Err && r->Err_0@ == error,
        },
{
    match text_from_utf8(data) {
        Ok(text) => value_of_parsed(parse_json(text.as_str())),
        Err(_) => Err(
            CustomUnicomError {
                error: UnicomError::new(UnicomErrorKind::ParseError, "response is not valid UTF-8"),
            },
        ),
    }
}

} // verus!
