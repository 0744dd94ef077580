use serde_json::{Number, Value};
use unicom_python::bridge::{
    bind_arguments, bind_request, decode_response, has_name, introspect_signature,
    payload_of_text, report_json_error, value_of_parsed, Binding, PythonReturn, RawParameter,
};
use unicom_python::config::Parameter;
use unicom_python::error::{UnicomError, UnicomErrorKind};
use unicom_python::message::{UnicomMethod, UnicomRequest};

fn raw(name: &str, annotation: &str, has_default: bool) -> RawParameter {
    RawParameter { name: name.to_string(), annotation: annotation.to_string(), has_default }
}

fn names(list: &[&str]) -> Vec<String> {
    list.iter().map(|n| n.to_string()).collect()
}

fn object(pairs: Vec<(&str, Value)>) -> serde_json::Map<String, Value> {
    let mut map = serde_json::Map::new();
    for (key, value) in pairs {
        map.insert(key.to_string(), value);
    }
    map
}

#[test]
fn introspection_leaves_out_the_server() {
    let signature = vec![
        raw("server", "<class 'inspect._empty'>", false),
        raw("a", "<class 'inspect._empty'>", false),
        raw("b", "<class 'inspect._empty'>", true),
    ];
    assert_eq!(
        introspect_signature(&signature),
        vec![
            Parameter {
                name: "a".to_string(),
                kind: "<class 'inspect._empty'>".to_string(),
                mandatory: true
            },
            Parameter {
                name: "b".to_string(),
                kind: "<class 'inspect._empty'>".to_string(),
                mandatory: false
            },
        ]
    );
}

#[test]
fn introspection_keeps_order_and_annotations() {
    let signature = vec![
        raw("msg", "<class 'str'>", false),
        raw("server", "", false),
        raw("count", "<class 'int'>", true),
        raw("servers", "<class 'list'>", false),
    ];
    assert_eq!(
        introspect_signature(&signature),
        vec![
            Parameter::new("msg".to_string(), "<class 'str'>".to_string(), true),
            Parameter::new("count".to_string(), "<class 'int'>".to_string(), false),
            Parameter::new("servers".to_string(), "<class 'list'>".to_string(), true),
        ]
    );
}

#[test]
fn introspection_of_nothing_is_nothing() {
    assert_eq!(introspect_signature(&vec![]), vec![]);
    assert_eq!(introspect_signature(&vec![raw("server", "", true)]), vec![]);
}

#[test]
fn binding_takes_server_then_request_then_default() {
    let signature = vec![
        raw("server", "", false),
        raw("msg", "<class 'str'>", false),
        raw("count", "<class 'int'>", true),
        raw("mode", "<class 'str'>", true),
    ];
    let bound = bind_arguments(&signature, &names(&["mode", "msg"])).unwrap();
    assert_eq!(
        bound,
        vec![Binding::Server, Binding::Provided, Binding::Default, Binding::Provided]
    );
}

#[test]
fn binding_gives_the_server_even_where_the_request_names_it() {
    let signature = vec![raw("server", "", false), raw("a", "", false)];
    let bound = bind_arguments(&signature, &names(&["server", "a"])).unwrap();
    assert_eq!(bound, vec![Binding::Server, Binding::Provided]);
}

#[test]
fn binding_passes_over_unknown_names() {
    let signature = vec![raw("a", "", false)];
    let bound = bind_arguments(&signature, &names(&["zzz", "a", "other"])).unwrap();
    assert_eq!(bound, vec![Binding::Provided]);
    assert_eq!(bind_arguments(&vec![], &names(&["a"])).unwrap(), vec![]);
}

#[test]
fn binding_fails_on_the_first_parameter_without_value() {
    let signature = vec![
        raw("server", "", false),
        raw("a", "", true),
        raw("b", "", false),
        raw("c", "", false),
    ];
    let error = bind_arguments(&signature, &names(&["x"])).unwrap_err();
    assert_eq!(
        error.error,
        UnicomError {
            kind: UnicomErrorKind::ParameterInvalid,
            description: "missing parameter b".to_string()
        }
    );
}

#[test]
fn has_name_compares_whole_names() {
    let list = names(&["ab", "abc"]);
    assert!(has_name(&list, "ab"));
    assert!(has_name(&list, "abc"));
    assert!(!has_name(&list, "a"));
    assert!(!has_name(&list, "abcd"));
    assert!(!has_name(&vec![], ""));
}

#[test]
fn binding_reads_the_names_of_the_request() {
    let request = UnicomRequest {
        id: 0,
        node_name: "node".to_string(),
        name: "echo".to_string(),
        method: UnicomMethod::Post,
        parameters: object(vec![
            ("msg", Value::String("hi".to_string())),
            ("unknown", Value::Null),
        ]),
    };
    let signature = vec![raw("server", "", false), raw("msg", "<class 'str'>", false)];
    assert_eq!(
        bind_request(&signature, &request).unwrap(),
        vec![Binding::Server, Binding::Provided]
    );
    let more = vec![raw("msg", "", false), raw("other", "", false)];
    assert_eq!(
        bind_request(&more, &request).unwrap_err().error,
        UnicomError::new(UnicomErrorKind::ParameterInvalid, "missing parameter other")
    );
}

#[test]
fn raw_bytes_are_the_payload_as_they_are() {
    let ret = PythonReturn::Binary(vec![0x00, 0x01, 0x02]);
    assert_eq!(ret.into_payload().unwrap(), vec![0x00, 0x01, 0x02]);
    assert_eq!(PythonReturn::Binary(vec![]).into_payload().unwrap(), Vec::<u8>::new());
    // Bytes that are no text stay bytes.
    assert_eq!(
        PythonReturn::Binary(vec![0xFF, 0xFE, b'{']).into_payload().unwrap(),
        vec![0xFF, 0xFE, b'{']
    );
}

#[test]
fn any_other_value_is_written_as_json() {
    let value = Value::Object(object(vec![("echo", Value::String("hi".to_string()))]));
    assert_eq!(
        PythonReturn::Value(value).into_payload().unwrap(),
        b"{\"echo\":\"hi\"}".to_vec()
    );
    assert_eq!(PythonReturn::Value(Value::Null).into_payload().unwrap(), b"null".to_vec());
    assert_eq!(
        PythonReturn::Value(Value::Array(vec![
            Value::Bool(true),
            Value::Number(Number::from(7)),
            Value::String("é".to_string())
        ]))
        .into_payload()
        .unwrap(),
        "[true,7,\"é\"]".as_bytes().to_vec()
    );
}

#[test]
fn json_payload_equals_the_serialization() {
    let value = Value::Object(object(vec![
        ("a", Value::Number(Number::from(1))),
        ("b", Value::Array(vec![Value::Null, Value::String("x\"y".to_string())])),
    ]));
    let expected = serde_json::to_string(&value).unwrap().into_bytes();
    assert_eq!(PythonReturn::Value(value).into_payload().unwrap(), expected);
}

#[test]
fn payload_of_text_is_utf8() {
    assert_eq!(
        payload_of_text(Ok("{\"k\":\"ü\"}".to_string())).unwrap(),
        vec![b'{', b'"', b'k', b'"', b':', b'"', 0xC3, 0xBC, b'"', b'}']
    );
    let failure = serde_json::from_str::<Value>("{").unwrap_err();
    let text = failure.to_string();
    assert_eq!(
        payload_of_text(Err(failure)).unwrap_err().error,
        UnicomError { kind: UnicomErrorKind::ParseError, description: text }
    );
}

#[test]
fn a_response_is_read_as_json() {
    let value = decode_response(b"{\"v\":2}".to_vec()).unwrap();
    assert_eq!(value, Value::Object(object(vec![("v", Value::Number(Number::from(2)))])));
    assert_eq!(decode_response(b" [1, \"a\"] ".to_vec()).unwrap(), Value::Array(vec![
        Value::Number(Number::from(1)),
        Value::String("a".to_string())
    ]));
}

#[test]
fn a_response_that_is_no_text_is_a_parse_error() {
    assert_eq!(
        decode_response(vec![b'"', 0xFF, b'"']).unwrap_err().error,
        UnicomError::new(UnicomErrorKind::ParseError, "response is not valid UTF-8")
    );
}

#[test]
fn a_response_that_is_no_json_is_a_parse_error() {
    let error = decode_response(b"{\"v\":".to_vec()).unwrap_err().error;
    assert_eq!(error.kind, UnicomErrorKind::ParseError);
    assert_eq!(
        error.description,
        serde_json::from_str::<Value>("{\"v\":").unwrap_err().to_string()
    );
    assert_eq!(error.description, "EOF while parsing a value at line 1 column 5");
    let empty = decode_response(vec![]).unwrap_err().error;
    assert_eq!(empty.kind, UnicomErrorKind::ParseError);
    assert_eq!(empty.description, "EOF while parsing a value at line 1 column 0");
}

#[test]
fn a_parsed_value_is_handed_on() {
    assert_eq!(value_of_parsed(Ok(Value::Bool(false))).unwrap(), Value::Bool(false));
    let failure = serde_json::from_str::<Value>("nul").unwrap_err();
    let text = failure.to_string();
    assert_eq!(
        value_of_parsed(Err(failure)).unwrap_err().error,
        UnicomError { kind: UnicomErrorKind::ParseError, description: text }
    );
}

#[test]
fn a_json_failure_is_reported_with_its_message() {
    let failure = serde_json::from_str::<Value>("[1,]").unwrap_err();
    let reported = report_json_error(&failure);
    assert_eq!(reported.error.kind, UnicomErrorKind::ParseError);
    assert_eq!(reported.error.description, "trailing comma at line 1 column 4");
}
