use unicom_python::bridge::RawParameter;
use unicom_python::builder::{HandlerSignatures, PythonConfig};
use unicom_python::config::{
    Api, ApiConfig, ApiMethod, EndPointKind, NodeConfig, Parameter, Template,
};
use unicom_python::error::{UnicomError, UnicomErrorKind};
use unicom_python::message::UnicomMethod;
use unicom_python::names::NameTable;

fn raw(name: &str, annotation: &str, has_default: bool) -> RawParameter {
    RawParameter { name: name.to_string(), annotation: annotation.to_string(), has_default }
}

fn none() -> HandlerSignatures {
    HandlerSignatures { get: None, post: None, put: None, delete: None }
}

fn post_only(signature: Vec<RawParameter>) -> HandlerSignatures {
    HandlerSignatures { get: None, post: Some(signature), put: None, delete: None }
}

#[test]
fn a_new_configuration_has_a_name_and_nothing_else() {
    let config = NodeConfig::new("shop");
    assert_eq!(config.name, "shop");
    assert!(config.templates.is_empty());
    assert_eq!(config.tags.len(), 0);
    assert!(config.endpoints.is_empty());
    assert!(config.apis.is_empty());
    let builder: PythonConfig<u32> = PythonConfig::new("shop");
    assert_eq!(builder.config().name, "shop");
    assert!(builder.api_objects().is_empty());
}

#[test]
fn templates_are_kept_in_order() {
    let mut builder: PythonConfig<u32> = PythonConfig::new("n");
    builder.add_template("/srv/app/tpl/a.html", "a.html");
    builder.add_template("/srv/app/tpl/sub/b.html", "sub/b.html");
    assert_eq!(
        builder.config().templates,
        vec![
            Template { file: "/srv/app/tpl/a.html".to_string(), path: "a.html".to_string() },
            Template {
                file: "/srv/app/tpl/sub/b.html".to_string(),
                path: "sub/b.html".to_string()
            },
        ]
    );
}

#[test]
fn apis_get_dense_ids_and_keep_their_handlers() {
    let mut builder: PythonConfig<&str> = PythonConfig::new("n");
    assert_eq!(builder.add_api("first".to_string(), "h0", &none()).unwrap(), "first");
    assert_eq!(builder.add_api("second".to_string(), "h1", &none()).unwrap(), "second");
    assert_eq!(builder.add_api("third".to_string(), "h2", &none()).unwrap(), "third");
    let apis = &builder.config().apis;
    assert_eq!(apis.len(), 3);
    for (position, api) in apis.iter().enumerate() {
        assert_eq!(api.id, position as u64);
    }
    assert_eq!(apis[1].name, "second");
    assert_eq!(builder.api_objects(), &vec!["h0", "h1", "h2"]);
    assert!(builder.has_api("third"));
    assert!(!builder.has_api("fourth"));
}

#[test]
fn an_api_has_one_method_for_each_verb_of_its_handler() {
    let mut builder: PythonConfig<u8> = PythonConfig::new("n");
    let signatures = HandlerSignatures {
        get: Some(vec![raw("server", "", false), raw("key", "<class 'str'>", false)]),
        post: None,
        put: Some(vec![raw("key", "<class 'str'>", false), raw("value", "<class 'int'>", true)]),
        delete: Some(vec![]),
    };
    builder.add_api("store".to_string(), 1, &signatures).unwrap();
    assert_eq!(
        builder.config().apis,
        vec![Api {
            id: 0,
            name: "store".to_string(),
            methods: vec![
                ApiMethod {
                    method: UnicomMethod::Get,
                    parameters: vec![Parameter {
                        name: "key".to_string(),
                        kind: "<class 'str'>".to_string(),
                        mandatory: true
                    }],
                },
                ApiMethod {
                    method: UnicomMethod::Put,
                    parameters: vec![
                        Parameter {
                            name: "key".to_string(),
                            kind: "<class 'str'>".to_string(),
                            mandatory: true
                        },
                        Parameter {
                            name: "value".to_string(),
                            kind: "<class 'int'>".to_string(),
                            mandatory: false
                        },
                    ],
                },
                ApiMethod { method: UnicomMethod::Delete, parameters: vec![] },
            ],
        }]
    );
}

#[test]
fn a_second_api_under_a_name_is_refused() {
    let mut builder: PythonConfig<u8> = PythonConfig::new("n");
    builder.add_api("echo".to_string(), 1, &post_only(vec![])).unwrap();
    let error = builder.add_api("echo".to_string(), 2, &none()).unwrap_err();
    assert_eq!(
        error.error,
        UnicomError {
            kind: UnicomErrorKind::ParameterInvalid,
            description: "api already exists echo".to_string()
        }
    );
    // Nothing changed, and the next API gets the next id.
    assert_eq!(builder.config().apis.len(), 1);
    assert_eq!(builder.api_objects(), &vec![1]);
    builder.add_api("other".to_string(), 3, &none()).unwrap();
    assert_eq!(builder.config().apis[1].id, 1);
    assert_eq!(builder.api_objects(), &vec![1, 3]);
}

#[test]
fn endpoints_are_kept_in_order() {
    let mut builder: PythonConfig<u8> = PythonConfig::new("n");
    builder.add_static("^/files/".to_string(), "/srv/files".to_string());
    builder.add_dynamic("^/echo$".to_string(), "echo".to_string());
    builder.add_rest("^/rows/".to_string(), "rows".to_string());
    let mut apis = NameTable::new();
    apis.insert("list".to_string(), ApiConfig { api: "rows".to_string() });
    builder.add_view("^/$".to_string(), "index.html".to_string(), apis);
    let endpoints = &builder.config().endpoints;
    assert_eq!(endpoints.len(), 4);
    assert_eq!(endpoints[0].regex, "^/files/");
    assert!(matches!(&endpoints[0].kind, EndPointKind::Static { path } if path == "/srv/files"));
    assert!(matches!(&endpoints[1].kind, EndPointKind::Dynamic { api } if api == "echo"));
    assert!(matches!(&endpoints[2].kind, EndPointKind::Rest { api } if api == "rows"));
    match &endpoints[3].kind {
        EndPointKind::View { template, apis } => {
            assert_eq!(template, "index.html");
            assert_eq!(apis.get("list"), Some(&ApiConfig { api: "rows".to_string() }));
            assert_eq!(apis.len(), 1);
        }
        other => panic!("not a view: {:?}", other),
    }
}

#[test]
fn finish_hands_out_what_was_collected() {
    let mut builder: PythonConfig<&str> = PythonConfig::new("n");
    // An endpoint may name an API that is registered after it.
    builder.add_dynamic("^/echo$".to_string(), "echo".to_string());
    builder.add_api("echo".to_string(), "handler", &post_only(vec![])).unwrap();
    builder.add_static("^/s/".to_string(), "/s".to_string());
    let finished = builder.finish().unwrap();
    assert_eq!(finished.config.apis.len(), 1);
    assert_eq!(finished.config.endpoints.len(), 2);
    assert_eq!(finished.api_objects, vec!["handler"]);
    assert_eq!(finished.close_handler, None);
}

#[test]
fn finish_fails_on_the_first_endpoint_with_an_unknown_api() {
    let mut builder: PythonConfig<u8> = PythonConfig::new("n");
    builder.add_api("rows".to_string(), 0, &none()).unwrap();
    builder.add_rest("^/rows/".to_string(), "rows".to_string());
    builder.add_dynamic("^/a$".to_string(), "ghost".to_string());
    builder.add_rest("^/b$".to_string(), "phantom".to_string());
    assert_eq!(
        builder.finish().unwrap_err().error,
        UnicomError {
            kind: UnicomErrorKind::NotFound,
            description: "endpoint names an unknown api ^/a$".to_string()
        }
    );
}

#[test]
fn finish_looks_into_the_apis_of_a_view() {
    let mut builder: PythonConfig<u8> = PythonConfig::new("n");
    builder.add_api("rows".to_string(), 0, &none()).unwrap();
    let mut good = NameTable::new();
    good.insert("list".to_string(), ApiConfig { api: "rows".to_string() });
    builder.add_view("^/ok$".to_string(), "ok.html".to_string(), good);
    let mut bad = NameTable::new();
    bad.insert("list".to_string(), ApiConfig { api: "rows".to_string() });
    bad.insert("more".to_string(), ApiConfig { api: "ghost".to_string() });
    builder.add_view("^/bad$".to_string(), "bad.html".to_string(), bad);
    assert_eq!(
        builder.finish().unwrap_err().error,
        UnicomError::new(UnicomErrorKind::NotFound, "endpoint names an unknown api ^/bad$")
    );
}

#[test]
fn a_view_without_apis_needs_none() {
    let mut builder: PythonConfig<u8> = PythonConfig::new("n");
    builder.add_view("^/$".to_string(), "index.html".to_string(), NameTable::new());
    assert!(builder.finish().is_ok());
}

#[test]
fn the_close_handler_is_replaced_silently() {
    let mut builder: PythonConfig<&str> = PythonConfig::new("n");
    builder.add_close_handler("first");
    builder.add_close_handler("second");
    assert_eq!(builder.finish().unwrap().close_handler, Some("second"));
}

#[test]
fn a_builder_goes_on_from_a_configuration_without_apis() {
    let mut config = NodeConfig::new("seeded");
    config.tags.insert("env".to_string(), "test".to_string());
    let mut builder: PythonConfig<u8> = PythonConfig::seeded(config).unwrap();
    assert_eq!(builder.config().name, "seeded");
    assert_eq!(builder.config().tags.get("env"), Some(&"test".to_string()));
    builder.add_api("a".to_string(), 9, &none()).unwrap();
    assert_eq!(builder.config().apis[0].id, 0);

    let mut with_api = NodeConfig::new("n");
    with_api.apis.push(Api { id: 0, name: "x".to_string(), methods: vec![] });
    assert!(PythonConfig::<u8>::seeded(with_api).is_none());
}
