use unicom_python::config::{ApiConfig, EndPoint, EndPointKind, Template};
use unicom_python::error::{UnicomError, UnicomErrorKind};
use unicom_python::model::{ConfigModel, WalkEntry};
use unicom_python::names::NameTable;

fn entry(path: &str, is_file: bool, absolute: &str) -> WalkEntry {
    WalkEntry { path: path.to_string(), is_file, absolute: absolute.to_string() }
}

fn endpoint(regex: &str, kind: EndPointKind) -> EndPoint {
    EndPoint { regex: regex.to_string(), kind }
}

fn model(templates_path: Option<&str>, endpoints: Option<Vec<EndPoint>>) -> ConfigModel {
    ConfigModel {
        name: "shop".to_string(),
        templates_path: templates_path.map(|p| p.to_string()),
        tags: None,
        endpoints,
    }
}

#[test]
fn a_bare_model_gives_a_bare_configuration() {
    let config = model(None, None).try_into(&vec![], &vec![]).unwrap();
    assert_eq!(config.name, "shop");
    assert!(config.templates.is_empty());
    assert_eq!(config.tags.len(), 0);
    assert!(config.endpoints.is_empty());
    assert!(config.apis.is_empty());
}

#[test]
fn each_regular_file_of_the_walk_is_a_template() {
    let walked = vec![
        entry("tpl", false, "/srv/app/tpl"),
        entry("tpl/index.html", true, "/srv/app/tpl/index.html"),
        entry("tpl/sub", false, "/srv/app/tpl/sub"),
        entry("tpl/sub/row.html", true, "/srv/app/tpl/sub/row.html"),
    ];
    let config = model(Some("tpl"), None).try_into(&walked, &vec![]).unwrap();
    assert_eq!(
        config.templates,
        vec![
            Template {
                file: "/srv/app/tpl/index.html".to_string(),
                path: "index.html".to_string()
            },
            Template {
                file: "/srv/app/tpl/sub/row.html".to_string(),
                path: "sub/row.html".to_string()
            },
        ]
    );
}

#[test]
fn a_walk_is_ignored_without_a_templates_directory() {
    let walked = vec![entry("tpl/index.html", true, "/srv/app/tpl/index.html")];
    let config = model(None, None).try_into(&walked, &vec![]).unwrap();
    assert!(config.templates.is_empty());
}

#[test]
fn a_file_outside_of_the_directory_is_refused() {
    let walked = vec![
        entry("tpl/a.html", true, "/srv/app/tpl/a.html"),
        entry("other/b.html", true, "/srv/app/other/b.html"),
        entry("elsewhere/c.html", true, "/srv/app/elsewhere/c.html"),
    ];
    let error = model(Some("tpl"), None).try_into(&walked, &vec![]).unwrap_err();
    assert_eq!(
        error,
        UnicomError {
            kind: UnicomErrorKind::InputInvalid,
            description: "template outside of the templates directory other/b.html".to_string()
        }
    );
    // A directory elsewhere is no template, and does no harm.
    let dirs = vec![entry("other", false, "/srv/app/other")];
    assert!(model(Some("tpl"), None).try_into(&dirs, &vec![]).is_ok());
}

#[test]
fn tags_are_taken_over() {
    let mut tags = NameTable::new();
    tags.insert("env".to_string(), "prod".to_string());
    tags.insert("zone".to_string(), "eu".to_string());
    let model = ConfigModel {
        name: "shop".to_string(),
        templates_path: None,
        tags: Some(tags),
        endpoints: None,
    };
    let config = model.try_into(&vec![], &vec![]).unwrap();
    assert_eq!(config.tags.len(), 2);
    assert_eq!(config.tags.get("env"), Some(&"prod".to_string()));
    assert_eq!(config.tags.get("zone"), Some(&"eu".to_string()));
}

#[test]
fn static_paths_lists_the_paths_to_make_canonical() {
    let mut apis = NameTable::new();
    apis.insert("list".to_string(), ApiConfig { api: "rows".to_string() });
    let model = model(
        None,
        Some(vec![
            endpoint("^/a/", EndPointKind::Static { path: "./a".to_string() }),
            endpoint("^/d$", EndPointKind::Dynamic { api: "d".to_string() }),
            endpoint("^/b/", EndPointKind::Static { path: "../b".to_string() }),
            endpoint("^/v$", EndPointKind::View { template: "v.html".to_string(), apis }),
        ]),
    );
    assert_eq!(model.static_paths(), vec!["./a".to_string(), "../b".to_string()]);
    assert_eq!(super_empty().static_paths(), Vec::<String>::new());
}

fn super_empty() -> ConfigModel {
    model(None, None)
}

#[test]
fn endpoints_of_files_get_their_canonical_paths() {
    let model = model(
        None,
        Some(vec![
            endpoint("^/a/", EndPointKind::Static { path: "./a".to_string() }),
            endpoint("^/d$", EndPointKind::Dynamic { api: "d".to_string() }),
            endpoint("^/r/", EndPointKind::Rest { api: "r".to_string() }),
            endpoint("^/b/", EndPointKind::Static { path: "../b".to_string() }),
        ]),
    );
    let canonical = vec!["/srv/app/a".to_string(), "/srv/b".to_string()];
    let config = model.try_into(&vec![], &canonical).unwrap();
    let endpoints = &config.endpoints;
    assert_eq!(endpoints.len(), 4);
    assert_eq!(endpoints[0].regex, "^/a/");
    assert!(matches!(&endpoints[0].kind, EndPointKind::Static { path } if path == "/srv/app/a"));
    assert_eq!(endpoints[1].regex, "^/d$");
    assert!(matches!(&endpoints[1].kind, EndPointKind::Dynamic { api } if api == "d"));
    assert_eq!(endpoints[2].regex, "^/r/");
    assert!(matches!(&endpoints[2].kind, EndPointKind::Rest { api } if api == "r"));
    assert_eq!(endpoints[3].regex, "^/b/");
    assert!(matches!(&endpoints[3].kind, EndPointKind::Static { path } if path == "/srv/b"));
}

#[test]
fn one_canonical_path_is_needed_for_each_endpoint_of_files() {
    let endpoints = || {
        Some(vec![
            endpoint("^/a/", EndPointKind::Static { path: "./a".to_string() }),
            endpoint("^/b/", EndPointKind::Static { path: "./b".to_string() }),
        ])
    };
    let expected = UnicomError {
        kind: UnicomErrorKind::ParameterInvalid,
        description: "one canonical path is needed for each static endpoint".to_string(),
    };
    assert_eq!(
        model(None, endpoints()).try_into(&vec![], &vec!["/a".to_string()]).unwrap_err(),
        expected
    );
    assert_eq!(
        model(None, endpoints())
            .try_into(&vec![], &vec!["/a".to_string(), "/b".to_string(), "/c".to_string()])
            .unwrap_err(),
        expected
    );
    assert_eq!(
        model(None, None).try_into(&vec![], &vec!["/a".to_string()]).unwrap_err(),
        expected
    );
}

#[test]
fn the_walk_is_judged_before_the_canonical_paths() {
    let walked = vec![entry("x/a.html", true, "/x/a.html")];
    let error = model(Some("tpl"), None).try_into(&walked, &vec!["/a".to_string()]).unwrap_err();
    assert_eq!(error.kind, UnicomErrorKind::InputInvalid);
}
