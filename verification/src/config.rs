use crate::message::UnicomMethod;
use crate::names::NameTable;
use vstd::prelude::*;

verus! {

/// One parameter of a method of an API.
#[derive(Clone, Debug, PartialEq, Eq)]
pub struct Parameter {
    pub name: String,
    /// The type that the handler annotates the parameter with, as text.
    pub kind: String,
    /// Whether a caller has to give the parameter.
    pub mandatory: bool,
}

/// What a `Parameter` stands for in contracts.
pub struct ParameterView {
    pub name: Seq<char>,
    pub kind: Seq<char>,
    pub mandatory: bool,
}

impl View for Parameter {
    type V = ParameterView;

    open spec fn view(&self) -> ParameterView {
        ParameterView { name: self.name@, kind: self.kind@, mandatory: self.mandatory }
    }
}

impl Parameter {
    pub fn new(name: String, kind: String, mandatory: bool) -> (r: Parameter)
        ensures
            r@ == (ParameterView { name: name@, kind: kind@, mandatory }),
    {
        Parameter { name, kind, mandatory }
    }
}

/// What `parameters` stands for in contracts.
pub open spec fn parameters_view(parameters: Seq<Parameter>) -> Seq<ParameterView> {
    parameters.map_values(|p: Parameter| p@)
}

/// One verb of an API, with the parameters that its handler declares.
#[derive(Clone, Debug, PartialEq, Eq)]
pub struct ApiMethod {
    pub method: UnicomMethod,
    pub parameters: Vec<Parameter>,
}

/// What an `ApiMethod` stands for in contracts.
pub struct ApiMethodView {
    pub method: UnicomMethod,
    pub parameters: Seq<ParameterView>,
}

impl View for ApiMethod {
    type V = ApiMethodView;

    open spec fn view(&self) -> ApiMethodView {
        ApiMethodView { method: self.method, parameters: parameters_view(self.parameters@) }
    }
}

impl ApiMethod {
    pub fn new(method: UnicomMethod, parameters: Vec<Parameter>) -> (r: ApiMethod)
        ensures
            r@ == (ApiMethodView { method, parameters: parameters_view(parameters@) }),
    {
        ApiMethod { method, parameters }
    }
}

/// What `methods` stands for in contracts.
pub open spec fn methods_view(methods: Seq<ApiMethod>) -> Seq<ApiMethodView> {
    methods.map_values(|m: ApiMethod| m@)
}

/// A named collection of verbs, served by one handler.
#[derive(Clone, Debug, PartialEq, Eq)]
pub struct Api {
    /// The position of the API among the APIs of its node.
    pub id: u64,
    pub name: String,
    pub methods: Vec<ApiMethod>,
}

/// What an `Api` stands for in contracts.
pub struct ApiView {
    pub id: u64,
    pub name: Seq<char>,
    pub methods: Seq<ApiMethodView>,
}

impl View for Api {
    type V = ApiView;

    open spec fn view(&self) -> ApiView {
        ApiView { id: self.id, name: self.name@, methods: methods_view(self.methods@) }
    }
}

impl ApiView {
    /// Whether the API answers under `method`.
    pub open spec fn declares(self, method: UnicomMethod) -> bool {
        exists|i: int| 0 <= i < self.methods.len() && (#[trigger] self.methods[i]).method == method
    }
}

/// What `apis` stands for in contracts.
pub open spec fn apis_view(apis: Seq<Api>) -> Seq<ApiView> {
    apis.map_values(|a: Api| a@)
}

/// A template file and the path under which the node offers it.
#[derive(Clone, Debug, PartialEq, Eq)]
pub struct Template {
    /// The absolute path of the file.
    pub file: String,
    /// The logical path.
    pub path: String,
}

/// What a `Template` stands for in contracts.
pub struct TemplateView {
    pub file: Seq<char>,
    pub path: Seq<char>,
}

impl View for Template {
    type V = TemplateView;

    open spec fn view(&self) -> TemplateView {
        TemplateView { file: self.file@, path: self.path@ }
    }
}

/// What `templates` stands for in contracts.
pub open spec fn templates_view(templates: Seq<Template>) -> Seq<TemplateView> {
    templates.map_values(|t: Template| t@)
}

/// How a view reaches one API.
#[derive(Clone, Debug, PartialEq, Eq)]
pub struct ApiConfig {
    /// The name of the API.
    pub api: String,
}

/// What an `ApiConfig` stands for in contracts.
pub struct ApiConfigView {
    pub api: Seq<char>,
}

impl View for ApiConfig {
    type V = ApiConfigView;

    open spec fn view(&self) -> ApiConfigView {
        ApiConfigView { api: self.api@ }
    }
}

/// What serves the URLs of an endpoint.
#[derive(Clone, Debug)]
pub enum EndPointKind {
    /// The files under a path.
    Static { path: String },
    /// An API, called as the URL says.
    Dynamic { api: String },
    /// An API, called in REST style.
    Rest { api: String },
    /// A template, filled from the APIs that it names by alias.
    View { template: String, apis: NameTable<ApiConfig> },
}

/// What an `EndPointKind` stands for in contracts.
pub enum EndPointKindView {
    Static { path: Seq<char> },
    Dynamic { api: Seq<char> },
    Rest { api: Seq<char> },
    View { template: Seq<char>, apis: Map<Seq<char>, ApiConfigView> },
}

impl View for EndPointKind {
    type V = EndPointKindView;

    open spec fn view(&self) -> EndPointKindView {
        match self {
            EndPointKind::Static { path } => EndPointKindView::Static { path: path@ },
            EndPointKind::Dynamic { api } => EndPointKindView::Dynamic { api: api@ },
            EndPointKind::Rest { api } => EndPointKindView::Rest { api: api@ },
            EndPointKind::View { template, apis } => EndPointKindView::View {
                template: template@,
                apis: apis@.map_values(|c: ApiConfig| c@),
            },
        }
    }
}

impl EndPointKind {
    /// The table of a view holds no alias twice.
    pub open spec fn wf(&self) -> bool {
        match self {
            EndPointKind::View { template, apis } => apis.wf(),
            _ => true,
        }
    }
}

/// The URLs that match a pattern, and what serves them.
#[derive(Clone, Debug)]
pub struct EndPoint {
    pub regex: String,
    pub kind: EndPointKind,
}

/// What an `EndPoint` stands for in contracts.
pub struct EndPointView {
    pub regex: Seq<char>,
    pub kind: EndPointKindView,
}

impl View for EndPoint {
    type V = EndPointView;

    open spec fn view(&self) -> EndPointView {
        EndPointView { regex: self.regex@, kind: self.kind@ }
    }
}

/// What `endpoints` stands for in contracts.
pub open spec fn endpoints_view(endpoints: Seq<EndPoint>) -> Seq<EndPointView> {
    endpoints.map_values(|e: EndPoint| e@)
}

pub open spec fn endpoints_wf(endpoints: Seq<EndPoint>) -> bool {
    forall|i: int| 0 <= i < endpoints.len() ==> (#[trigger] endpoints[i]).kind.wf()
}

/// What `tags` stands for in contracts.
pub open spec fn tags_view(tags: Map<Seq<char>, String>) -> Map<Seq<char>, Seq<char>> {
    tags.map_values(|t: String| t@)
}

/// What a node tells the broker of itself.
#[derive(Clone, Debug)]
pub struct NodeConfig {
    pub name: String,
    pub templates: Vec<Template>,
    pub tags: NameTable<String>,
    pub endpoints: Vec<EndPoint>,
    pub apis: Vec<Api>,
}

/// What a `NodeConfig` stands for in contracts.
pub struct NodeConfigView {
    pub name: Seq<char>,
    pub templates: Seq<TemplateView>,
    pub tags: Map<Seq<char>, Seq<char>>,
    pub endpoints: Seq<EndPointView>,
    pub apis: Seq<ApiView>,
}

impl View for NodeConfig {
    type V = NodeConfigView;

    open spec fn view(&self) -> NodeConfigView {
        NodeConfigView {
            name: self.name@,
            templates: templates_view(self.templates@),
            tags: tags_view(self.tags@),
            endpoints: endpoints_view(self.endpoints@),
            apis: apis_view(self.apis@),
        }
    }
}

impl NodeConfigView {
    /// The configuration of a node that has a name and nothing else.
    pub open spec fn named(name: Seq<char>) -> NodeConfigView {
        NodeConfigView {
            name,
            templates: Seq::empty(),
            tags: Map::empty(),
            endpoints: Seq::empty(),
            apis: Seq::empty(),
        }
    }

    /// Whether the node has an API of that name.
    pub open spec fn has_api(self, name: Seq<char>) -> bool {
        exists|i: int| 0 <= i < self.apis.len() && (#[trigger] self.apis[i]).name == name
    }

    /// The id of each API is its position.
    pub open spec fn dense(self) -> bool {
        forall|i: int| 0 <= i < self.apis.len() ==> (#[trigger] self.apis[i]).id == i
    }

    /// No two APIs share a name.
    pub open spec fn distinct(self) -> bool {
        forall|i: int, j: int|
            0 <= i < j < self.apis.len() ==> (#[trigger] self.apis[i]).name != (
            #[trigger] self.apis[j]).name
    }

    /// Whether everything that `kind` names exists: a path needs nothing,
    /// an API has to be one of the node.
    pub open spec fn resolves(self, kind: EndPointKindView) -> bool {
        match kind {
            EndPointKindView::Static { path } => true,
            EndPointKindView::Dynamic { api } => self.has_api(api),
            EndPointKindView::Rest { api } => self.has_api(api),
            EndPointKindView::View { template, apis } => forall|alias: Seq<char>|
                apis.contains_key(alias) ==> self.has_api((#[trigger] apis[alias]).api),
        }
    }

    /// Whether endpoint `i` names an API that the node does not have.
    pub open spec fn dangling(self, i: int) -> bool {
        0 <= i < self.endpoints.len() && !self.resolves(self.endpoints[i].kind)
    }

    /// Every endpoint names a path or APIs of the node.
    pub open spec fn complete(self) -> bool {
        forall|i: int| !self.dangling(i)
    }

    /// Whether endpoint `i` is the first that names an API that the node
    /// does not have.
    pub open spec fn first_dangling(self, i: int) -> bool {
        self.dangling(i) && forall|j: int| 0 <= j < i ==> !self.dangling(j)
    }
}

impl NodeConfig {
    /// No table in the configuration holds a name twice.
    pub open spec fn wf(&self) -> bool {
        self.tags.wf() && endpoints_wf(self.endpoints@)
    }

    /// The configuration of a node that has a name and nothing else.
    pub fn new(name: &str) -> (r: NodeConfig)
        ensures
            r.wf(),
            r@ == NodeConfigView::named(name@),
            r.templates@.len() == 0,
            r.tags@ == Map::<Seq<char>, String>::empty(),
            r.endpoints@.len() == 0,
            r.apis@.len() == 0,
    {
        let r = NodeConfig {
            name: name.to_owned(),
            templates: Vec::new(),
            tags: NameTable::new(),
            endpoints: Vec::new(),
            apis: Vec::new(),
        };
        assert(r@.templates =~= Seq::empty());
        assert(r@.tags =~= Map::empty());
        assert(r@.endpoints =~= Seq::empty());
        assert(r@.apis =~= Seq::empty());
        r
    }
}

} // verus!
