use crate::bridge::{introspect_signature, introspected, signature_view, RawParameter, RawParameterView};
use crate::config::{
    apis_view, endpoints_view, methods_view, templates_view, Api, ApiConfig,
    ApiMethod, ApiMethodView, ApiView, EndPoint, EndPointKind, EndPointKindView, EndPointView,
    NodeConfig, NodeConfigView, Template, TemplateView,
};
use crate::error::{CustomUnicomError, ErrorView, UnicomError, UnicomErrorKind};
use crate::message::UnicomMethod;
use crate::names::NameTable;
use vstd::prelude::*;
use vstd::string::*;

verus! {

/// The parameters that a handler declares under each verb; `None` where it
/// does not answer under the verb.
#[derive(Debug, PartialEq, Eq)]
pub struct HandlerSignatures {
    pub get: Option<Vec<RawParameter>>,
    pub post: Option<Vec<RawParameter>>,
    pub put: Option<Vec<RawParameter>>,
    pub delete: Option<Vec<RawParameter>>,
}

/// What `signature` stands for in contracts.
pub open spec fn optional_signature_view(signature: Option<Vec<RawParameter>>) -> Option<
    Seq<RawParameterView>,
> {
    match signature {
        Some(s) => Some(signature_view(s@)),
        None => None,
    }
}

/// What a `HandlerSignatures` stands for in contracts.
pub struct HandlerSignaturesView {
    pub get: Option<Seq<RawParameterView>>,
    pub post: Option<Seq<RawParameterView>>,
    pub put: Option<Seq<RawParameterView>>,
    pub delete: Option<Seq<RawParameterView>>,
}

impl View for HandlerSignatures {
    type V = HandlerSignaturesView;

    open spec fn view(&self) -> HandlerSignaturesView {
        HandlerSignaturesView {
            get: optional_signature_view(self.get),
            post: optional_signature_view(self.post),
            put: optional_signature_view(self.put),
            delete: optional_signature_view(self.delete),
        }
    }
}

/// The method that an API has under `method`, if its handler answers there.
pub open spec fn declared_method(
    method: UnicomMethod,
    signature: Option<Seq<RawParameterView>>,
) -> Seq<ApiMethodView> {
    match signature {
        Some(s) => seq![ApiMethodView { method, parameters: introspected(s) }],
        None => Seq::empty(),
    }
}

impl HandlerSignaturesView {
    /// The methods of the API that the handler serves: one for each verb
    /// under which it answers, in the order GET, POST, PUT, DELETE.
    pub open spec fn methods(self) -> Seq<ApiMethodView> {
        declared_method(UnicomMethod::Get, self.get) + declared_method(
            UnicomMethod::Post,
            self.post,
        ) + declared_method(UnicomMethod::Put, self.put) + declared_method(
            UnicomMethod::Delete,
            self.delete,
        )
    }
}

/// The failure of a second API under a name.
pub open spec fn duplicate_api(name: Seq<char>) -> ErrorView {
    ErrorView { kind: UnicomErrorKind::ParameterInvalid, description: "api already exists "@ + name }
}

/// The failure of an endpoint that names an API which the node does not
/// have.
pub open spec fn dangling_endpoint(regex: Seq<char>) -> ErrorView {
    ErrorView {
        kind: UnicomErrorKind::NotFound,
        description: "endpoint names an unknown api "@ + regex,
    }
}

/// What a script collects of its node: templates, APIs with their handlers,
/// endpoints, and what to call when the node closes.
///
/// `H` is the type of the values that stand for objects of the script.
#[derive(Clone, Debug)]
pub struct PythonConfig<H> {
    config: NodeConfig,
    api_objects: Vec<H>,
    close_handler: Option<H>,
}

/// What a `PythonConfig` stands for in contracts.
pub struct PythonConfigView<H> {
    pub config: NodeConfigView,
    /// The handler of each API, at the position that is the API's id.
    pub api_objects: Seq<H>,
    pub close_handler: Option<H>,
}

impl<H> View for PythonConfig<H> {
    type V = PythonConfigView<H>;

    closed spec fn view(&self) -> PythonConfigView<H> {
        PythonConfigView {
            config: self.config@,
            api_objects: self.api_objects@,
            close_handler: self.close_handler,
        }
    }
}

impl<H> PythonConfigView<H> {
    /// Every API has its handler at its id, and no two share a name.
    pub open spec fn wf(self) -> bool {
        &&& self.api_objects.len() == self.config.apis.len()
        &&& self.config.dense()
        &&& self.config.distinct()
    }
}

/// What is left of a `PythonConfig` when the script is done with it.
#[derive(Debug)]
pub struct Finished<H> {
    pub config: NodeConfig,
    /// The handler of each API, at the position that is the API's id.
    pub api_objects: Vec<H>,
    pub close_handler: Option<H>,
}

impl<H> PythonConfig<H> {
    /// No table in the collection holds a name twice.
    pub closed spec fn inv(&self) -> bool {
        self.config.wf()
    }

    /// The tables are in order, and the collection stands for a well-formed
    /// view.
    pub open spec fn wf(&self) -> bool {
        self.inv() && self@.wf()
    }

    /// The builder of a node that has a name and nothing else.
    pub fn new(name: &str) -> (r: PythonConfig<H>)
        ensures
            r.wf(),
            r@ == (PythonConfigView::<H> {
                config: NodeConfigView::named(name@),
                api_objects: Seq::empty(),
                close_handler: None,
            }),
    {
        PythonConfig { config: NodeConfig::new(name), api_objects: Vec::new(), close_handler: None }
    }

    /// The builder that goes on from `config`, which has no API yet.
    pub fn seeded(config: NodeConfig) -> (r: Option<PythonConfig<H>>)
        requires
            config.wf(),
        ensures
            r is Some <==> config@.apis.len() == 0,
            r is Some ==> r->Some_0.wf() && r->Some_0@ == (PythonConfigView::<H> {
                config: config@,
                api_objects: Seq::empty(),
                close_handler: None,
            }),
    {
        if config.apis.len() == 0 {
            Some(PythonConfig { config, api_objects: Vec::new(), close_handler: None })
        } else {
            None
        }
    }

    /// What the builder has collected so far.
    pub fn config(&self) -> (r: &NodeConfig)
        ensures
            r@ == self@.config,
            self.wf() ==> r.wf(),
    {
        &self.config
    }

    /// The handlers of the APIs, each at the position that is its API's id.
    pub fn api_objects(&self) -> (r: &Vec<H>)
        ensures
            r@ == self@.api_objects,
    {
        &self.api_objects
    }

    /// Registers a template: `file` is the absolute path of the file, `path`
    /// the logical path under which the node offers it.
    pub fn add_template(&mut self, file: &str, path: &str)
        requires
            old(self).wf(),
        ensures
            final(self).wf(),
            final(self)@ == (PythonConfigView {
                config: NodeConfigView {
                    templates: old(self)@.config.templates.push(
                        TemplateView { file: file@, path: path@ },
                    ),
                    ..old(self)@.config
                },
                ..old(self)@
            }),
    {
        let template = Template { file: file.to_owned(), path: path.to_owned() };
        self.config.templates.push(template);
        assert(templates_view(self.config.templates@) =~= templates_view(
            old(self).config.templates@,
        ).push(template@));
    }

    /// Whether the node has an API of that name.
    pub fn has_api(&self, name: &str) -> (r: bool)
        ensures
            r == self@.config.has_api(name@),
    {
        let mut i: usize = 0;
        while i < self.config.apis.len()
            invariant
                i <= self.config.apis@.len(),
                forall|j: int| 0 <= j < i ==> (#[trigger] self@.config.apis[j]).name != name@,
            decreases self.config.apis@.len() - i,
        {
            if crate::names::same_text(self.config.apis[i].name.as_str(), name) {
                assert(self@.config.apis[i as int].name == name@);
                return true;
            }
            i += 1;
        }
        false
    }

    /// Registers an API under `name`, served by `object`. The API gets one
    /// method for each verb under which the handler answers, with the
    /// parameters that the handler declares there, and the number of the
    /// APIs before it as its id; the handler is kept at that position. A
    /// name that is taken is refused, and nothing changes.
    pub fn add_api(&mut self, name: String, object: H, signatures: &HandlerSignatures) -> (r:
        Result<String, CustomUnicomError>)
        requires
            old(self).wf(),
        ensures
            final(self).wf(),
            match r {
                Ok(registered) => {
                    &&& !old(self)@.config.has_api(name@)
                    &&& registered@ == name@
                    &&& final(self)@ == old(self)@.with_api(name@, object, signatures@.methods())
                },
                Err(e) => {
                    &&& old(self)@.config.has_api(name@)
                    &&& e@ == duplicate_api(name@)
                    &&& final(self)@ == old(self)@
                },
            },
    {
        if self.has_api(name.as_str()) {
            let mut description = String::from_str("api already exists ");
            description.append(name.as_str());
            return Err(
                CustomUnicomError {
                    error: UnicomError { kind: UnicomErrorKind::ParameterInvalid, description },
                },
            );
        }
        let mut methods: Vec<ApiMethod> = Vec::new();
        assert(methods_view(methods@) =~= Seq::<ApiMethodView>::empty());
        if let Some(signature) = &signatures.get {
            let method = ApiMethod::new(UnicomMethod::Get, introspect_signature(signature));
            methods.push(method);
        }
        assert(methods_view(methods@) =~= declared_method(UnicomMethod::Get, signatures@.get));
        let ghost after_get = methods_view(methods@);
        if let Some(signature) = &signatures.post {
            let method = ApiMethod::new(UnicomMethod::Post, introspect_signature(signature));
            methods.push(method);
        }
        assert(methods_view(methods@) =~= after_get + declared_method(
            UnicomMethod::Post,
            signatures@.post,
        ));
        let ghost after_post = methods_view(methods@);
        if let Some(signature) = &signatures.put {
            let method = ApiMethod::new(UnicomMethod::Put, introspect_signature(signature));
            methods.push(method);
        }
        assert(methods_view(methods@) =~= after_post + declared_method(
            UnicomMethod::Put,
            signatures@.put,
        ));
        let ghost after_put = methods_view(methods@);
        if let Some(signature) = &signatures.delete {
            let method = ApiMethod::new(UnicomMethod::Delete, introspect_signature(signature));
            methods.push(method);
        }
        assert(methods_view(methods@) =~= after_put + declared_method(
            UnicomMethod::Delete,
            signatures@.delete,
        ));
        let id = self.api_objects.len() as u64;
        let api = Api { id, name: name.clone(), methods };
        let ghost before = apis_view(self.config.apis@);
        self.config.apis.push(api);
        self.api_objects.push(object);
        proof {
            let after = apis_view(self.config.apis@);
            assert(after =~= before.push(api@));
            assert forall|i: int, j: int| 0 <= i < j < after.len() implies (#[trigger] after[i]).name
                != (#[trigger] after[j]).name by {
                if j < before.len() {
                    assert(before[i].name != before[j].name);
                } else {
                    assert(before[i].name != name@);
                }
            }
        }
        Ok(name)
    }

    /// Registers the files under `path` for the URLs that match `regex`.
    pub fn add_static(&mut self, regex: String, path: String)
        requires
            old(self).wf(),
        ensures
            final(self).wf(),
            final(self)@ == old(self)@.with_endpoint(
                EndPointView { regex: regex@, kind: EndPointKindView::Static { path: path@ } },
            ),
    {
        self.add_endpoint(EndPoint { regex, kind: EndPointKind::Static { path } });
    }

    /// Registers the API `api` for the URLs that match `regex`.
    pub fn add_dynamic(&mut self, regex: String, api: String)
        requires
            old(self).wf(),
        ensures
            final(self).wf(),
            final(self)@ == old(self)@.with_endpoint(
                EndPointView { regex: regex@, kind: EndPointKindView::Dynamic { api: api@ } },
            ),
    {
        self.add_endpoint(EndPoint { regex, kind: EndPointKind::Dynamic { api } });
    }

    /// Registers the API `api`, called in REST style, for the URLs that match
    /// `regex`.
    pub fn add_rest(&mut self, regex: String, api: String)
        requires
            old(self).wf(),
        ensures
            final(self).wf(),
            final(self)@ == old(self)@.with_endpoint(
                EndPointView { regex: regex@, kind: EndPointKindView::Rest { api: api@ } },
            ),
    {
        self.add_endpoint(EndPoint { regex, kind: EndPointKind::Rest { api } });
    }

    /// Registers a template, filled from the APIs that `apis` names by
    /// alias, for the URLs that match `regex`.
    pub fn add_view(&mut self, regex: String, template: String, apis: NameTable<ApiConfig>)
        requires
            old(self).wf(),
            apis.wf(),
        ensures
            final(self).wf(),
            final(self)@ == old(self)@.with_endpoint(
                EndPointView {
                    regex: regex@,
                    kind: EndPointKindView::View {
                        template: template@,
                        apis: apis@.map_values(|c: ApiConfig| c@),
                    },
                },
            ),
    {
        self.add_endpoint(EndPoint { regex, kind: EndPointKind::View { template, apis } });
    }

    fn add_endpoint(&mut self, endpoint: EndPoint)
        requires
            old(self).wf(),
            endpoint.kind.wf(),
        ensures
            final(self).wf(),
            final(self)@ == old(self)@.with_endpoint(endpoint@),
    {
        self.config.endpoints.push(endpoint);
        assert(endpoints_view(self.config.endpoints@) =~= endpoints_view(
            old(self).config.endpoints@,
        ).push(endpoint@));
    }

    /// Sets what to call when the node closes, in place of what was set
    /// before.
    pub fn add_close_handler(&mut self, callable: H)
        requires
            old(self).wf(),
        ensures
            final(self).wf(),
            final(self)@ == (PythonConfigView { close_handler: Some(callable), ..old(self)@ }),
    {
        self.close_handler = Some(callable);
    }

    /// Whether everything that `kind` names exists.
    fn resolves(&self, kind: &EndPointKind) -> (r: bool)
        requires
            kind.wf(),
        ensures
            r == self@.config.resolves(kind@),
    {
        match kind {
            EndPointKind::Static { path } => true,
            EndPointKind::Dynamic { api } => self.has_api(api.as_str()),
            EndPointKind::Rest { api } => self.has_api(api.as_str()),
            EndPointKind::View { template, apis } => {
                let n = apis.len();
                let mut i: usize = 0;
                proof {
                    apis.lemma_names();
                }
                while i < n
                    invariant
                        i <= n,
                        n == apis.spec_names().len(),
                        apis.wf(),
                        *kind == (EndPointKind::View { template: *template, apis: *apis }),
                        forall|j: int|
                            0 <= j < i ==> apis@.contains_key(#[trigger] apis.spec_names()[j])
                                && self@.config.has_api(apis@[apis.spec_names()[j]].api@),
                    decreases n - i,
                {
                    let target = apis.value_at(i);
                    if !self.has_api(target.api.as_str()) {
                        proof {
                            let alias = apis.spec_names()[i as int];
                            let table = kind@->apis;
                            assert(table.contains_key(alias));
                            assert(table[alias].api == target.api@);
                        }
                        return false;
                    }
                    i += 1;
                }
                proof {
                    let table = kind@->apis;
                    assert forall|alias: Seq<char>| table.contains_key(alias) implies self@.config.has_api(
                        (#[trigger] table[alias]).api,
                    ) by {
                        assert(apis.spec_names().contains(alias));
                        let j = choose|j: int|
                            0 <= j < apis.spec_names().len() && apis.spec_names()[j] == alias;
                        assert(self@.config.has_api(apis@[apis.spec_names()[j]].api@));
                    }
                }
                true
            },
        }
    }

    /// Ends the collection and hands out its parts. Succeeds where every
    /// endpoint names a path or APIs of the node; fails on the first
    /// endpoint that names an API which the node does not have.
    pub fn finish(self) -> (r: Result<Finished<H>, CustomUnicomError>)
        requires
            self.wf(),
        ensures
            match r {
                Ok(finished) => {
                    &&& self@.config.complete()
                    &&& finished.config.wf()
                    &&& finished.config@ == self@.config
                    &&& finished.api_objects@ == self@.api_objects
                    &&& finished.close_handler == self@.close_handler
                    &&& self@.wf()
                },
                Err(e) => exists|i: int|
                    #[trigger] self@.config.first_dangling(i) && e@ == dangling_endpoint(
                        self@.config.endpoints[i].regex,
                    ),
            },
    {
        let mut i: usize = 0;
        while i < self.config.endpoints.len()
            invariant
                i <= self.config.endpoints@.len(),
                self.wf(),
                forall|j: int| 0 <= j < i ==> !self@.config.dangling(j),
            decreases self.config.endpoints@.len() - i,
        {
            let endpoint = &self.config.endpoints[i];
            assert(self@.config.endpoints[i as int] == endpoint@);
            if !self.resolves(&endpoint.kind) {
                let mut description = String::from_str("endpoint names an unknown api ");
                description.append(endpoint.regex.as_str());
                assert(self@.config.first_dangling(i as int));
                return Err(
                    CustomUnicomError {
                        error: UnicomError { kind: UnicomErrorKind::NotFound, description },
                    },
                );
            }
            i += 1;
        }
        Ok(
            Finished {
                config: self.config,
                api_objects: self.api_objects,
                close_handler: self.close_handler,
            },
        )
    }
}

impl<H> PythonConfigView<H> {
    /// The collection with one more API: it stands behind the APIs that
    /// were there, its id is their number, and its handler stands at that
    /// position.
    pub open spec fn with_api(
        self,
        name: Seq<char>,
        object: H,
        methods: Seq<ApiMethodView>,
    ) -> PythonConfigView<H> {
        PythonConfigView {
            config: NodeConfigView {
                apis: self.config.apis.push(
                    ApiView { id: self.config.apis.len() as u64, name, methods },
                ),
                ..self.config
            },
            api_objects: self.api_objects.push(object),
            ..self
        }
    }

    /// The collection with one more endpoint.
    pub open spec fn with_endpoint(self, endpoint: EndPointView) -> PythonConfigView<H> {
        PythonConfigView {
            config: NodeConfigView {
                endpoints: self.config.endpoints.push(endpoint),
                ..self.config
            },
            ..self
        }
    }
}

/// APIs keep their ids: a new API under a free name leaves every API that
/// was there, and its handler, where it stood, and the collection well
/// formed; the handler of the new API is found at its id.
pub proof fn law_apis_keep_their_ids<H>(
    collected: PythonConfigView<H>,
    name: Seq<char>,
    object: H,
    methods: Seq<ApiMethodView>,
    id: int,
)
    requires
        collected.wf(),
        collected.config.apis.len() <= u64::MAX,
        !collected.config.has_api(name),
    ensures
        collected.with_api(name, object, methods).wf(),
        0 <= id < collected.config.apis.len() ==> {
            &&& collected.with_api(name, object, methods).config.apis[id] == collected.config.apis[id]
            &&& collected.with_api(name, object, methods).api_objects[id] == collected.api_objects[id]
        },
        collected.with_api(name, object, methods).api_objects[collected.config.apis.len() as int]
            == object,
        collected.with_api(name, object, methods).config.apis[collected.config.apis.len() as int].id
            == collected.config.apis.len(),
{
    let after = collected.with_api(name, object, methods).config.apis;
    assert forall|i: int, j: int| 0 <= i < j < after.len() implies (#[trigger] after[i]).name != (
    #[trigger] after[j]).name by {
        if j < collected.config.apis.len() {
            assert(collected.config.apis[i].name != collected.config.apis[j].name);
        } else {
            assert(collected.config.apis[i].name != name);
        }
    }
}

} // verus!
