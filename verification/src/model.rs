use crate::config::{
    endpoints_view, endpoints_wf, tags_view, templates_view, EndPoint, EndPointKind,
    EndPointKindView, EndPointView, NodeConfig, NodeConfigView, Template, TemplateView,
};
use crate::error::{ErrorView, UnicomError, UnicomErrorKind};
use crate::names::NameTable;
use crate::text::{relative_path, relative_to};
use vstd::prelude::*;
use vstd::string::*;

verus! {

/// What the configuration file of a node says.
#[derive(Debug)]
pub struct ConfigModel {
    pub name: String,
    /// The directory whose files are the node's templates.
    pub templates_path: Option<String>,
    pub tags: Option<NameTable<String>>,
    pub endpoints: Option<Vec<EndPoint>>,
}

/// One entry of a walk through a directory.
#[derive(Debug, PartialEq, Eq)]
pub struct WalkEntry {
    /// The path of the entry: that of the directory the walk began at, and
    /// below it the way to the entry.
    pub path: String,
    /// Whether the entry is a regular file.
    pub is_file: bool,
    /// The absolute path of the entry.
    pub absolute: String,
}

/// What a `WalkEntry` stands for in contracts.
pub struct WalkEntryView {
    pub path: Seq<char>,
    pub is_file: bool,
    pub absolute: Seq<char>,
}

impl View for WalkEntry {
    type V = WalkEntryView;

    open spec fn view(&self) -> WalkEntryView {
        WalkEntryView { path: self.path@, is_file: self.is_file, absolute: self.absolute@ }
    }
}

/// What `walked` stands for in contracts.
pub open spec fn walk_view(walked: Seq<WalkEntry>) -> Seq<WalkEntryView> {
    walked.map_values(|e: WalkEntry| e@)
}

impl WalkEntryView {
    /// The template that the entry stands for in a walk from `root`: each
    /// regular file is one, under the path that leads from `root` to it.
    pub open spec fn template(self, root: Seq<char>) -> Option<TemplateView> {
        if self.is_file {
            match relative_to(root, self.path) {
                Some(path) => Some(TemplateView { file: self.absolute, path }),
                None => None,
            }
        } else {
            None
        }
    }

    /// Whether the entry is a file that does not lie under `root`.
    pub open spec fn astray(self, root: Seq<char>) -> bool {
        self.is_file && relative_to(root, self.path) is None
    }
}

/// The templates of a walk from `root`: its regular files, in the order of
/// the walk.
pub open spec fn walked_templates(root: Seq<char>, walked: Seq<WalkEntryView>) -> Seq<
    TemplateView,
> {
    walked.filter_map(|e: WalkEntryView| e.template(root))
}

/// Whether entry `i` is the first file of the walk that does not lie under
/// `root`.
pub open spec fn first_astray(root: Seq<char>, walked: Seq<WalkEntryView>, i: int) -> bool {
    &&& 0 <= i < walked.len()
    &&& walked[i].astray(root)
    &&& forall|j: int| 0 <= j < i ==> !(#[trigger] walked[j]).astray(root)
}

/// The failure of a walk that left its directory.
pub open spec fn astray_error(path: Seq<char>) -> ErrorView {
    ErrorView {
        kind: UnicomErrorKind::InputInvalid,
        description: "template outside of the templates directory "@ + path,
    }
}

/// The failure of a list of canonical paths that does not hold one path for
/// each endpoint of files.
pub open spec fn canonical_error() -> ErrorView {
    ErrorView {
        kind: UnicomErrorKind::ParameterInvalid,
        description: "one canonical path is needed for each static endpoint"@,
    }
}

/// The number of endpoints of files among the first `i`.
pub open spec fn statics_before(endpoints: Seq<EndPointView>, i: int) -> int
    decreases i,
{
    if i <= 0 {
        0
    } else {
        statics_before(endpoints, i - 1) + if endpoints[i - 1].kind is Static {
            1int
        } else {
            0int
        }
    }
}

/// The number of endpoints of files.
pub open spec fn static_count(endpoints: Seq<EndPointView>) -> int {
    statics_before(endpoints, endpoints.len() as int)
}

/// The path of an endpoint of files.
pub open spec fn static_path(endpoint: EndPointView) -> Option<Seq<char>> {
    match endpoint.kind {
        EndPointKindView::Static { path } => Some(path),
        _ => None,
    }
}

/// The paths of the endpoints of files, in the order of the endpoints.
pub open spec fn static_paths(endpoints: Seq<EndPointView>) -> Seq<Seq<char>> {
    endpoints.filter_map(|e: EndPointView| static_path(e))
}

/// Endpoint `i` with its path made canonical: an endpoint of files gets the
/// path of `canonical` that stands at its rank among the endpoints of files,
/// any other endpoint stays as it is.
pub open spec fn canonical_endpoint(
    endpoints: Seq<EndPointView>,
    canonical: Seq<Seq<char>>,
    i: int,
) -> EndPointView {
    match endpoints[i].kind {
        EndPointKindView::Static { path } => EndPointView {
            regex: endpoints[i].regex,
            kind: EndPointKindView::Static { path: canonical[statics_before(endpoints, i)] },
        },
        _ => endpoints[i],
    }
}

/// The endpoints with their paths made canonical.
pub open spec fn canonical_endpoints(endpoints: Seq<EndPointView>, canonical: Seq<Seq<char>>) -> Seq<
    EndPointView,
> {
    Seq::new(endpoints.len(), |i: int| canonical_endpoint(endpoints, canonical, i))
}

/// What `paths` stands for in contracts.
pub open spec fn paths_view(paths: Seq<String>) -> Seq<Seq<char>> {
    paths.map_values(|p: String| p@)
}

/// What a `ConfigModel` stands for in contracts.
pub struct ConfigModelView {
    pub name: Seq<char>,
    pub templates_path: Option<Seq<char>>,
    pub tags: Map<Seq<char>, Seq<char>>,
    pub endpoints: Seq<EndPointView>,
}

impl View for ConfigModel {
    type V = ConfigModelView;

    /// A table or a list that the file leaves out is empty.
    open spec fn view(&self) -> ConfigModelView {
        ConfigModelView {
            name: self.name@,
            templates_path: match self.templates_path {
                Some(p) => Some(p@),
                None => None,
            },
            tags: match self.tags {
                Some(t) => tags_view(t@),
                None => Map::empty(),
            },
            endpoints: match self.endpoints {
                Some(e) => endpoints_view(e@),
                None => Seq::empty(),
            },
        }
    }
}

impl ConfigModelView {
    /// The templates of the node: the files of the walk through the
    /// templates directory, where the file names one.
    pub open spec fn templates(self, walked: Seq<WalkEntryView>) -> Seq<TemplateView> {
        match self.templates_path {
            Some(root) => walked_templates(root, walked),
            None => Seq::empty(),
        }
    }

    /// Whether entry `i` of the walk is the first file that does not lie
    /// under the templates directory.
    pub open spec fn first_astray(self, walked: Seq<WalkEntryView>, i: int) -> bool {
        self.templates_path is Some && first_astray(self.templates_path->Some_0, walked, i)
    }

    /// The configuration that the file describes, given the walk through
    /// its templates directory and the canonical paths of its endpoints of
    /// files.
    pub open spec fn node_config(
        self,
        walked: Seq<WalkEntryView>,
        canonical: Seq<Seq<char>>,
    ) -> NodeConfigView {
        NodeConfigView {
            name: self.name,
            templates: self.templates(walked),
            tags: self.tags,
            endpoints: canonical_endpoints(self.endpoints, canonical),
            apis: Seq::empty(),
        }
    }
}

impl ConfigModel {
    /// No table of the model holds a name twice.
    pub open spec fn wf(&self) -> bool {
        &&& self.tags is Some ==> self.tags->Some_0.wf()
        &&& self.endpoints is Some ==> endpoints_wf(self.endpoints->Some_0@)
    }

    /// The paths of the endpoints of files, in the order of the endpoints:
    /// the paths to make canonical before `try_into`.
    pub fn static_paths(&self) -> (r: Vec<String>)
        ensures
            paths_view(r@) == static_paths(self@.endpoints),
            r@.len() == static_count(self@.endpoints),
    {
        let mut paths: Vec<String> = Vec::new();
        match &self.endpoints {
            Some(endpoints) => {
                let ghost all = endpoints_view(endpoints@);
                let ghost pick = |e: EndPointView| static_path(e);
                let mut i: usize = 0;
                assert(all.take(0) =~= Seq::<EndPointView>::empty());
                while i < endpoints.len()
                    invariant
                        i <= endpoints@.len(),
                        all == endpoints_view(endpoints@),
                        pick == (|e: EndPointView| static_path(e)),
                        paths_view(paths@) == all.take(i as int).filter_map(pick),
                        paths@.len() == statics_before(all, i as int),
                    decreases endpoints@.len() - i,
                {
                    proof {
                        all.lemma_filter_map_take_succ(pick, i as int);
                    }
                    let ghost before = paths_view(paths@);
                    assert(all[i as int] == endpoints@[i as int]@);
                    match &endpoints[i].kind {
                        EndPointKind::Static { path } => {
                            paths.push(path.clone());
                            assert(paths_view(paths@) =~= before + seq![path@]);
                        },
                        _ => {
                            assert(before + Seq::<Seq<char>>::empty() =~= before);
                        },
                    }
                    i += 1;
                }
                assert(all.take(endpoints@.len() as int) =~= all);
            },
            None => {
                assert(paths_view(paths@) =~= Seq::<Seq<char>>::empty());
            },
        }
        paths
    }

    /// Turns what the file says into the configuration of the node.
    ///
    /// `walked` is the walk through the templates directory: each regular
    /// file in it becomes a template, under the path that leads from the
    /// directory to it. `canonical` holds the canonical form of each path
    /// of `static_paths`, in the same order: the endpoints of files get
    /// them. The node has no API yet.
    ///
    /// Fails on the first file of the walk that does not lie under the
    /// templates directory, and then where `canonical` does not hold one
    /// path for each endpoint of files.
    pub fn try_into(self, walked: &Vec<WalkEntry>, canonical: &Vec<String>) -> (r: Result<
        NodeConfig,
        UnicomError,
    >)
        requires
            self.wf(),
        ensures
            match r {
                Ok(config) => {
                    &&& config.wf()
                    &&& config@ == self@.node_config(walk_view(walked@), paths_view(canonical@))
                    &&& forall|i: int| !self@.first_astray(walk_view(walked@), i)
                    &&& canonical@.len() == static_count(self@.endpoints)
                },
                Err(e) => {
                    ||| exists|i: int|
                        #[trigger] self@.first_astray(walk_view(walked@), i) && e@ == astray_error(
                            walk_view(walked@)[i].path,
                        )
                    ||| {
                        &&& forall|i: int| !self@.first_astray(walk_view(walked@), i)
                        &&& canonical@.len() != static_count(self@.endpoints)
                        &&& e@ == canonical_error()
                    }
                },
            },
    {
        let ghost model = self@;
        let ghost entries = walk_view(walked@);
        let mut config = NodeConfig::new(self.name.as_str());
        match &self.templates_path {
            Some(root) => {
                let ghost pick = |e: WalkEntryView| e.template(root@);
                let mut i: usize = 0;
                assert(entries.take(0) =~= Seq::<WalkEntryView>::empty());
                while i < walked.len()
                    invariant
                        i <= walked@.len(),
                        entries == walk_view(walked@),
                        pick == (|e: WalkEntryView| e.template(root@)),
                        templates_view(config.templates@) == entries.take(i as int).filter_map(
                            pick,
                        ),
                        forall|j: int| 0 <= j < i ==> !(#[trigger] entries[j]).astray(root@),
                        model.templates_path == Some(root@),
                        model == self@,
                        config.tags@ == Map::<Seq<char>, String>::empty(),
                        config.endpoints@.len() == 0,
                        config.apis@.len() == 0,
                        config.wf(),
                        config@ == (NodeConfigView {
                            templates: templates_view(config.templates@),
                            ..NodeConfigView::named(self.name@)
                        }),
                    decreases walked@.len() - i,
                {
                    let entry = &walked[i];
                    assert(entries[i as int] == entry@);
                    proof {
                        entries.lemma_filter_map_take_succ(pick, i as int);
                    }
                    let ghost before = templates_view(config.templates@);
                    if entry.is_file {
                        match relative_path(root.as_str(), entry.path.as_str()) {
                            Some(path) => {
                                let template = Template { file: entry.absolute.clone(), path };
                                config.templates.push(template);
                                assert(templates_view(config.templates@) =~= before
                                    + seq![template@]);
                            },
                            None => {
                                let mut description = String::from_str(
                                    "template outside of the templates directory ",
                                );
                                description.append(entry.path.as_str());
                                assert(first_astray(root@, entries, i as int));
                                assert(model.first_astray(entries, i as int));
                                return Err(
                                    UnicomError {
                                        kind: UnicomErrorKind::InputInvalid,
                                        description,
                                    },
                                );
                            },
                        }
                    } else {
                        assert(before + Seq::<TemplateView>::empty() =~= before);
                    }
                    i += 1;
                }
                assert(entries.take(walked@.len() as int) =~= entries);
            },
            None => {},
        }
        assert(config@.templates == model.templates(entries));
        assert(forall|i: int| !model.first_astray(entries, i));
        let endpoints = match self.endpoints {
            Some(endpoints) => endpoints,
            None => Vec::new(),
        };
        assert(endpoints_view(endpoints@) =~= model.endpoints);
        let ghost all = model.endpoints;
        let ghost paths = paths_view(canonical@);
        let n = endpoints.len();
        let mut k: usize = 0;
        let mut count: usize = 0;
        for endpoint in iter: endpoints
            invariant
                n == all.len(),
                iter.seq().len() == n,
                forall|j: int| 0 <= j < n ==> (#[trigger] iter.seq()[j])@ == all[j],
                forall|j: int| 0 <= j < n ==> (#[trigger] iter.seq()[j]).kind.wf(),
                count == iter.index(),
                k == statics_before(all, count as int),
                k <= count,
                k <= canonical@.len() ==> config.endpoints@.len() == count,
                k <= canonical@.len() ==> forall|j: int|
                    0 <= j < count ==> (#[trigger] config.endpoints@[j])@ == canonical_endpoint(
                        all,
                        paths,
                        j,
                    ),
                paths == paths_view(canonical@),
                config.tags.wf(),
                config.tags@ =~= Map::<Seq<char>, String>::empty(),
                config.apis@.len() == 0,
                config.name@ == model.name,
                templates_view(config.templates@) == model.templates(entries),
                endpoints_wf(config.endpoints@),
        {
            let ghost ahead = config.endpoints@;
            match endpoint.kind {
                EndPointKind::Static { path } => {
                    if k < canonical.len() {
                        config.endpoints.push(
                            EndPoint {
                                regex: endpoint.regex,
                                kind: EndPointKind::Static { path: canonical[k].clone() },
                            },
                        );
                    }
                    k += 1;
                },
                kind => {
                    if k <= canonical.len() {
                        config.endpoints.push(EndPoint { regex: endpoint.regex, kind });
                    }
                },
            }
            count += 1;
        }
        if k != canonical.len() {
            return Err(
                UnicomError::new(
                    UnicomErrorKind::ParameterInvalid,
                    "one canonical path is needed for each static endpoint",
                ),
            );
        }
        assert(endpoints_view(config.endpoints@) =~= canonical_endpoints(all, paths));
        match self.tags {
            Some(tags) => {
                config.tags = tags;
            },
            None => {
                assert(tags_view(config.tags@) =~= Map::<Seq<char>, Seq<char>>::empty());
            },
        }
        assert(config@.apis =~= Seq::empty());
        Ok(config)
    }
}

} // verus!
