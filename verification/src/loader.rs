//! The decisions of the bridge between the loader runner and loaders that
//! run in the host: when a loader is handed over to the host, and what
//! comes back from it into the runner's state.

use crate::text::text_equal;
use vstd::prelude::*;

verus! {

/// The prefix of the requests of loaders that are built in.
pub const BUILTIN_LOADER_PREFIX: &'static str = "builtin:";

/// The phase that the loader runner is in.
#[derive(Debug, Clone, Copy, PartialEq, Eq)]
pub enum LoaderState {
    Init,
    Pitching,
    ProcessResource,
    Normal,
    Finished,
}

/// The phase of the runner as the host sees it.
#[derive(Debug, Clone, Copy, PartialEq, Eq)]
pub enum JsLoaderState {
    Pitching,
    Normal,
}

/// One loader of a run, as the runner keeps it.
#[derive(Debug, Clone, PartialEq, Eq)]
pub struct LoaderItem {
    pub request: String,
    pub kind: String,
    pub data: String,
    pub normal_executed: bool,
    pub pitch_executed: bool,
}

/// One loader of a run, as the host hands it back.
#[derive(Debug, Clone, PartialEq, Eq)]
pub struct JsLoaderItem {
    pub request: String,
    pub kind: String,
    pub data: String,
    pub normal_executed: bool,
    pub pitch_executed: bool,
}

/// Whether the runner is in a phase in which loaders run.
pub open spec fn runs_loaders(state: LoaderState) -> bool {
    state is Pitching || state is Normal
}

impl JsLoaderState {
    /// The phase as the host sees it. Only the phases in which loaders run
    /// are shown to the host.
    pub fn from(value: LoaderState) -> (state: Self)
        requires
            runs_loaders(value),
        ensures
            state == (if value is Pitching {
                JsLoaderState::Pitching
            } else {
                JsLoaderState::Normal
            }),
    {
        match value {
            LoaderState::Pitching => JsLoaderState::Pitching,
            _ => JsLoaderState::Normal,
        }
    }

    /// The phase as the host sees it, or nothing for a phase in which no
    /// loader runs.
    pub fn try_from(value: LoaderState) -> (state: Option<Self>)
        ensures
            state == (match value {
                LoaderState::Pitching => Some(JsLoaderState::Pitching),
                LoaderState::Normal => Some(JsLoaderState::Normal),
                _ => None,
            }),
    {
        match value {
            LoaderState::Pitching => Some(JsLoaderState::Pitching),
            LoaderState::Normal => Some(JsLoaderState::Normal),
            _ => None,
        }
    }
}

impl JsLoaderItem {
    /// The loader as it is shown to the host.
    pub fn from(value: &LoaderItem) -> (item: Self)
        ensures
            item.request@ == value.request@,
            item.kind@ == value.kind@,
            item.data@ == value.data@,
            item.normal_executed == value.normal_executed,
            item.pitch_executed == value.pitch_executed,
    {
        JsLoaderItem {
            request: value.request.clone(),
            kind: value.kind.clone(),
            data: value.data.clone(),
            normal_executed: value.normal_executed,
            pitch_executed: value.pitch_executed,
        }
    }
}

/// Whether `text` begins with `prefix`.
pub open spec fn begins_with(text: Seq<char>, prefix: Seq<char>) -> bool {
    prefix.len() <= text.len() && text.subrange(0, prefix.len() as int) == prefix
}

/// `str::starts_with` with a text as the pattern: whether the text begins
/// with the prefix.
#[verifier::external_body]
fn text_starts_with(text: &str, prefix: &str) -> (r: bool)
    ensures
        r == begins_with(text@, prefix@),
{
    text.starts_with(prefix)
}

/// Whether the loader that is about to run is handed over to the host:
/// every loader but the built-in ones is.
pub fn loader_should_yield(state: LoaderState, current_request: &str) -> (r: Option<bool>)
    requires
        runs_loaders(state),
    ensures
        r == Some(!begins_with(current_request@, BUILTIN_LOADER_PREFIX@)),
{
    Some(!text_starts_with(current_request, BUILTIN_LOADER_PREFIX))
}

/// What the host has done to one loader, taken over into the runner's
/// state: a loader that the host has run stays run, and the host's data
/// replaces the runner's.
pub open spec fn merged_item(to: LoaderItem, from: JsLoaderItem) -> (bool, bool, Seq<char>) {
    (
        to.normal_executed || from.normal_executed,
        to.pitch_executed || from.pitch_executed,
        from.data@,
    )
}

/// Whether `merged` are the runner's loaders `to` after what the host
/// hands back in `from` is taken over, loader by loader in their order.
/// Loaders without a counterpart are dropped.
pub open spec fn merges(merged: Seq<LoaderItem>, to: Seq<LoaderItem>, from: Seq<JsLoaderItem>) -> bool {
    &&& merged.len() == (if to.len() <= from.len() {
        to.len()
    } else {
        from.len()
    })
    &&& forall|i: int|
        0 <= i < merged.len() ==> {
            &&& (#[trigger] merged[i]).request@ == to[i].request@
            &&& merged[i].kind@ == to[i].kind@
            &&& (merged[i].normal_executed, merged[i].pitch_executed, merged[i].data@)
                == merged_item(to[i], from[i])
        }
}

/// Takes over into the runner's loaders what the host hands back, loader
/// by loader in their order. Loaders without a counterpart are dropped.
pub fn merge_loader_items(to: Vec<LoaderItem>, from: Vec<JsLoaderItem>) -> (merged: Vec<LoaderItem>)
    ensures
        merges(merged@, to@, from@),
{
    let mut merged: Vec<LoaderItem> = Vec::new();
    let mut i: usize = 0;
    while i < to.len() && i < from.len()
        invariant
            i <= to.len(),
            i <= from.len(),
            merged@.len() == i,
            forall|j: int|
                0 <= j < i ==> {
                    &&& (#[trigger] merged@[j]).request@ == to@[j].request@
                    &&& merged@[j].kind@ == to@[j].kind@
                    &&& (merged@[j].normal_executed, merged@[j].pitch_executed, merged@[j].data@)
                        == merged_item(to@[j], from@[j])
                },
        decreases to.len() - i,
    {
        merged.push(
            LoaderItem {
                request: to[i].request.clone(),
                kind: to[i].kind.clone(),
                data: from[i].data.clone(),
                normal_executed: to[i].normal_executed || from[i].normal_executed,
                pitch_executed: to[i].pitch_executed || from[i].pitch_executed,
            },
        );
        i += 1;
    }
    merged
}

/// The part of the runner's state that a loader in the host may change.
/// `S` is a source map, `D` the data that loaders pass along.
pub struct LoaderContext<S, D> {
    pub content: Option<Vec<u8>>,
    pub source_map: Option<S>,
    pub additional_data: Option<D>,
    pub loader_items: Vec<LoaderItem>,
    pub loader_index: i32,
}

/// What the host hands back after it has run a loader. The source map
/// comes as bytes.
pub struct JsLoaderContext<D> {
    pub content: Option<Vec<u8>>,
    pub source_map: Option<Vec<u8>>,
    pub additional_data: Option<D>,
    pub loader_items: Vec<JsLoaderItem>,
    pub loader_index: i32,
}

/// Takes over into the runner's state what the host hands back.
/// `source_map` is what reading the source map that the host handed back
/// has given: nothing where the host handed back none.
///
/// Data that the host passes along replaces the runner's, and the content
/// is the host's. Where the source map could not be read, the merge stops
/// there with the reader's error: source map, loaders and loader index stay
/// as they were. Else the source map is the one read, the loaders take
/// over what the host has done to them, and the loader index is the host's.
pub fn merge_loader_context<S, D, E>(
    to: &mut LoaderContext<S, D>,
    from: JsLoaderContext<D>,
    source_map: Result<Option<S>, E>,
) -> (r: Result<(), E>)
    ensures
        final(to).additional_data == (if from.additional_data is Some {
            from.additional_data
        } else {
            old(to).additional_data
        }),
        final(to).content == from.content,
        match source_map {
            Err(e) => {
                &&& r matches Err(f) && f == e
                &&& final(to).source_map == old(to).source_map
                &&& final(to).loader_items == old(to).loader_items
                &&& final(to).loader_index == old(to).loader_index
            },
            Ok(map) => {
                &&& r is Ok
                &&& final(to).source_map == map
                &&& merges(final(to).loader_items@, old(to).loader_items@, from.loader_items@)
                &&& final(to).loader_index == from.loader_index
            },
        },
{
    let JsLoaderContext { content, source_map: _, additional_data, loader_items, loader_index } =
        from;
    if additional_data.is_some() {
        to.additional_data = additional_data;
    }
    to.content = content;
    let map = match source_map {
        Ok(map) => map,
        Err(e) => { return Err(e); },
    };
    to.source_map = map;
    let mut items: Vec<LoaderItem> = Vec::new();
    core::mem::swap(&mut to.loader_items, &mut items);
    to.loader_items = merge_loader_items(items, loader_items);
    to.loader_index = loader_index;
    Ok(())
}

/// A set of paths, in the order in which they were added.
#[derive(Debug, Clone, PartialEq, Eq)]
pub struct PathSet {
    paths: Vec<String>,
}

/// The texts of a list of paths.
pub open spec fn texts(paths: Seq<String>) -> Seq<Seq<char>> {
    Seq::new(paths.len(), |i: int| paths[i]@)
}

impl PathSet {
    /// The paths of the set, in the order in which they were added.
    pub closed spec fn view(&self) -> Seq<Seq<char>> {
        texts(self.paths@)
    }

    /// Whether no path occurs twice.
    pub closed spec fn wf(&self) -> bool {
        texts(self.paths@).no_duplicates()
    }

    pub fn new() -> (set: Self)
        ensures
            set.wf(),
            set@ == Seq::<Seq<char>>::empty(),
    {
        let set = PathSet { paths: Vec::new() };
        assert(texts(set.paths@) =~= Seq::empty());
        set
    }

    /// Whether `path` is in the set.
    pub fn contains(&self, path: &str) -> (r: bool)
        ensures
            r == self@.contains(path@),
    {
        let mut i: usize = 0;
        while i < self.paths.len()
            invariant
                i <= self.paths.len(),
                forall|j: int| 0 <= j < i ==> texts(self.paths@)[j] != path@,
            decreases self.paths.len() - i,
        {
            if text_equal(self.paths[i].as_str(), path) {
                assert(texts(self.paths@)[i as int] == path@);
                return true;
            }
            i += 1;
        }
        false
    }

    /// Adds `path`, unless it is in the set.
    pub fn insert(&mut self, path: String)
        requires
            old(self).wf(),
        ensures
            final(self).wf(),
            final(self)@ == (if old(self)@.contains(path@) {
                old(self)@
            } else {
                old(self)@.push(path@)
            }),
    {
        if !self.contains(path.as_str()) {
            let ghost before = texts(self.paths@);
            self.paths.push(path);
            assert(texts(self.paths@) =~= before.push(path@));
        }
    }

    /// Removes every path.
    pub fn clear(&mut self)
        ensures
            final(self).wf(),
            final(self)@ == Seq::<Seq<char>>::empty(),
    {
        self.paths.clear();
        assert(texts(self.paths@) =~= Seq::empty());
    }

    /// The paths, in the order in which they were added.
    pub fn to_vec(&self) -> (paths: Vec<String>)
        ensures
            texts(paths@) == self@,
    {
        let mut paths: Vec<String> = Vec::new();
        let mut i: usize = 0;
        while i < self.paths.len()
            invariant
                i <= self.paths.len(),
                paths@.len() == i,
                forall|j: int| 0 <= j < i ==> (#[trigger] paths@[j])@ == self.paths@[j]@,
            decreases self.paths.len() - i,
        {
            paths.push(self.paths[i].clone());
            i += 1;
        }
        assert(texts(paths@) =~= self@);
        paths
    }
}

/// What a loader has told the runner of the module that it builds: the
/// files that the module depends on, and whether its build may be cached.
#[derive(Debug, Clone, PartialEq, Eq)]
pub struct JsLoaderContextMethods {
    pub cacheable: bool,
    pub file_dependencies: PathSet,
    pub context_dependencies: PathSet,
    pub missing_dependencies: PathSet,
    pub build_dependencies: PathSet,
}

impl JsLoaderContextMethods {
    /// Whether no set holds a path twice.
    pub open spec fn wf(&self) -> bool {
        &&& self.file_dependencies.wf()
        &&& self.context_dependencies.wf()
        &&& self.missing_dependencies.wf()
        &&& self.build_dependencies.wf()
    }

    /// A module of which nothing is known yet: it depends on nothing and
    /// may be cached.
    pub fn new() -> (methods: Self)
        ensures
            methods.wf(),
            methods.cacheable,
            methods.file_dependencies@.len() == 0,
            methods.context_dependencies@.len() == 0,
            methods.missing_dependencies@.len() == 0,
            methods.build_dependencies@.len() == 0,
    {
        JsLoaderContextMethods {
            cacheable: true,
            file_dependencies: PathSet::new(),
            context_dependencies: PathSet::new(),
            missing_dependencies: PathSet::new(),
            build_dependencies: PathSet::new(),
        }
    }

    /// A loader may forbid caching, and cannot allow it again.
    pub fn cacheable(&mut self, val: bool)
        ensures
            final(self).cacheable == (old(self).cacheable && val),
            final(self).file_dependencies == old(self).file_dependencies,
            final(self).context_dependencies == old(self).context_dependencies,
            final(self).missing_dependencies == old(self).missing_dependencies,
            final(self).build_dependencies == old(self).build_dependencies,
    {
        if !val {
            self.cacheable = val;
        }
    }

    pub fn add_dependency(&mut self, file: String)
        requires
            old(self).wf(),
        ensures
            final(self).wf(),
            final(self).file_dependencies@ == (if old(self).file_dependencies@.contains(file@) {
                old(self).file_dependencies@
            } else {
                old(self).file_dependencies@.push(file@)
            }),
            final(self).cacheable == old(self).cacheable,
            final(self).context_dependencies == old(self).context_dependencies,
            final(self).missing_dependencies == old(self).missing_dependencies,
            final(self).build_dependencies == old(self).build_dependencies,
    {
        self.file_dependencies.insert(file);
    }

    pub fn add_context_dependency(&mut self, file: String)
        requires
            old(self).wf(),
        ensures
            final(self).wf(),
            final(self).context_dependencies@ == (if old(self).context_dependencies@.contains(
                file@,
            ) {
                old(self).context_dependencies@
            } else {
                old(self).context_dependencies@.push(file@)
            }),
            final(self).cacheable == old(self).cacheable,
            final(self).file_dependencies == old(self).file_dependencies,
            final(self).missing_dependencies == old(self).missing_dependencies,
            final(self).build_dependencies == old(self).build_dependencies,
    {
        self.context_dependencies.insert(file);
    }

    pub fn add_missing_dependency(&mut self, file: String)
        requires
            old(self).wf(),
        ensures
            final(self).wf(),
            final(self).missing_dependencies@ == (if old(self).missing_dependencies@.contains(
                file@,
            ) {
                old(self).missing_dependencies@
            } else {
                old(self).missing_dependencies@.push(file@)
            }),
            final(self).cacheable == old(self).cacheable,
            final(self).file_dependencies == old(self).file_dependencies,
            final(self).context_dependencies == old(self).context_dependencies,
            final(self).build_dependencies == old(self).build_dependencies,
    {
        self.missing_dependencies.insert(file);
    }

    pub fn add_build_dependency(&mut self, file: String)
        requires
            old(self).wf(),
        ensures
            final(self).wf(),
            final(self).build_dependencies@ == (if old(self).build_dependencies@.contains(file@) {
                old(self).build_dependencies@
            } else {
                old(self).build_dependencies@.push(file@)
            }),
            final(self).cacheable == old(self).cacheable,
            final(self).file_dependencies == old(self).file_dependencies,
            final(self).context_dependencies == old(self).context_dependencies,
            final(self).missing_dependencies == old(self).missing_dependencies,
    {
        self.build_dependencies.insert(file);
    }

    pub fn get_dependencies(&self) -> (files: Vec<String>)
        ensures
            texts(files@) == self.file_dependencies@,
    {
        self.file_dependencies.to_vec()
    }

    pub fn get_context_dependencies(&self) -> (files: Vec<String>)
        ensures
            texts(files@) == self.context_dependencies@,
    {
        self.context_dependencies.to_vec()
    }

    pub fn get_missing_dependencies(&self) -> (files: Vec<String>)
        ensures
            texts(files@) == self.missing_dependencies@,
    {
        self.missing_dependencies.to_vec()
    }

    /// Forgets the files, the directories and the build files that the
    /// module depends on, and allows caching again. The missing files stay.
    pub fn clear_dependencies(&mut self)
        requires
            old(self).wf(),
        ensures
            final(self).wf(),
            final(self).cacheable,
            final(self).file_dependencies@.len() == 0,
            final(self).context_dependencies@.len() == 0,
            final(self).build_dependencies@.len() == 0,
            final(self).missing_dependencies == old(self).missing_dependencies,
    {
        self.file_dependencies.clear();
        self.context_dependencies.clear();
        self.build_dependencies.clear();
        self.cacheable = true;
    }
}

} // verus!
