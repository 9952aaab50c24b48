use rspack_cacheable::dependency::import::create_exports_object_referenced;
use rspack_cacheable::dependency::import::create_import_dependency_referenced_exports;
use rspack_cacheable::dependency::import::ExportsType;
use rspack_cacheable::dependency::import::ExtendedReferencedExport;
use rspack_cacheable::dependency::import::ReferencedExport;
use rspack_cacheable::dependency::Dependency;
use rspack_cacheable::dependency::DependencyCategory;
use rspack_cacheable::dependency::DependencyId;
use rspack_cacheable::dependency::DependencyType;
use rspack_cacheable::dependency::ModuleDependency;
use rspack_cacheable::dependency::WasmImportDependency;
use rspack_cacheable::from_bytes;
use rspack_cacheable::loader::loader_should_yield;
use rspack_cacheable::loader::merge_loader_context;
use rspack_cacheable::loader::merge_loader_items;
use rspack_cacheable::loader::JsLoaderContext;
use rspack_cacheable::loader::LoaderContext;
use rspack_cacheable::loader::JsLoaderContextMethods;
use rspack_cacheable::loader::JsLoaderItem;
use rspack_cacheable::loader::JsLoaderState;
use rspack_cacheable::loader::LoaderItem;
use rspack_cacheable::loader::LoaderState;
use rspack_cacheable::loader::PathSet;
use rspack_cacheable::snapshot::calc_modified_files;
use rspack_cacheable::snapshot::FileState;
use rspack_cacheable::snapshot::Snapshot;
use rspack_cacheable::snapshot::Strategy;
use rspack_cacheable::snapshot::ValidateResult;
use rspack_cacheable::to_bytes;

fn export(name: &str) -> ExtendedReferencedExport {
    ExtendedReferencedExport::Export(ReferencedExport {
        name: vec![String::from(name)],
        can_mangle: false,
    })
}

#[test]
fn an_import_refers_to_its_names_or_to_the_whole_exports_object() {
    let whole = vec![ExtendedReferencedExport::Array(Vec::new())];
    assert_eq!(create_exports_object_referenced(), whole);
    assert_eq!(
        create_import_dependency_referenced_exports(&None, Some(true), Some(ExportsType::Namespace)),
        whole
    );
    let names = Some(vec![String::from("a"), String::from("b")]);
    assert_eq!(
        create_import_dependency_referenced_exports(&names, None, None),
        vec![export("a"), export("b")]
    );
    let with_default = Some(vec![String::from("a"), String::from("default")]);
    assert_eq!(
        create_import_dependency_referenced_exports(&with_default, Some(false), Some(ExportsType::Namespace)),
        vec![export("a"), export("default")]
    );
    assert_eq!(
        create_import_dependency_referenced_exports(&with_default, Some(false), Some(ExportsType::Dynamic)),
        vec![export("a"), export("default")]
    );
    for (strict, exports_type) in [
        (None, Some(ExportsType::Namespace)),
        (Some(true), None),
        (Some(true), Some(ExportsType::DefaultOnly)),
        (Some(false), Some(ExportsType::DefaultWithNamed)),
    ] {
        assert_eq!(
            create_import_dependency_referenced_exports(&with_default, strict, exports_type),
            whole
        );
    }
    assert_eq!(
        create_import_dependency_referenced_exports(&Some(Vec::new()), None, None),
        Vec::new()
    );
}

#[test]
fn every_loader_but_a_built_in_one_is_handed_to_the_host() {
    assert_eq!(loader_should_yield(LoaderState::Normal, "/loaders/babel.js"), Some(true));
    assert_eq!(loader_should_yield(LoaderState::Pitching, "builtin:swc-loader"), Some(false));
    assert_eq!(loader_should_yield(LoaderState::Normal, "builtin:"), Some(false));
    assert_eq!(loader_should_yield(LoaderState::Normal, "builtin"), Some(true));
    assert_eq!(loader_should_yield(LoaderState::Normal, "a-builtin:x"), Some(true));
    assert_eq!(JsLoaderState::from(LoaderState::Pitching), JsLoaderState::Pitching);
    assert_eq!(JsLoaderState::from(LoaderState::Normal), JsLoaderState::Normal);
    assert_eq!(JsLoaderState::try_from(LoaderState::Init), None);
    assert_eq!(JsLoaderState::try_from(LoaderState::ProcessResource), None);
    assert_eq!(JsLoaderState::try_from(LoaderState::Finished), None);
    assert_eq!(JsLoaderState::try_from(LoaderState::Normal), Some(JsLoaderState::Normal));
}

fn item(request: &str, data: &str, normal: bool, pitch: bool) -> LoaderItem {
    LoaderItem {
        request: String::from(request),
        kind: String::from("module"),
        data: String::from(data),
        normal_executed: normal,
        pitch_executed: pitch,
    }
}

#[test]
fn what_the_host_has_run_stays_run() {
    let to = vec![item("a", "old", false, true), item("b", "old", false, false), item("c", "", true, true)];
    let from: Vec<JsLoaderItem> = vec![
        JsLoaderItem::from(&item("x", "new a", true, false)),
        JsLoaderItem::from(&item("y", "new b", false, false)),
    ];
    assert_eq!(from[0].request, "x");
    assert_eq!(from[0].data, "new a");
    let merged = merge_loader_items(to, from);
    assert_eq!(merged, vec![item("a", "new a", true, true), item("b", "new b", false, false)]);
}

#[test]
fn a_loader_may_forbid_caching_and_report_files() {
    let mut methods = JsLoaderContextMethods::new();
    assert!(methods.cacheable);
    methods.cacheable(true);
    assert!(methods.cacheable);
    methods.cacheable(false);
    assert!(!methods.cacheable);
    methods.cacheable(true);
    assert!(!methods.cacheable);
    methods.add_dependency(String::from("/a"));
    methods.add_dependency(String::from("/b"));
    methods.add_dependency(String::from("/a"));
    methods.add_context_dependency(String::from("/dir"));
    methods.add_missing_dependency(String::from("/gone"));
    methods.add_build_dependency(String::from("/build"));
    assert_eq!(methods.get_dependencies(), vec![String::from("/a"), String::from("/b")]);
    assert_eq!(methods.get_context_dependencies(), vec![String::from("/dir")]);
    assert_eq!(methods.get_missing_dependencies(), vec![String::from("/gone")]);
    methods.clear_dependencies();
    assert!(methods.cacheable);
    assert_eq!(methods.get_dependencies(), Vec::<String>::new());
    assert_eq!(methods.get_context_dependencies(), Vec::<String>::new());
    assert_eq!(methods.build_dependencies, PathSet::new());
    assert_eq!(methods.get_missing_dependencies(), vec![String::from("/gone")]);
    assert!(methods.missing_dependencies.contains("/gone"));
    assert!(!methods.missing_dependencies.contains("/gon"));
}

fn file(path: &str, exists: bool, immutable: bool, managed: bool, version: Option<&str>) -> FileState {
    FileState {
        path: String::from(path),
        exists,
        immutable,
        managed,
        lib_version: version.map(String::from),
    }
}

#[test]
fn a_build_records_the_files_that_are_there_and_may_change() {
    let snapshot = Snapshot::new();
    assert_eq!(snapshot.scope(), "snapshot");
    let files = vec![
        file("/src/a.js", true, false, false, None),
        file("/src/gone.js", false, false, false, None),
        file("/cache/x", true, true, true, Some("1.0.0")),
        file("/node_modules/lib/index.js", true, false, true, Some("2.3.4")),
        file("/node_modules/other/index.js", true, false, true, None),
        file("/src/b.js", true, false, false, Some("9.9.9")),
    ];
    let records = snapshot.add(&files, 1_700_000_000).unwrap();
    let read: Vec<(String, Strategy)> = records
        .iter()
        .map(|record| {
            (String::from_utf8(record.key.clone()).unwrap(), from_bytes(&record.value, &()).unwrap())
        })
        .collect();
    assert_eq!(
        read,
        vec![
            (String::from("/src/a.js"), Strategy::CompileTime(1_700_000_000)),
            (String::from("/node_modules/lib/index.js"), Strategy::LibVersion(String::from("2.3.4"))),
            (String::from("/node_modules/lib/index.js"), Strategy::CompileTime(1_700_000_000)),
            (String::from("/node_modules/other/index.js"), Strategy::CompileTime(1_700_000_000)),
            (String::from("/src/b.js"), Strategy::CompileTime(1_700_000_000)),
        ]
    );
    assert_eq!(
        snapshot.remove(&vec![String::from("/a"), String::from("é")]),
        vec![b"/a".to_vec(), "é".as_bytes().to_vec()]
    );
}

#[test]
fn a_recorded_file_is_unchanged_modified_or_gone() {
    let by_time = Strategy::CompileTime(100);
    assert_eq!(by_time.validate(&None, Some(100)), ValidateResult::NoChanged);
    assert_eq!(by_time.validate(&None, Some(99)), ValidateResult::NoChanged);
    assert_eq!(by_time.validate(&Some(String::from("1")), Some(101)), ValidateResult::Modified);
    assert_eq!(by_time.validate(&Some(String::from("1")), None), ValidateResult::Deleted);
    let by_version = Strategy::LibVersion(String::from("1.2.3"));
    assert_eq!(by_version.validate(&Some(String::from("1.2.3")), None), ValidateResult::NoChanged);
    assert_eq!(by_version.validate(&Some(String::from("1.2.4")), Some(1)), ValidateResult::Modified);
    assert_eq!(by_version.validate(&None, Some(1)), ValidateResult::Deleted);
    let bytes = to_bytes(&by_version, &()).unwrap();
    assert_eq!(from_bytes::<Strategy, ()>(&bytes, &()).unwrap(), by_version);
    let (modified, deleted) = calc_modified_files(vec![
        (String::from("/a"), ValidateResult::Modified),
        (String::from("/b"), ValidateResult::NoChanged),
        (String::from("/c"), ValidateResult::Deleted),
        (String::from("/d"), ValidateResult::Modified),
    ]);
    assert_eq!(modified, vec![String::from("/a"), String::from("/d")]);
    assert_eq!(deleted, vec![String::from("/c")]);
}

#[test]
fn a_wasm_import_refers_to_its_one_name() {
    let mut dependency =
        WasmImportDependency::new(DependencyId(8), String::from("./m.wasm"), String::from("memory"));
    assert_eq!(dependency.name(), "memory");
    assert_eq!(dependency.request(), "./m.wasm");
    assert_eq!(dependency.span(), None);
    assert_eq!(dependency.category(), DependencyCategory::Wasm);
    assert_eq!(dependency.dependency_type(), DependencyType::WasmImport);
    assert_eq!(dependency.get_referenced_exports(), vec![vec![String::from("memory")]]);
    dependency.set_request(String::from("./n.wasm"));
    let bytes = to_bytes(&dependency, &()).unwrap();
    let back: WasmImportDependency = from_bytes(&bytes, &()).unwrap();
    assert_eq!(back.id(), DependencyId(8));
    assert_eq!(back.name(), "memory");
    assert_eq!(back.request(), "./n.wasm");
    assert_eq!(back.user_request(), "./n.wasm");
    assert!(!back.get_optional());
}

#[test]
fn a_dynamic_import_comes_back_and_tells_what_it_refers_to() {
    let mut dependency = rspack_cacheable::dependency::ImportDependency::new(
        DependencyId(11),
        4,
        40,
        String::from("./page"),
        None,
        Some(vec![String::from("default"), String::from("render")]),
        Some(vec![(String::from("type"), String::from("json"))]),
        String::from("./page|type=json"),
    );
    assert_eq!(dependency.replaced_range(), (4, 40));
    assert_eq!(dependency.resource_identifier(), Some("./page|type=json"));
    assert_eq!(dependency.category(), DependencyCategory::Esm);
    assert_eq!(dependency.dependency_type(), DependencyType::DynamicImport);
    assert_eq!(
        dependency.get_referenced_exports(Some(true), Some(ExportsType::Namespace)),
        vec![export("default"), export("render")]
    );
    assert_eq!(
        dependency.get_referenced_exports(Some(true), Some(ExportsType::DefaultOnly)),
        vec![ExtendedReferencedExport::Array(Vec::new())]
    );
    dependency.set_request(String::from("./other"));
    let bytes = to_bytes(&dependency, &()).unwrap();
    let back: rspack_cacheable::dependency::ImportDependency = from_bytes(&bytes, &()).unwrap();
    assert_eq!(back.dependency_id(), Some(DependencyId(11)));
    assert_eq!(back.request(), "./other");
    assert_eq!(back.replaced_range(), (4, 40));
    assert_eq!(back.get_attributes(), Some(&vec![(String::from("type"), String::from("json"))]));
    assert_eq!(back.resource_identifier(), Some("./page|type=json"));
}

#[test]
fn what_the_host_hands_back_is_taken_over() {
    let state = || LoaderContext::<String, u8> {
        content: Some(vec![1]),
        source_map: Some(String::from("old map")),
        additional_data: Some(1),
        loader_items: vec![item("a", "old", false, false), item("b", "old", false, false)],
        loader_index: 0,
    };
    let back = |data: Option<u8>| JsLoaderContext::<u8> {
        content: None,
        source_map: Some(vec![b'{', b'}']),
        additional_data: data,
        loader_items: vec![JsLoaderItem::from(&item("a", "new", true, false))],
        loader_index: 1,
    };
    let mut to = state();
    assert_eq!(merge_loader_context::<_, _, String>(&mut to, back(Some(7)), Ok(Some(String::from("new map")))), Ok(()));
    assert_eq!(to.content, None);
    assert_eq!(to.source_map, Some(String::from("new map")));
    assert_eq!(to.additional_data, Some(7));
    assert_eq!(to.loader_items, vec![item("a", "new", true, false)]);
    assert_eq!(to.loader_index, 1);
    let mut to = state();
    assert_eq!(merge_loader_context::<_, _, String>(&mut to, back(None), Ok(None)), Ok(()));
    assert_eq!(to.source_map, None);
    assert_eq!(to.additional_data, Some(1));
    let mut to = state();
    assert_eq!(
        merge_loader_context(&mut to, back(Some(7)), Err(String::from("no source map"))),
        Err(String::from("no source map"))
    );
    assert_eq!(to.content, None);
    assert_eq!(to.additional_data, Some(7));
    assert_eq!(to.source_map, Some(String::from("old map")));
    assert_eq!(to.loader_items, state().loader_items);
    assert_eq!(to.loader_index, 0);
}
