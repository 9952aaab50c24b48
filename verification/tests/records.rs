use std::collections::HashSet;

use rspack_cacheable::dependency::CommonJsRequireDependency;
use rspack_cacheable::dependency::Context;
use rspack_cacheable::dependency::CssComposeDependency;
use rspack_cacheable::dependency::Dependency;
use rspack_cacheable::dependency::DependencyCategory;
use rspack_cacheable::dependency::DependencyId;
use rspack_cacheable::dependency::DependencyLocation;
use rspack_cacheable::dependency::DependencyType;
use rspack_cacheable::dependency::ErrorSpan;
use rspack_cacheable::dependency::LoaderImportDependency;
use rspack_cacheable::dependency::ModuleDependency;
use rspack_cacheable::from_bytes;
use rspack_cacheable::occasion::Meta;
use rspack_cacheable::occasion::MetaRef;
use rspack_cacheable::occasion::Node;
use rspack_cacheable::occasion::NodeRef;
use rspack_cacheable::to_bytes;
use rspack_cacheable::DeserializeError;

#[test]
fn a_loader_import_tells_what_it_was_made_with() {
    let mut dependency = LoaderImportDependency::new(
        DependencyId(3),
        String::from("./a.js"),
        Context { inner: String::from("/root") },
    );
    assert_eq!(dependency.id(), DependencyId(3));
    assert_eq!(dependency.category(), DependencyCategory::LoaderImport);
    assert_eq!(dependency.dependency_type(), DependencyType::LoaderImport);
    assert_eq!(dependency.span(), None);
    assert_eq!(dependency.request(), "./a.js");
    assert_eq!(dependency.user_request(), "./a.js");
    assert!(!dependency.get_optional());
    assert_eq!(dependency.context().inner, "/root");
    dependency.set_request(String::from("./b.js"));
    assert_eq!(dependency.request(), "./b.js");
    let bytes = to_bytes(&dependency, &()).unwrap();
    let back: LoaderImportDependency = from_bytes(&bytes, &()).unwrap();
    assert_eq!(back, dependency);
}

#[test]
fn a_css_compose_dependency_comes_back() {
    let dependency = CssComposeDependency::new(
        DependencyId(4),
        String::from("./base.css"),
        ErrorSpan { start: 10, end: 20 },
    );
    assert_eq!(dependency.category(), DependencyCategory::CssCompose);
    assert_eq!(dependency.dependency_type(), DependencyType::CssCompose);
    let bytes = to_bytes(&dependency, &()).unwrap();
    let back: CssComposeDependency = from_bytes(&bytes, &()).unwrap();
    assert_eq!(back.id(), DependencyId(4));
    assert_eq!(back.request(), "./base.css");
    assert_eq!(back.span(), Some(ErrorSpan { start: 10, end: 20 }));
    assert!(matches!(
        from_bytes::<CommonJsRequireDependency, ()>(&bytes, &()),
        Err(DeserializeError::CheckBytesError)
    ));
}

#[test]
fn a_require_dependency_replaces_its_call_up_to_the_byte_before_its_end() {
    let dependency = CommonJsRequireDependency::new(
        DependencyId(5),
        String::from("fs"),
        Some(ErrorSpan { start: 1, end: 2 }),
        8,
        21,
        true,
    );
    assert_eq!(dependency.replaced_range(), Some((8, 20)));
    assert_eq!(dependency.dependency_id(), Some(DependencyId(5)));
    assert_eq!(dependency.category(), DependencyCategory::CommonJS);
    assert_eq!(dependency.dependency_type(), DependencyType::CjsRequire);
    assert!(dependency.get_optional());
    let bytes = to_bytes(&dependency, &()).unwrap();
    let back: CommonJsRequireDependency = from_bytes(&bytes, &()).unwrap();
    assert_eq!(back.replaced_range(), Some((8, 20)));
    assert_eq!(back.request(), "fs");
    assert_eq!(back.span(), Some(ErrorSpan { start: 1, end: 2 }));
    assert!(back.get_optional());
    let at_start = CommonJsRequireDependency::new(DependencyId(6), String::new(), None, 0, 0, false);
    assert_eq!(at_start.replaced_range(), None);
    assert_eq!(DependencyLocation::new(3, 4).start(), 3);
    assert_eq!(DependencyLocation::new(3, 4).end(), 4);
}

type TestNode = Node<String, u64, DependencyId, String, (u32, u32), String>;

#[test]
fn a_node_written_through_its_borrowing_form_is_read_as_the_owned_one() {
    let mgm = String::from("graph module");
    let module = 9u64;
    let written = NodeRef {
        mgm: &mgm,
        module: &module,
        dependencies: vec![(DependencyId(1), None), (DependencyId(2), Some(String::from("block")))],
        connections: vec![(1u32, 2u32)],
        blocks: vec![String::from("block")],
    };
    let bytes = to_bytes(&written, &()).unwrap();
    let back: TestNode = from_bytes(&bytes, &()).unwrap();
    assert_eq!(back.mgm, "graph module");
    assert_eq!(back.module, 9);
    assert_eq!(
        back.dependencies,
        vec![(DependencyId(1), None), (DependencyId(2), Some(String::from("block")))]
    );
    assert_eq!(back.connections, vec![(1, 2)]);
    assert_eq!(back.blocks, vec![String::from("block")]);
    assert_eq!(to_bytes(&back, &()).unwrap(), bytes);
}

#[test]
fn the_bookkeeping_written_through_its_borrowing_form_is_read_as_the_owned_one() {
    let failed: HashSet<(DependencyId, Option<String>)> =
        [(DependencyId(1), Some(String::from("m")))].into_iter().collect();
    let modules: HashSet<String> = [String::from("m")].into_iter().collect();
    let files = vec![String::from("/a"), String::from("/b")];
    let none: Vec<String> = Vec::new();
    let written = MetaRef {
        make_failed_dependencies: &failed,
        make_failed_module: &modules,
        file_dependencies: &files,
        context_dependencies: &none,
        missing_dependencies: &none,
        build_dependencies: &files,
        next_dependencies_id: 17,
        next_connection_id: 23,
    };
    let bytes = to_bytes(&written, &()).unwrap();
    let back: Meta<String, Vec<String>, std::collections::hash_map::RandomState> =
        from_bytes(&bytes, &()).unwrap();
    assert_eq!(back.make_failed_dependencies, failed);
    assert_eq!(back.make_failed_module, modules);
    assert_eq!(back.file_dependencies, files);
    assert_eq!(back.context_dependencies, none);
    assert_eq!(back.missing_dependencies, none);
    assert_eq!(back.build_dependencies, files);
    assert_eq!(back.next_dependencies_id, 17);
    assert_eq!(back.next_connection_id, 23);
}
