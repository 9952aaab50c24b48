use rspack_cacheable::dependency::DependencyId;
use rspack_cacheable::dependency::ExternalModuleDependency;
use rspack_cacheable::from_bytes;
use rspack_cacheable::to_bytes;
use rspack_cacheable::DeserializeError;

#[test]
fn text_comes_back() {
    let text = String::from("a text that is longer than a few bytes");
    let bytes = to_bytes(&text, &()).unwrap();
    let back: String = from_bytes(&bytes, &()).unwrap();
    assert_eq!(back, text);
}

#[test]
fn numbers_are_archived_least_significant_byte_first() {
    assert_eq!(to_bytes(&0x0102_0304_0506_0708u64, &()).unwrap(), vec![8, 7, 6, 5, 4, 3, 2, 1]);
    assert_eq!(to_bytes(&0x0102_0304u32, &()).unwrap(), vec![4, 3, 2, 1]);
    assert_eq!(to_bytes(&true, &()).unwrap(), vec![1]);
    assert_eq!(from_bytes::<u64, ()>(&[8, 7, 6, 5, 4, 3, 2, 1], &()).unwrap(), 0x0102_0304_0506_0708);
}

#[test]
fn nested_containers_come_back() {
    let value: Vec<(String, Option<u64>)> = vec![
        (String::from("one"), Some(1)),
        (String::from("none"), None),
        (String::new(), Some(u64::MAX)),
    ];
    let bytes = to_bytes(&value, &()).unwrap();
    let back: Vec<(String, Option<u64>)> = from_bytes(&bytes, &()).unwrap();
    assert_eq!(back, value);
}

#[test]
fn an_archive_of_another_type_is_rejected() {
    let bytes = to_bytes(&String::from("a"), &()).unwrap();
    assert!(matches!(from_bytes::<u64, ()>(&bytes, &()), Err(DeserializeError::CheckBytesError)));
    let bytes = to_bytes(&7u64, &()).unwrap();
    assert!(matches!(from_bytes::<u32, ()>(&bytes, &()), Err(DeserializeError::CheckBytesError)));
    assert!(matches!(
        from_bytes::<(u64, u64), ()>(&bytes, &()),
        Err(DeserializeError::CheckBytesError)
    ));
}

#[test]
fn a_record_with_a_field_strategy_comes_back() {
    let dependency = ExternalModuleDependency::new(
        DependencyId(7),
        String::from("fs"),
        vec![(String::from("readFile"), String::from("read"))],
        Some(String::from("fs_default")),
    );
    let bytes = to_bytes(&dependency, &()).unwrap();
    let back: ExternalModuleDependency = from_bytes(&bytes, &()).unwrap();
    assert_eq!(back.dependency_id(), Some(DependencyId(7)));
    assert_eq!(back.module(), "fs");
    assert_eq!(back.import_specifier(), &vec![(String::from("readFile"), String::from("read"))]);
    assert_eq!(back.default_import(), &Some(String::from("fs_default")));
}
