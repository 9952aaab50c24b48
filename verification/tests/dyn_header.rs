use rspack_cacheable::dynamic::ArchivedDynMetadata;
use rspack_cacheable::dynamic::CheckBytesEntry;
use rspack_cacheable::dynamic::CheckBytesRegistry;
use rspack_cacheable::dynamic::DynEntry;
use rspack_cacheable::dynamic::DynRegistry;
use rspack_cacheable::DeserializeError;

fn registry() -> DynRegistry {
    DynRegistry::build(&vec![DynEntry::new(7, 0x1000), DynEntry::new(9, 0x2000)]).unwrap()
}

fn header(dyn_id: u64, cached_vtable: u64) -> Vec<u8> {
    let mut bytes = dyn_id.to_le_bytes().to_vec();
    bytes.extend_from_slice(&cached_vtable.to_le_bytes());
    bytes
}

#[test]
fn a_writer_leaves_the_cached_table_at_zero() {
    let metadata = ArchivedDynMetadata::emplace(0x0102_0304_0506_0708);
    assert_eq!(metadata.to_bytes(), vec![8, 7, 6, 5, 4, 3, 2, 1, 0, 0, 0, 0, 0, 0, 0, 0]);
}

#[test]
fn a_registered_type_resolves_to_its_table() {
    let registry = registry();
    assert_eq!(registry.get(7), Some(0x1000));
    assert_eq!(registry.get(9), Some(0x2000));
    assert_eq!(registry.get(8), None);
    let metadata = ArchivedDynMetadata::check_bytes(&header(9, 0), &registry).unwrap();
    assert_eq!(metadata.vtable(&registry).unwrap(), 0x2000);
    assert!(matches!(
        ArchivedDynMetadata::emplace(8).vtable(&registry),
        Err(DeserializeError::UnknownPolymorphicType)
    ));
}

#[test]
fn a_cached_table_must_be_zero_or_the_registered_one() {
    let registry = registry();
    assert!(ArchivedDynMetadata::check_bytes(&header(7, 0), &registry).is_ok());
    assert!(ArchivedDynMetadata::check_bytes(&header(7, 0x1000), &registry).is_ok());
    assert!(matches!(
        ArchivedDynMetadata::check_bytes(&header(7, 0x2000), &registry),
        Err(DeserializeError::CheckBytesError)
    ));
    assert!(matches!(
        ArchivedDynMetadata::check_bytes(&header(7, 1), &registry),
        Err(DeserializeError::CheckBytesError)
    ));
}

#[test]
fn an_unknown_type_or_a_short_header_is_rejected() {
    let registry = registry();
    assert!(matches!(
        ArchivedDynMetadata::check_bytes(&header(8, 0), &registry),
        Err(DeserializeError::UnknownPolymorphicType)
    ));
    assert!(matches!(
        ArchivedDynMetadata::check_bytes(&header(8, 0x1000), &registry),
        Err(DeserializeError::UnknownPolymorphicType)
    ));
    assert!(matches!(
        ArchivedDynMetadata::check_bytes(&header(7, 0)[..15], &registry),
        Err(DeserializeError::CheckBytesError)
    ));
    assert!(matches!(
        ArchivedDynMetadata::check_bytes(&[], &registry),
        Err(DeserializeError::CheckBytesError)
    ));
    let mut long = header(7, 0);
    long.push(0);
    assert!(matches!(
        ArchivedDynMetadata::check_bytes(&long, &registry),
        Err(DeserializeError::CheckBytesError)
    ));
}

#[test]
fn two_registrations_of_one_identifier_build_no_registry() {
    assert!(DynRegistry::build(&vec![DynEntry::new(7, 0x1000), DynEntry::new(7, 0x2000)]).is_none());
    assert!(DynRegistry::build(&vec![
        DynEntry::new(7, 0x1000),
        DynEntry::new(9, 0x1000),
        DynEntry::new(7, 0x1000)
    ])
    .is_none());
    assert!(DynRegistry::build(&vec![DynEntry::new(7, 0x1000), DynEntry::new(9, 0x1000)]).is_some());
    assert!(DynRegistry::build(&Vec::new()).is_some());
}

#[test]
fn two_registrations_of_one_table_build_no_registry_of_routines() {
    assert!(CheckBytesRegistry::build(vec![
        CheckBytesEntry::new(0x1000, 1u8),
        CheckBytesEntry::new(0x1000, 2u8)
    ])
    .is_none());
    let registry = CheckBytesRegistry::build(vec![
        CheckBytesEntry::new(0x1000, 1u8),
        CheckBytesEntry::new(0x2000, 2u8),
    ])
    .unwrap();
    assert_eq!(registry.get(0x1000), Some(&1));
    assert_eq!(registry.get(0x2000), Some(&2));
    assert_eq!(registry.get(0x3000), None);
}
