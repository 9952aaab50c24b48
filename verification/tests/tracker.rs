use std::sync::Arc;

use rspack_cacheable::to_bytes;
use rspack_cacheable::CacheableDeserializer;
use rspack_cacheable::CacheableSerializer;
use rspack_cacheable::DeserializeError;
use rspack_cacheable::SerializeError;
use rspack_cacheable::SharedValues;

#[test]
fn a_shared_value_is_found_again_at_the_position_it_was_written_to() {
    let mut serializer = CacheableSerializer::new(&());
    assert_eq!(serializer.get_shared_ptr(0x1000), None);
    serializer.add_shared_ptr(0x1000, 24).unwrap();
    serializer.add_shared_ptr(0x2000, 48).unwrap();
    assert_eq!(serializer.get_shared_ptr(0x1000), Some(24));
    assert_eq!(serializer.get_shared_ptr(0x2000), Some(48));
    assert_eq!(serializer.get_shared_ptr(0x3000), None);
}

#[test]
fn the_same_identity_registered_twice_is_refused_and_not_overwritten() {
    let mut serializer = CacheableSerializer::new(&());
    serializer.add_shared_ptr(0x1000, 24).unwrap();
    assert!(matches!(
        serializer.add_shared_ptr(0x1000, 99),
        Err(SerializeError::SharedError(_))
    ));
    assert_eq!(serializer.get_shared_ptr(0x1000), Some(24));
}

#[test]
fn the_reader_refuses_a_second_value_for_one_identity() {
    let mut deserializer = CacheableDeserializer::new(&());
    assert_eq!(deserializer.get_shared_ptr(0x1000), None);
    let shared = Arc::new(String::from("shared"));
    deserializer.add_shared_ptr(0x1000, shared.clone()).unwrap();
    let first = deserializer.get_shared_ptr(0x1000);
    assert_eq!(first, Some(Arc::as_ptr(&shared) as usize));
    assert_eq!(deserializer.get_shared_ptr(0x1000), first);
    assert!(matches!(
        deserializer.add_shared_ptr(0x1000, Arc::new(String::from("other"))),
        Err(DeserializeError::DuplicateSharedPointer)
    ));
    assert_eq!(deserializer.get_shared_ptr(0x1000), first);
    assert_eq!(deserializer.get_shared_ptr(0x2000), None);
}

#[test]
fn the_context_of_a_pass_is_the_one_it_was_made_with() {
    let context = String::from("options");
    let serializer = CacheableSerializer::new(&context);
    assert_eq!(serializer.context(), "options");
    let deserializer = CacheableDeserializer::new(&context);
    assert_eq!(deserializer.context(), "options");
}

#[test]
fn a_value_is_placed_at_the_next_aligned_position() {
    let mut serializer = CacheableSerializer::new(&());
    serializer.write(&[7, 7, 7]).unwrap();
    let pos = serializer.serialize_value(&0x0102_0304u32).unwrap();
    assert_eq!(pos, 16);
    assert_eq!(serializer.pos(), 20);
    let bytes = serializer.into_bytes();
    assert_eq!(&bytes[..3], &[7, 7, 7]);
    assert_eq!(&bytes[3..16], &[0u8; 13]);
    assert_eq!(&bytes[16..], &[4, 3, 2, 1]);
}

#[test]
fn align_pads_with_zeroes_up_to_the_boundary() {
    let mut serializer = CacheableSerializer::new(&());
    assert_eq!(serializer.align(16).unwrap(), 0);
    serializer.write(&[1]).unwrap();
    assert_eq!(serializer.align(4).unwrap(), 4);
    assert_eq!(serializer.align(4).unwrap(), 4);
    serializer.pad(0).unwrap();
    serializer.pad(31).unwrap();
    assert_eq!(serializer.pos(), 35);
    assert_eq!(serializer.align(1).unwrap(), 35);
    let mut expected = vec![1u8];
    expected.extend_from_slice(&[0u8; 34]);
    assert_eq!(serializer.into_bytes(), expected);
}

#[test]
fn align_for_pads_up_to_the_alignment_of_the_type() {
    let mut serializer = CacheableSerializer::new(&());
    serializer.write(&[1, 2, 3]).unwrap();
    assert_eq!(serializer.align_for::<u64>().unwrap(), 8);
    assert_eq!(serializer.align_for::<u8>().unwrap(), 8);
    serializer.write(&[4]).unwrap();
    assert_eq!(serializer.align_for::<u16>().unwrap(), 10);
    assert_eq!(serializer.into_bytes(), vec![1, 2, 3, 0, 0, 0, 0, 0, 4, 0]);
}

#[test]
fn a_value_that_two_places_refer_to_is_archived_once() {
    let shared = String::from("shared by two fields");
    let other = String::from("shared by two fields");
    let mut serializer = CacheableSerializer::new(&());
    let first = serializer.serialize_shared(0x1000, &shared).unwrap();
    let written = serializer.pos();
    let second = serializer.serialize_shared(0x1000, &shared).unwrap();
    assert_eq!(first, second);
    assert_eq!(serializer.pos(), written);
    let third = serializer.serialize_shared(0x2000, &other).unwrap();
    assert!(third >= written);
    assert!(serializer.pos() > written);
    assert_eq!(serializer.get_shared_ptr(0x1000), Some(first));
    assert_eq!(serializer.get_shared_ptr(0x2000), Some(third));
}

#[test]
fn two_references_to_one_shared_value_are_rebuilt_as_one_value() {
    let bytes = to_bytes(&String::from("x"), &()).unwrap();
    let mut deserializer = CacheableDeserializer::new(&());
    let mut rebuilt = SharedValues::<String>::new();
    let a = deserializer
        .deserialize_shared(&mut rebuilt, 0x40, &bytes)
        .unwrap();
    let b = deserializer
        .deserialize_shared(&mut rebuilt, 0x40, &bytes)
        .unwrap();
    assert!(Arc::ptr_eq(&a, &b));
    assert_eq!(*a, "x");
    assert_eq!(rebuilt.len(), 1);
    assert_eq!(
        deserializer.get_shared_ptr(0x40),
        Some(Arc::as_ptr(&a) as usize)
    );
    let c = deserializer
        .deserialize_shared(&mut rebuilt, 0x80, &bytes)
        .unwrap();
    assert!(!Arc::ptr_eq(&a, &c));
    assert_eq!(*c, "x");
    assert_eq!(rebuilt.len(), 2);
    assert!(Arc::ptr_eq(&rebuilt.get(0x40).unwrap(), &a));
    assert!(Arc::ptr_eq(&rebuilt.get(0x80).unwrap(), &c));
    assert!(rebuilt.get(0xc0).is_none());
}

#[test]
fn a_shared_value_that_was_rebuilt_is_not_read_again() {
    let bytes = to_bytes(&String::from("once"), &()).unwrap();
    let mut deserializer = CacheableDeserializer::new(&());
    let mut rebuilt = SharedValues::<String>::new();
    let first = deserializer
        .deserialize_shared(&mut rebuilt, 0x40, &bytes)
        .unwrap();
    let second = deserializer
        .deserialize_shared(&mut rebuilt, 0x40, &[0xff, 0xff, 0xff])
        .unwrap();
    assert!(Arc::ptr_eq(&first, &second));
    assert_eq!(*second, "once");
}

#[test]
fn a_shared_value_that_cannot_be_read_is_not_registered() {
    let mut deserializer = CacheableDeserializer::new(&());
    let mut rebuilt = SharedValues::<String>::new();
    assert!(matches!(
        deserializer.deserialize_shared(&mut rebuilt, 0x40, &[0xff, 0xff, 0xff]),
        Err(DeserializeError::CheckBytesError)
    ));
    assert_eq!(rebuilt.len(), 0);
    assert_eq!(deserializer.get_shared_ptr(0x40), None);
}

#[test]
fn an_identity_that_stands_for_another_value_is_refused() {
    let bytes = to_bytes(&String::from("x"), &()).unwrap();
    let mut deserializer = CacheableDeserializer::new(&());
    let taken = Arc::new(7u32);
    deserializer.add_shared_ptr(0x40, taken.clone()).unwrap();
    let mut rebuilt = SharedValues::<String>::new();
    assert!(matches!(
        deserializer.deserialize_shared(&mut rebuilt, 0x40, &bytes),
        Err(DeserializeError::DuplicateSharedPointer)
    ));
    assert_eq!(rebuilt.len(), 0);
    assert_eq!(
        deserializer.get_shared_ptr(0x40),
        Some(Arc::as_ptr(&taken) as usize)
    );
}
