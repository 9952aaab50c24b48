use rspack_cacheable::from_bytes;
use rspack_cacheable::DeserializeError;

#[test]
fn each_error_describes_itself() {
    assert_eq!(DeserializeError::CheckBytesError.to_string(), "CheckBytesError");
    assert_eq!(DeserializeError::DuplicateSharedPointer.to_string(), "DuplicateSharedPointer");
    assert_eq!(DeserializeError::UnknownPolymorphicType.to_string(), "UnknownPolymorphicType");
    assert_eq!(
        DeserializeError::DeserializeFailed("unsupported field").to_string(),
        "DeserializeFailed unsupported field"
    );
    assert_eq!(DeserializeError::DeserializeFailed("").to_string(), "DeserializeFailed ");
}

#[test]
fn broken_buffers_are_rejected_and_never_read() {
    assert!(matches!(from_bytes::<String, ()>(&[], &()), Err(DeserializeError::CheckBytesError)));
    assert!(matches!(
        from_bytes::<String, ()>(&[255; 16], &()),
        Err(DeserializeError::CheckBytesError)
    ));
    assert!(matches!(
        from_bytes::<Vec<String>, ()>(&[1, 2, 3], &()),
        Err(DeserializeError::CheckBytesError)
    ));
    assert!(matches!(from_bytes::<bool, ()>(&[2], &()), Err(DeserializeError::CheckBytesError)));
    assert!(matches!(from_bytes::<u8, ()>(&[], &()), Err(DeserializeError::CheckBytesError)));
    assert!(matches!(
        from_bytes::<usize, ()>(&[0; 7], &()),
        Err(DeserializeError::CheckBytesError)
    ));
    assert!(matches!(
        from_bytes::<Option<u64>, ()>(&[0; 7], &()),
        Err(DeserializeError::CheckBytesError)
    ));
    assert_eq!(from_bytes::<usize, ()>(&[5, 0, 0, 0, 0, 0, 0, 0], &()).unwrap(), 5);
    assert!(!from_bytes::<bool, ()>(&[0], &()).unwrap());
}
