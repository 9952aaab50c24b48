use std::sync::Arc;

use rspack_cacheable::from_bytes;
use rspack_cacheable::to_bytes;
use rspack_cacheable::utils::ArchivedWithWrapper;
use rspack_cacheable::utils::WithWrapper;
use rspack_cacheable::utils::WithWrapperRef;
use rspack_cacheable::with::AsBytes;
use rspack_cacheable::with::AsBytesConverter;
use rspack_cacheable::with::AsCacheable;
use rspack_cacheable::with::AsInner;
use rspack_cacheable::with::AsString;
use rspack_cacheable::with::AsTuple2;
use rspack_cacheable::with::AsTuple3;
use rspack_cacheable::with::AsVec;
use rspack_cacheable::with::ContextSource;
use rspack_cacheable::with::FromContext;
use rspack_cacheable::with::Unsupported;
use rspack_cacheable::CacheableDeserializer;
use rspack_cacheable::DeserializeError;
use rspack_cacheable::Model;
use rspack_cacheable::SerializeError;

#[test]
fn an_unsupported_field_fails_in_both_directions() {
    let field = 5u64;
    let r = to_bytes(&WithWrapperRef::<u64, Unsupported>::new(&field), &());
    assert!(matches!(r, Err(SerializeError::SerializeFailed("unsupported field"))));
    let r = from_bytes::<WithWrapper<u64, Unsupported>, ()>(&[], &());
    assert!(matches!(r, Err(DeserializeError::DeserializeFailed("unsupported field"))));
    let bytes = to_bytes(&5u64, &()).unwrap();
    let r = from_bytes::<WithWrapper<u64, Unsupported>, ()>(&bytes, &());
    assert!(matches!(r, Err(DeserializeError::DeserializeFailed("unsupported field"))));
}

#[test]
fn a_value_with_an_unsupported_field_fails_as_a_whole() {
    let pair = (String::from("kept"), 5u64);
    type Strategy = AsTuple2<AsCacheable, Unsupported>;
    let r = to_bytes(&WithWrapperRef::<(String, u64), Strategy>::new(&pair), &());
    assert!(matches!(r, Err(SerializeError::SerializeFailed("unsupported field"))));
    let bytes = to_bytes(&pair, &()).unwrap();
    let r = from_bytes::<WithWrapper<(String, u64), Strategy>, ()>(&bytes, &());
    assert!(matches!(r, Err(DeserializeError::DeserializeFailed("unsupported field"))));
    let list = vec![1u64, 2];
    let r = to_bytes(&WithWrapperRef::<Vec<u64>, AsVec<Unsupported>>::new(&list), &());
    assert!(matches!(r, Err(SerializeError::SerializeFailed("unsupported field"))));
}

struct Options {
    level: u64,
}

impl ContextSource<u64> for Options {
    fn supplied(&self) -> u64 {
        unreachable!()
    }

    fn supply(&self) -> u64 {
        self.level
    }
}

#[test]
fn a_context_sourced_field_takes_no_bytes_and_comes_from_the_reading_context() {
    let low = Options { level: 1 };
    let high = Options { level: 9 };
    let first = to_bytes(&WithWrapperRef::<u64, FromContext>::new(&1), &low).unwrap();
    let second = to_bytes(&WithWrapperRef::<u64, FromContext>::new(&777), &high).unwrap();
    assert_eq!(first, second);
    assert_eq!(first, Vec::<u8>::new());
    let back = from_bytes::<WithWrapper<u64, FromContext>, Options>(&first, &high)
        .unwrap()
        .into_inner();
    assert_eq!(back, 9);
    let back = from_bytes::<WithWrapper<u64, FromContext>, Options>(&first, &low)
        .unwrap()
        .into_inner();
    assert_eq!(back, 1);
    assert!(matches!(
        from_bytes::<WithWrapper<u64, FromContext>, Options>(&[0], &low),
        Err(DeserializeError::CheckBytesError)
    ));
}

#[derive(Debug, PartialEq, Eq)]
struct Even(u8);

impl Model for Even {
    type M = ();

    fn model(&self) {
        unreachable!()
    }
}

impl AsBytesConverter for Even {
    fn bytes_of(_: ()) -> Result<rspack_cacheable::model::ByteSeq, SerializeError> {
        unreachable!()
    }

    fn value_of(_: rspack_cacheable::model::ByteSeq) -> Result<(), DeserializeError> {
        unreachable!()
    }

    fn lawful() -> bool {
        unreachable!()
    }

    fn lemma_bytes_round_trip(_: ()) {
        unreachable!()
    }

    fn to_bytes(&self) -> Result<Vec<u8>, SerializeError> {
        if self.0 % 2 == 0 {
            Ok(vec![self.0, self.0 / 2])
        } else {
            Err(SerializeError::SerializeFailed("odd"))
        }
    }

    fn from_bytes(s: &[u8]) -> Result<Self, DeserializeError> {
        if s.len() == 2 && s[0] == s[1] * 2 {
            Ok(Even(s[0]))
        } else {
            Err(DeserializeError::DeserializeFailed("not an even number"))
        }
    }
}

#[test]
fn a_bytes_based_field_converts_both_ways_and_reports_conversion_failures() {
    let bytes = to_bytes(&WithWrapperRef::<Even, AsBytes>::new(&Even(8)), &()).unwrap();
    let back = from_bytes::<WithWrapper<Even, AsBytes>, ()>(&bytes, &()).unwrap().into_inner();
    assert_eq!(back, Even(8));
    assert!(matches!(
        to_bytes(&WithWrapperRef::<Even, AsBytes>::new(&Even(7)), &()),
        Err(SerializeError::SerializeFailed("odd"))
    ));
    let other = to_bytes(&WithWrapperRef::<RawRun, AsBytes>::new(&RawRun(vec![7, 7])), &()).unwrap();
    assert!(matches!(
        from_bytes::<WithWrapper<Even, AsBytes>, ()>(&other, &()),
        Err(DeserializeError::DeserializeFailed("not an even number"))
    ));
    assert!(matches!(
        from_bytes::<WithWrapper<Even, AsBytes>, ()>(&[1, 2, 3], &()),
        Err(DeserializeError::CheckBytesError)
    ));
}

impl Model for RawRun {
    type M = ();

    fn model(&self) {
        unreachable!()
    }
}

struct RawRun(Vec<u8>);

impl AsBytesConverter for RawRun {
    fn bytes_of(_: ()) -> Result<rspack_cacheable::model::ByteSeq, SerializeError> {
        unreachable!()
    }

    fn value_of(_: rspack_cacheable::model::ByteSeq) -> Result<(), DeserializeError> {
        unreachable!()
    }

    fn lawful() -> bool {
        unreachable!()
    }

    fn lemma_bytes_round_trip(_: ()) {
        unreachable!()
    }

    fn to_bytes(&self) -> Result<Vec<u8>, SerializeError> {
        Ok(self.0.clone())
    }

    fn from_bytes(s: &[u8]) -> Result<Self, DeserializeError> {
        Ok(RawRun(s.to_vec()))
    }
}

#[test]
fn a_triple_archives_each_field_with_its_own_strategy() {
    let value = (Arc::new(String::from("inner")), 5u32, Some(String::from("x")));
    type Strategy = AsTuple3<AsInner<AsCacheable>, AsCacheable, AsCacheable>;
    type Fields = (Arc<String>, u32, Option<String>);
    let bytes = to_bytes(&WithWrapperRef::<Fields, Strategy>::new(&value), &()).unwrap();
    let back = from_bytes::<WithWrapper<Fields, Strategy>, ()>(&bytes, &()).unwrap().into_inner();
    assert_eq!(back, value);
    assert!(matches!(
        from_bytes::<WithWrapper<(u32, u32), AsTuple2<AsCacheable, AsCacheable>>, ()>(&bytes, &()),
        Err(DeserializeError::CheckBytesError)
    ));
}

#[test]
fn an_archived_wrapper_rebuilds_with_its_strategy() {
    let path = std::path::PathBuf::from("/some/where");
    let bytes = to_bytes(&WithWrapperRef::<std::path::PathBuf, AsString>::new(&path), &()).unwrap();
    let archived = ArchivedWithWrapper::<Vec<u8>, AsString>::new(bytes);
    let deserializer = CacheableDeserializer::new(&());
    let back: WithWrapper<std::path::PathBuf, AsString> = archived.deserialize(&deserializer).unwrap();
    assert_eq!(back.into_inner(), path);
    let boxed: Box<str> = Box::from("boxed text");
    let bytes = to_bytes(&WithWrapperRef::<Box<str>, AsString>::new(&boxed), &()).unwrap();
    let back = from_bytes::<WithWrapper<Box<str>, AsString>, ()>(&bytes, &()).unwrap().into_inner();
    assert_eq!(back, boxed);
}
