use rspack_cacheable::from_bytes;
use rspack_cacheable::to_bytes;
use rspack_cacheable::utils::WithWrapper;
use rspack_cacheable::utils::WithWrapperRef;
use rspack_cacheable::with::AsString;
use rspack_cacheable::with::AsStringConverter;
use rspack_cacheable::CacheableDeserializer;
use rspack_cacheable::CacheableSerializer;
use rspack_cacheable::Deserialize;
use rspack_cacheable::DeserializeError;
use rspack_cacheable::Model;
use rspack_cacheable::Serialize;
use rspack_cacheable::SerializeError;

#[derive(Debug, PartialEq, Eq)]
struct Person {
    name: String,
}

impl Model for Person {
    type M = ();

    fn model(&self) {
        unreachable!()
    }
}

impl<C> Serialize<C> for Person {
    fn archives(_: rspack_cacheable::model::ByteSeq, _: (), _: C) -> bool {
        unreachable!()
    }

    fn refuses(_: (), _: C, _: SerializeError) -> bool {
        unreachable!()
    }

    fn serialize(&self, serializer: &CacheableSerializer<'_, C>) -> Result<Vec<u8>, SerializeError> {
        self.name.serialize(serializer)
    }
}

impl<C> Deserialize<C> for Person {
    fn restores(_: rspack_cacheable::model::ByteSeq, _: C) -> Result<(), DeserializeError> {
        unreachable!()
    }

    fn deserialize(
        bytes: &[u8],
        deserializer: &CacheableDeserializer<'_, C>,
    ) -> Result<Self, DeserializeError> {
        Ok(Person { name: String::deserialize(bytes, deserializer)? })
    }
}

#[test]
fn test_manual_cacheable() {
    let a = Person { name: String::from("a") };
    let bytes = to_bytes(&a, &()).unwrap();
    let deserialize_a = from_bytes(&bytes, &()).unwrap();
    assert_eq!(a, deserialize_a);
}

#[derive(Debug, PartialEq, Eq)]
struct UnCacheable {}

#[derive(Debug, PartialEq, Eq)]
struct Tagged {
    name: String,
    uncacheable: UnCacheable,
}

impl Model for Tagged {
    type M = ();

    fn model(&self) {
        unreachable!()
    }
}

impl AsStringConverter for Tagged {
    fn text_of(_: ()) -> Result<rspack_cacheable::model::TextSeq, SerializeError> {
        unreachable!()
    }

    fn value_of(_: rspack_cacheable::model::TextSeq) -> Result<(), DeserializeError> {
        unreachable!()
    }

    fn lawful() -> bool {
        unreachable!()
    }

    fn lemma_text_round_trip(_: ()) {
        unreachable!()
    }

    fn to_string(&self) -> Result<String, SerializeError> {
        Ok(self.name.clone())
    }

    fn from_str(s: &str) -> Result<Self, DeserializeError> {
        Ok(Self { name: String::from(s), uncacheable: UnCacheable {} })
    }
}

#[test]
fn test_manual_cacheable_with_macro() {
    let a = Tagged { name: String::from("a"), uncacheable: UnCacheable {} };
    let bytes = to_bytes(&WithWrapperRef::<Tagged, AsString>::new(&a), &()).unwrap();
    let deserialize_a = from_bytes::<WithWrapper<Tagged, AsString>, ()>(&bytes, &())
        .unwrap()
        .into_inner();
    assert_eq!(a, deserialize_a);
}
