use rspack_cacheable::dynamic::default_check_bytes_dyn;
use rspack_cacheable::dynamic::deserialize_dyn_value;
use rspack_cacheable::dynamic::serialize_dyn_value;
use rspack_cacheable::dynamic::CheckBytesEntry;
use rspack_cacheable::dynamic::CheckBytesRegistry;
use rspack_cacheable::dynamic::DynEntry;
use rspack_cacheable::dynamic::DynRegistry;
use rspack_cacheable::dynamic::SerializeDyn;
use rspack_cacheable::from_bytes;
use rspack_cacheable::with::as_tuple2::archive_two;
use rspack_cacheable::with::as_tuple2::restore_two;
use rspack_cacheable::to_bytes;
use rspack_cacheable::CacheableDeserializer;
use rspack_cacheable::CacheableSerializer;
use rspack_cacheable::Deserialize;
use rspack_cacheable::DeserializeError;
use rspack_cacheable::Model;
use rspack_cacheable::Serialize;
use rspack_cacheable::SerializeError;

type Check = fn(&[u8], &CacheableDeserializer<Context>) -> Result<(), DeserializeError>;

struct Context {
    registry: DynRegistry,
    checks: CheckBytesRegistry<Check>,
}

const DOG_DYN_ID: u64 = 0x00d0_6000_0000_0001;
const CAT_DYN_ID: u64 = 0x00ca_7000_0000_0002;
const DOG_VTABLE: usize = 0x1000;
const CAT_VTABLE: usize = 0x2000;

fn context() -> Context {
    let registry = DynRegistry::build(&vec![
        DynEntry::new(DOG_DYN_ID, DOG_VTABLE),
        DynEntry::new(CAT_DYN_ID, CAT_VTABLE),
    ])
    .expect("cacheable_dyn init global REGISTRY error, duplicate implementation.");
    let checks = CheckBytesRegistry::build(vec![
        CheckBytesEntry::new(DOG_VTABLE, default_check_bytes_dyn::<Dog, Context> as Check),
        CheckBytesEntry::new(CAT_VTABLE, default_check_bytes_dyn::<Cat, Context> as Check),
    ])
    .expect("vtable conflict, a trait implementation was likely added twice");
    Context { registry, checks }
}

trait Animal<T = ()>: SerializeDyn<Context> {
    fn color(&self) -> &str;
    fn name(&self) -> T;
    fn dyn_id(&self) -> u64;
}

struct Dog {
    color: String,
}

struct Cat {
    color: String,
}

impl Model for Dog {
    type M = ();

    fn model(&self) {
        unreachable!()
    }
}

impl Model for Cat {
    type M = ();

    fn model(&self) {
        unreachable!()
    }
}

impl Serialize<Context> for Dog {
    fn archives(_: rspack_cacheable::model::ByteSeq, _: (), _: Context) -> bool {
        unreachable!()
    }

    fn refuses(_: (), _: Context, _: SerializeError) -> bool {
        unreachable!()
    }

    fn serialize(
        &self,
        serializer: &CacheableSerializer<'_, Context>,
    ) -> Result<Vec<u8>, SerializeError> {
        self.color.serialize(serializer)
    }
}

impl Deserialize<Context> for Dog {
    fn restores(_: rspack_cacheable::model::ByteSeq, _: Context) -> Result<(), DeserializeError> {
        unreachable!()
    }

    fn deserialize(
        bytes: &[u8],
        deserializer: &CacheableDeserializer<'_, Context>,
    ) -> Result<Self, DeserializeError> {
        Ok(Dog { color: String::deserialize(bytes, deserializer)? })
    }
}

impl Serialize<Context> for Cat {
    fn archives(_: rspack_cacheable::model::ByteSeq, _: (), _: Context) -> bool {
        unreachable!()
    }

    fn refuses(_: (), _: Context, _: SerializeError) -> bool {
        unreachable!()
    }

    fn serialize(
        &self,
        serializer: &CacheableSerializer<'_, Context>,
    ) -> Result<Vec<u8>, SerializeError> {
        self.color.serialize(serializer)
    }
}

impl Deserialize<Context> for Cat {
    fn restores(_: rspack_cacheable::model::ByteSeq, _: Context) -> Result<(), DeserializeError> {
        unreachable!()
    }

    fn deserialize(
        bytes: &[u8],
        deserializer: &CacheableDeserializer<'_, Context>,
    ) -> Result<Self, DeserializeError> {
        Ok(Cat { color: String::deserialize(bytes, deserializer)? })
    }
}

impl Animal<&'static str> for Dog {
    fn color(&self) -> &str {
        &self.color
    }

    fn name(&self) -> &'static str {
        "dog"
    }

    fn dyn_id(&self) -> u64 {
        DOG_DYN_ID
    }
}

impl Animal<String> for Cat {
    fn color(&self) -> &str {
        &self.color
    }

    fn name(&self) -> String {
        String::from("cat")
    }

    fn dyn_id(&self) -> u64 {
        CAT_DYN_ID
    }
}

fn dispatch_dog(
    vtable: usize,
    bytes: &[u8],
    deserializer: &CacheableDeserializer<Context>,
) -> Result<Box<dyn Animal<&'static str>>, DeserializeError> {
    match vtable {
        DOG_VTABLE => Ok(Box::new(Dog::deserialize(bytes, deserializer)?)),
        _ => Err(DeserializeError::DeserializeFailed("no implementation for this table")),
    }
}

fn dispatch_cat(
    vtable: usize,
    bytes: &[u8],
    deserializer: &CacheableDeserializer<Context>,
) -> Result<Box<dyn Animal<String>>, DeserializeError> {
    match vtable {
        CAT_VTABLE => Ok(Box::new(Cat::deserialize(bytes, deserializer)?)),
        _ => Err(DeserializeError::DeserializeFailed("no implementation for this table")),
    }
}

struct Data {
    animal_1: Box<dyn Animal<&'static str>>,
    animal_2: Box<dyn Animal<String>>,
}

impl Model for Data {
    type M = ();

    fn model(&self) {
        unreachable!()
    }
}

impl Serialize<Context> for Data {
    fn archives(_: rspack_cacheable::model::ByteSeq, _: (), _: Context) -> bool {
        unreachable!()
    }

    fn refuses(_: (), _: Context, _: SerializeError) -> bool {
        unreachable!()
    }

    fn serialize(
        &self,
        serializer: &CacheableSerializer<'_, Context>,
    ) -> Result<Vec<u8>, SerializeError> {
        let first = serialize_dyn_value(self.animal_1.dyn_id(), &*self.animal_1, serializer)?;
        let second = serialize_dyn_value(self.animal_2.dyn_id(), &*self.animal_2, serializer)?;
        archive_two(first, second)
    }
}

impl Deserialize<Context> for Data {
    fn restores(_: rspack_cacheable::model::ByteSeq, _: Context) -> Result<(), DeserializeError> {
        unreachable!()
    }

    fn deserialize(
        bytes: &[u8],
        deserializer: &CacheableDeserializer<'_, Context>,
    ) -> Result<Self, DeserializeError> {
        let context = deserializer.context();
        let (first, second) = restore_two(bytes)?;
        let animal_1 = deserialize_dyn_value(
            &first,
            &context.registry,
            &context.checks,
            &dispatch_dog,
            deserializer,
        )?;
        let animal_2 = deserialize_dyn_value(
            &second,
            &context.registry,
            &context.checks,
            &dispatch_cat,
            deserializer,
        )?;
        Ok(Data { animal_1, animal_2 })
    }
}

#[test]
fn test_manual_cacheable_dyn_macro_with_generics() {
    let data = Data {
        animal_1: Box::new(Dog { color: String::from("black") }),
        animal_2: Box::new(Cat { color: String::from("white") }),
    };
    assert_eq!(data.animal_1.name(), "dog");
    assert_eq!(data.animal_1.color(), "black");
    assert_eq!(data.animal_2.name(), "cat");
    assert_eq!(data.animal_2.color(), "white");
    let ctx = context();
    let bytes = to_bytes(&data, &ctx).unwrap();
    let deserialize_data = from_bytes::<Data, Context>(&bytes, &ctx).unwrap();
    assert_eq!(deserialize_data.animal_1.name(), "dog");
    assert_eq!(deserialize_data.animal_1.color(), "black");
    assert_eq!(deserialize_data.animal_2.name(), "cat");
    assert_eq!(deserialize_data.animal_2.color(), "white");
}
