use rspack_cacheable::dynamic::default_check_bytes_dyn;
use rspack_cacheable::dynamic::deserialize_dyn_value;
use rspack_cacheable::dynamic::serialize_dyn_value;
use rspack_cacheable::dynamic::CheckBytesEntry;
use rspack_cacheable::dynamic::CheckBytesRegistry;
use rspack_cacheable::dynamic::DynEntry;
use rspack_cacheable::dynamic::DynRegistry;
use rspack_cacheable::dynamic::SerializeDyn;
use rspack_cacheable::from_bytes;
use rspack_cacheable::to_bytes;
use rspack_cacheable::CacheableDeserializer;
use rspack_cacheable::CacheableSerializer;
use rspack_cacheable::Deserialize;
use rspack_cacheable::DeserializeError;
use rspack_cacheable::Model;
use rspack_cacheable::Serialize;
use rspack_cacheable::SerializeError;

type Check = fn(&[u8], &CacheableDeserializer<Context>) -> Result<(), DeserializeError>;

struct Context {
    registry: DynRegistry,
    checks: CheckBytesRegistry<Check>,
}

const DOG_DYN_ID: u64 = 0x00d0_6000_0000_0001;
const CAT_DYN_ID: u64 = 0x00ca_7000_0000_0002;
const DOG_VTABLE: usize = 0x1000;
const CAT_VTABLE: usize = 0x2000;

fn context() -> Context {
    let registry = DynRegistry::build(&vec![
        DynEntry::new(DOG_DYN_ID, DOG_VTABLE),
        DynEntry::new(CAT_DYN_ID, CAT_VTABLE),
    ])
    .expect("cacheable_dyn init global REGISTRY error, duplicate implementation.");
    let checks = CheckBytesRegistry::build(vec![
        CheckBytesEntry::new(DOG_VTABLE, default_check_bytes_dyn::<Dog, Context> as Check),
        CheckBytesEntry::new(CAT_VTABLE, default_check_bytes_dyn::<Cat, Context> as Check),
    ])
    .expect("vtable conflict, a trait implementation was likely added twice");
    Context { registry, checks }
}

trait Animal: SerializeDyn<Context> {
    fn color(&self) -> &str;
    fn name(&self) -> &str;
    fn dyn_id(&self) -> u64;
}

struct Dog {
    color: String,
}

struct Cat {
    color: String,
}

impl Model for Dog {
    type M = ();

    fn model(&self) {
        unreachable!()
    }
}

impl Model for Cat {
    type M = ();

    fn model(&self) {
        unreachable!()
    }
}

impl Serialize<Context> for Dog {
    fn archives(_: rspack_cacheable::model::ByteSeq, _: (), _: Context) -> bool {
        unreachable!()
    }

    fn refuses(_: (), _: Context, _: SerializeError) -> bool {
        unreachable!()
    }

    fn serialize(
        &self,
        serializer: &CacheableSerializer<'_, Context>,
    ) -> Result<Vec<u8>, SerializeError> {
        self.color.serialize(serializer)
    }
}

impl Deserialize<Context> for Dog {
    fn restores(_: rspack_cacheable::model::ByteSeq, _: Context) -> Result<(), DeserializeError> {
        unreachable!()
    }

    fn deserialize(
        bytes: &[u8],
        deserializer: &CacheableDeserializer<'_, Context>,
    ) -> Result<Self, DeserializeError> {
        Ok(Dog { color: String::deserialize(bytes, deserializer)? })
    }
}

impl Serialize<Context> for Cat {
    fn archives(_: rspack_cacheable::model::ByteSeq, _: (), _: Context) -> bool {
        unreachable!()
    }

    fn refuses(_: (), _: Context, _: SerializeError) -> bool {
        unreachable!()
    }

    fn serialize(
        &self,
        serializer: &CacheableSerializer<'_, Context>,
    ) -> Result<Vec<u8>, SerializeError> {
        self.color.serialize(serializer)
    }
}

impl Deserialize<Context> for Cat {
    fn restores(_: rspack_cacheable::model::ByteSeq, _: Context) -> Result<(), DeserializeError> {
        unreachable!()
    }

    fn deserialize(
        bytes: &[u8],
        deserializer: &CacheableDeserializer<'_, Context>,
    ) -> Result<Self, DeserializeError> {
        Ok(Cat { color: String::deserialize(bytes, deserializer)? })
    }
}

impl Animal for Dog {
    fn color(&self) -> &str {
        &self.color
    }

    fn name(&self) -> &str {
        "dog"
    }

    fn dyn_id(&self) -> u64 {
        DOG_DYN_ID
    }
}

impl Animal for Cat {
    fn color(&self) -> &str {
        &self.color
    }

    fn name(&self) -> &str {
        "cat"
    }

    fn dyn_id(&self) -> u64 {
        CAT_DYN_ID
    }
}

fn dispatch(
    vtable: usize,
    bytes: &[u8],
    deserializer: &CacheableDeserializer<Context>,
) -> Result<Box<dyn Animal>, DeserializeError> {
    match vtable {
        DOG_VTABLE => Ok(Box::new(Dog::deserialize(bytes, deserializer)?)),
        CAT_VTABLE => Ok(Box::new(Cat::deserialize(bytes, deserializer)?)),
        _ => Err(DeserializeError::DeserializeFailed("no implementation for this table")),
    }
}

struct Data {
    animal: Box<dyn Animal>,
}

impl Model for Data {
    type M = ();

    fn model(&self) {
        unreachable!()
    }
}

impl Serialize<Context> for Data {
    fn archives(_: rspack_cacheable::model::ByteSeq, _: (), _: Context) -> bool {
        unreachable!()
    }

    fn refuses(_: (), _: Context, _: SerializeError) -> bool {
        unreachable!()
    }

    fn serialize(
        &self,
        serializer: &CacheableSerializer<'_, Context>,
    ) -> Result<Vec<u8>, SerializeError> {
        serialize_dyn_value(self.animal.dyn_id(), &*self.animal, serializer)
    }
}

impl Deserialize<Context> for Data {
    fn restores(_: rspack_cacheable::model::ByteSeq, _: Context) -> Result<(), DeserializeError> {
        unreachable!()
    }

    fn deserialize(
        bytes: &[u8],
        deserializer: &CacheableDeserializer<'_, Context>,
    ) -> Result<Self, DeserializeError> {
        let context = deserializer.context();
        let animal = deserialize_dyn_value(
            bytes,
            &context.registry,
            &context.checks,
            &dispatch,
            deserializer,
        )?;
        Ok(Data { animal })
    }
}

#[test]
fn test_manual_cacheable_dyn_macro() {
    let dog_data = Data { animal: Box::new(Dog { color: String::from("black") }) };
    assert_eq!(dog_data.animal.name(), "dog");
    assert_eq!(dog_data.animal.color(), "black");
    let ctx = context();
    let bytes = to_bytes(&dog_data, &ctx).unwrap();
    let deserialize_data = from_bytes::<Data, Context>(&bytes, &ctx).unwrap();
    assert_eq!(deserialize_data.animal.name(), "dog");
    assert_eq!(deserialize_data.animal.color(), "black");

    let cat_data = Data { animal: Box::new(Cat { color: String::from("white") }) };
    assert_eq!(cat_data.animal.name(), "cat");
    assert_eq!(cat_data.animal.color(), "white");
    let ctx = context();
    let bytes = to_bytes(&cat_data, &ctx).unwrap();
    let deserialize_data = from_bytes::<Data, Context>(&bytes, &ctx).unwrap();
    assert_eq!(deserialize_data.animal.name(), "cat");
    assert_eq!(deserialize_data.animal.color(), "white");
}

#[test]
fn an_unregistered_type_is_rejected_not_rebuilt() {
    let cat_data = Data { animal: Box::new(Cat { color: String::from("white") }) };
    let bytes = to_bytes(&cat_data, &context()).unwrap();
    let dogs_only = Context {
        registry: DynRegistry::build(&vec![DynEntry::new(DOG_DYN_ID, DOG_VTABLE)]).unwrap(),
        checks: CheckBytesRegistry::build(vec![CheckBytesEntry::new(
            DOG_VTABLE,
            default_check_bytes_dyn::<Dog, Context> as Check,
        )])
        .unwrap(),
    };
    assert!(matches!(
        from_bytes::<Data, Context>(&bytes, &dogs_only),
        Err(DeserializeError::UnknownPolymorphicType)
    ));
}

#[test]
fn a_type_without_a_validation_routine_is_rejected() {
    let cat_data = Data { animal: Box::new(Cat { color: String::from("white") }) };
    let bytes = to_bytes(&cat_data, &context()).unwrap();
    let unchecked_cats = Context {
        registry: context().registry,
        checks: CheckBytesRegistry::build(vec![CheckBytesEntry::new(
            DOG_VTABLE,
            default_check_bytes_dyn::<Dog, Context> as Check,
        )])
        .unwrap(),
    };
    assert!(matches!(
        from_bytes::<Data, Context>(&bytes, &unchecked_cats),
        Err(DeserializeError::CheckBytesError)
    ));
}
