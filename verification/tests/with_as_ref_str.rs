use rspack_cacheable::CacheableDeserializer;
use rspack_cacheable::CacheableSerializer;
use rspack_cacheable::Deserialize;
use rspack_cacheable::DeserializeError;
use rspack_cacheable::Model;
use rspack_cacheable::Serialize;
use rspack_cacheable::SerializeError;

#[derive(Debug, PartialEq, Eq)]
enum ModuleType {
    NormalModule,
    ContextModule,
}

#[derive(Debug, PartialEq, Eq)]
struct Module {
    module_type: ModuleType,
}

impl Model for Module {
    type M = ();

    fn model(&self) {
        unreachable!()
    }
}

impl<C> Serialize<C> for Module {
    fn archives(_: rspack_cacheable::model::ByteSeq, _: (), _: C) -> bool {
        unreachable!()
    }

    fn refuses(_: (), _: C, _: SerializeError) -> bool {
        unreachable!()
    }

    fn serialize(&self, serializer: &CacheableSerializer<'_, C>) -> Result<Vec<u8>, SerializeError> {
        let tag: u8 = match self.module_type {
            ModuleType::NormalModule => 0,
            ModuleType::ContextModule => 1,
        };
        tag.serialize(serializer)
    }
}

impl<C> Deserialize<C> for Module {
    fn restores(_: rspack_cacheable::model::ByteSeq, _: C) -> Result<(), DeserializeError> {
        unreachable!()
    }

    fn deserialize(
        bytes: &[u8],
        deserializer: &CacheableDeserializer<'_, C>,
    ) -> Result<Self, DeserializeError> {
        match u8::deserialize(bytes, deserializer)? {
            0 => Ok(Module { module_type: ModuleType::NormalModule }),
            1 => Ok(Module { module_type: ModuleType::ContextModule }),
            _ => Err(DeserializeError::CheckBytesError),
        }
    }
}

#[test]
fn test_as_ref_string() {
    let module = Module { module_type: ModuleType::NormalModule };

    let bytes = rspack_cacheable::to_bytes(&module, &()).unwrap();
    let new_module: Module = rspack_cacheable::from_bytes(&bytes, &()).unwrap();
    assert_eq!(module, new_module);
}

#[test]
fn the_other_variant_comes_back_too() {
    let module = Module { module_type: ModuleType::ContextModule };
    let bytes = rspack_cacheable::to_bytes(&module, &()).unwrap();
    let new_module: Module = rspack_cacheable::from_bytes(&bytes, &()).unwrap();
    assert_eq!(module, new_module);
    assert!(matches!(
        rspack_cacheable::from_bytes::<Module, ()>(&[7], &()),
        Err(DeserializeError::CheckBytesError)
    ));
}
