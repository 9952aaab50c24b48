use std::path::PathBuf;
use std::sync::Arc;

use once_cell::sync::OnceCell;
use rspack_cacheable::with::as_tuple3::serialize_triple;
use rspack_cacheable::with::AsCacheable;
use rspack_cacheable::with::AsInner;
use rspack_cacheable::with::AsString;
use rspack_cacheable::with::AsTuple3;
use rspack_cacheable::with::DeserializeWith;
use rspack_cacheable::CacheableDeserializer;
use rspack_cacheable::CacheableSerializer;
use rspack_cacheable::Deserialize;
use rspack_cacheable::DeserializeError;
use rspack_cacheable::Model;
use rspack_cacheable::Serialize;
use rspack_cacheable::SerializeError;

#[derive(Debug, PartialEq, Eq)]
struct Data {
    path: Arc<PathBuf>,
    block1: OnceCell<usize>,
    block2: OnceCell<usize>,
}

type DataStrategy = AsTuple3<AsInner<AsString>, AsInner<AsCacheable>, AsInner<AsCacheable>>;

impl Model for Data {
    type M = ();

    fn model(&self) {
        unreachable!()
    }
}

impl<C> Serialize<C> for Data {
    fn archives(_: rspack_cacheable::model::ByteSeq, _: (), _: C) -> bool {
        unreachable!()
    }

    fn refuses(_: (), _: C, _: SerializeError) -> bool {
        unreachable!()
    }

    fn serialize(&self, serializer: &CacheableSerializer<'_, C>) -> Result<Vec<u8>, SerializeError> {
        serialize_triple::<
            AsInner<AsString>,
            AsInner<AsCacheable>,
            AsInner<AsCacheable>,
            Arc<PathBuf>,
            OnceCell<usize>,
            OnceCell<usize>,
            C,
        >(&self.path, &self.block1, &self.block2, serializer)
    }
}

impl<C> Deserialize<C> for Data {
    fn restores(_: rspack_cacheable::model::ByteSeq, _: C) -> Result<(), DeserializeError> {
        unreachable!()
    }

    fn deserialize(
        bytes: &[u8],
        deserializer: &CacheableDeserializer<'_, C>,
    ) -> Result<Self, DeserializeError> {
        let (path, block1, block2) = <DataStrategy as DeserializeWith<
            (Arc<PathBuf>, OnceCell<usize>, OnceCell<usize>),
            C,
        >>::deserialize_with(bytes, deserializer)?;
        Ok(Data { path, block1, block2 })
    }
}

#[test]
fn test_as_inner() {
    let data = Data {
        path: Arc::new(PathBuf::from("/abc")),
        block1: OnceCell::new(),
        block2: OnceCell::with_value(2),
    };

    let bytes = rspack_cacheable::to_bytes(&data, &()).unwrap();
    let new_data: Data = rspack_cacheable::from_bytes(&bytes, &()).unwrap();
    assert_eq!(data, new_data);
}
