use std::path::PathBuf;

use dashmap::DashMap;
use rspack_cacheable::utils::WithWrapper;
use rspack_cacheable::utils::WithWrapperRef;
use rspack_cacheable::with::AsCacheable;
use rspack_cacheable::with::AsMap;
use rspack_cacheable::with::AsString;
use rspack_cacheable::with::AsTuple2;
use rspack_cacheable::CacheableDeserializer;
use rspack_cacheable::CacheableSerializer;
use rspack_cacheable::Deserialize;
use rspack_cacheable::DeserializeError;
use rspack_cacheable::Model;
use rspack_cacheable::Serialize;
use rspack_cacheable::SerializeError;
use rustc_hash::FxHashMap;

#[derive(Debug, PartialEq, Eq)]
struct Module {
    content: String,
}

impl Model for Module {
    type M = ();

    fn model(&self) {
        unreachable!()
    }
}

impl<C> Serialize<C> for Module {
    fn archives(_: rspack_cacheable::model::ByteSeq, _: (), _: C) -> bool {
        unreachable!()
    }

    fn refuses(_: (), _: C, _: SerializeError) -> bool {
        unreachable!()
    }

    fn serialize(&self, serializer: &CacheableSerializer<'_, C>) -> Result<Vec<u8>, SerializeError> {
        self.content.serialize(serializer)
    }
}

impl<C> Deserialize<C> for Module {
    fn restores(_: rspack_cacheable::model::ByteSeq, _: C) -> Result<(), DeserializeError> {
        unreachable!()
    }

    fn deserialize(
        bytes: &[u8],
        deserializer: &CacheableDeserializer<'_, C>,
    ) -> Result<Self, DeserializeError> {
        Ok(Module { content: String::deserialize(bytes, deserializer)? })
    }
}

#[derive(Debug)]
struct App {
    modules: FxHashMap<String, Module>,
    paths: DashMap<String, PathBuf>,
}

type AppFields = (FxHashMap<String, Module>, DashMap<String, PathBuf>);
type AppStrategy = AsTuple2<AsMap<AsCacheable, AsCacheable>, AsMap<AsCacheable, AsString>>;

#[test]
fn test_as_map() {
    let modules = FxHashMap::from_iter(vec![
        (String::from("file1"), Module { content: String::from("console.log('file')") }),
        (String::from("file2"), Module { content: String::from("export const file2 = 1;") }),
    ]);
    let paths = dashmap::DashMap::from_iter(vec![
        (String::from("file1"), PathBuf::from("/a")),
        (String::from("file2"), PathBuf::from("/a")),
    ]);
    let app = App { modules, paths };

    let fields: AppFields = (app.modules, app.paths);
    let bytes =
        rspack_cacheable::to_bytes(&WithWrapperRef::<AppFields, AppStrategy>::new(&fields), &())
            .unwrap();
    let app = App { modules: fields.0, paths: fields.1 };
    let (modules, paths) =
        rspack_cacheable::from_bytes::<WithWrapper<AppFields, AppStrategy>, ()>(&bytes, &())
            .unwrap()
            .into_inner();
    let new_app = App { modules, paths };
    assert_eq!(app.modules, new_app.modules);
    assert_eq!(app.paths.len(), new_app.paths.len());
    for item in app.paths.iter() {
        assert_eq!(*item.value(), *new_app.paths.get(item.key()).expect("should have app path"));
    }
}
