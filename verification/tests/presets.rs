use camino::Utf8PathBuf;
use rspack_cacheable::from_bytes;
use rspack_cacheable::to_bytes;
use rspack_cacheable::utils::TypeWrapper;
use rspack_cacheable::utils::TypeWrapperRef;
use rspack_cacheable::utils::WithWrapper;
use rspack_cacheable::utils::WithWrapperRef;
use rspack_cacheable::with::as_preset::resolver::AliasValue;
use rspack_cacheable::with::as_preset::source::rebuild_source;
use rspack_cacheable::with::as_preset::source::tag_source;
use rspack_cacheable::with::as_preset::source::SourceValue;
use rspack_cacheable::with::AsPreset;
use rspack_cacheable::DeserializeError;
use rspack_cacheable::SerializeError;
use smol_str::SmolStr;
use ustr::Ustr;

fn there_and_back<T>(value: &T) -> T
where
    AsPreset: rspack_cacheable::with::SerializeWith<T, ()>
        + rspack_cacheable::with::DeserializeWith<T, ()>,
    T: rspack_cacheable::Model,
{
    let bytes = to_bytes(&WithWrapperRef::<T, AsPreset>::new(value), &()).unwrap();
    from_bytes::<WithWrapper<T, AsPreset>, ()>(&bytes, &()).unwrap().into_inner()
}

#[test]
fn texts_of_other_crates_come_back() {
    let path = Utf8PathBuf::from("/a/b.js");
    assert_eq!(there_and_back(&path), path);
    let small = SmolStr::from("small");
    assert_eq!(there_and_back(&small), small);
    let interned = Ustr::from("interned text");
    assert_eq!(there_and_back(&interned), interned);
    let bytes = to_bytes(&WithWrapperRef::<Utf8PathBuf, AsPreset>::new(&path), &()).unwrap();
    assert_eq!(from_bytes::<String, ()>(&bytes, &()).unwrap(), "/a/b.js");
}

#[test]
fn json_values_are_archived_as_their_text() {
    let value = json::parse(r#"{"a":[1,2,{"b":null}],"c":"text"}"#).unwrap();
    assert_eq!(there_and_back(&value), value);
    let bytes = to_bytes(&WithWrapperRef::<json::JsonValue, AsPreset>::new(&value), &()).unwrap();
    assert_eq!(from_bytes::<String, ()>(&bytes, &()).unwrap(), r#"{"a":[1,2,{"b":null}],"c":"text"}"#);
    let no_json = to_bytes(&String::from("{not json"), &()).unwrap();
    assert!(matches!(
        from_bytes::<WithWrapper<json::JsonValue, AsPreset>, ()>(&no_json, &()),
        Err(DeserializeError::DeserializeFailed("deserialize json value failed"))
    ));
}

#[test]
fn serde_json_values_are_archived_as_their_text() {
    let value: serde_json::Value = serde_json::from_str(r#"{"a":[1,2,{"b":null}],"c":"text"}"#).unwrap();
    assert_eq!(there_and_back(&value), value);
    let bytes = to_bytes(&WithWrapperRef::<serde_json::Value, AsPreset>::new(&value), &()).unwrap();
    assert_eq!(from_bytes::<String, ()>(&bytes, &()).unwrap(), r#"{"a":[1,2,{"b":null}],"c":"text"}"#);
    let no_json = to_bytes(&String::from("{not json"), &()).unwrap();
    assert!(matches!(
        from_bytes::<WithWrapper<serde_json::Value, AsPreset>, ()>(&no_json, &()),
        Err(DeserializeError::DeserializeFailed("deserialize serde_json value failed"))
    ));
}

#[test]
fn an_alias_is_a_path_or_the_ignore_mark() {
    let path = AliasValue::Path(String::from("./lib"));
    assert_eq!(there_and_back(&path), path);
    assert_eq!(there_and_back(&AliasValue::Ignore), AliasValue::Ignore);
    let empty = AliasValue::Path(String::new());
    assert_eq!(there_and_back(&empty), empty);
    let marked = to_bytes(&(true, String::from("left over")), &()).unwrap();
    assert_eq!(
        from_bytes::<WithWrapper<AliasValue, AsPreset>, ()>(&marked, &()).unwrap().into_inner(),
        AliasValue::Ignore
    );
}

#[test]
fn sources_are_archived_as_tagged_bytes() {
    let buffer = SourceValue::RawBuffer(vec![0, 159, 146, 150]);
    assert_eq!(there_and_back(&buffer), buffer);
    let text = SourceValue::RawSource(String::from("console.log('é')"));
    assert_eq!(there_and_back(&text), text);
    let original =
        SourceValue::Original { name: String::from("index.js"), source: String::from("let a;") };
    assert_eq!(there_and_back(&original), original);
    assert!(matches!(
        to_bytes(&WithWrapperRef::<SourceValue, AsPreset>::new(&SourceValue::Other), &()),
        Err(SerializeError::SerializeFailed("unsupported box source"))
    ));
    assert!(matches!(tag_source(&SourceValue::Other), Err(SerializeError::SerializeFailed(_))));
    let tagged: TypeWrapper = from_bytes(&tag_source(&original).unwrap(), &()).unwrap();
    assert_eq!(tagged.name, "OriginalSource");
    assert_eq!(rebuild_source(tagged).unwrap(), original);
}

#[test]
fn a_tag_names_the_kind_of_source() {
    let tagged = |name: &str, bytes: &[u8]| TypeWrapper { name: String::from(name), bytes: bytes.to_vec() };
    assert_eq!(
        rebuild_source(tagged("RawSource::Buffer", &[255])).unwrap(),
        SourceValue::RawBuffer(vec![255])
    );
    assert_eq!(
        rebuild_source(tagged("RawSource::Source", b"abc")).unwrap(),
        SourceValue::RawSource(String::from("abc"))
    );
    let pair = to_bytes(&(String::from("file.js"), String::from("let a")), &()).unwrap();
    assert_eq!(
        rebuild_source(tagged("OriginalSource", &pair)).unwrap(),
        SourceValue::Original { name: String::from("file.js"), source: String::from("let a") }
    );
    assert!(matches!(
        rebuild_source(tagged("RawSource::Source", &[255])),
        Err(DeserializeError::DeserializeFailed("unexpect bytes"))
    ));
    assert!(matches!(
        rebuild_source(tagged("OriginalSource", &[255])),
        Err(DeserializeError::CheckBytesError)
    ));
    assert!(matches!(
        rebuild_source(tagged("ConcatSource", b"abc")),
        Err(DeserializeError::DeserializeFailed("unsupported box source"))
    ));
}

#[test]
fn a_tagged_run_comes_back_with_its_name() {
    let bytes = to_bytes(&TypeWrapperRef { name: "RawSource::Buffer", bytes: &[1, 2, 3] }, &()).unwrap();
    let back: TypeWrapper = from_bytes(&bytes, &()).unwrap();
    assert_eq!(back.name, "RawSource::Buffer");
    assert_eq!(back.bytes, vec![1, 2, 3]);
    let pair = to_bytes(&(1u64, 2u64, 3u64), &()).unwrap();
    assert!(matches!(
        from_bytes::<TypeWrapper, ()>(&pair, &()),
        Err(DeserializeError::CheckBytesError)
    ));
}
