use std::collections::HashMap;
use std::collections::HashSet;

use std::path::PathBuf;

use dashmap::DashMap;
use hashlink::LinkedHashMap;
use indexmap::IndexMap;
use indexmap::IndexSet;
use rspack_cacheable::from_bytes;
use rspack_cacheable::to_bytes;
use rspack_cacheable::utils::WithWrapper;
use rspack_cacheable::utils::WithWrapperRef;
use rspack_cacheable::with::concurrent::dash_map_from;
use rspack_cacheable::with::concurrent::dash_map_iter;
use rspack_cacheable::with::concurrent::dash_map_len;
use rspack_cacheable::with::as_vec::collect_items;
use rspack_cacheable::with::AsCacheable;
use rspack_cacheable::with::AsMap;
use rspack_cacheable::with::AsMapConverter;
use rspack_cacheable::with::AsString;
use rspack_cacheable::with::AsVec;
use rspack_cacheable::with::AsVecConverter;
use rspack_cacheable::DeserializeError;

type Pairs = AsMap;
type Items = AsVec;

fn archive_of_pairs(pairs: &[(u64, u64)]) -> Vec<u8> {
    to_bytes(&pairs.to_vec(), &()).unwrap()
}

#[test]
fn a_hash_set_comes_back_whatever_the_order_of_its_items() {
    let set: HashSet<u64> = [3, 1, 2].into_iter().collect();
    let bytes = to_bytes(&WithWrapperRef::<HashSet<u64>, Items>::new(&set), &()).unwrap();
    let back = from_bytes::<WithWrapper<HashSet<u64>, Items>, ()>(&bytes, &()).unwrap().into_inner();
    assert_eq!(back, set);
    for order in [vec![1u64, 2, 3], vec![3, 2, 1], vec![2, 3, 1], vec![2, 2, 3, 1, 3]] {
        let bytes = to_bytes(&order, &()).unwrap();
        let back = from_bytes::<WithWrapper<HashSet<u64>, Items>, ()>(&bytes, &()).unwrap().into_inner();
        assert_eq!(back, set);
    }
    assert_eq!(AsVecConverter::len(&set), 3);
}

#[test]
fn a_hash_map_comes_back_and_the_last_write_of_a_key_wins() {
    let map: HashMap<u64, String> =
        [(1, String::from("one")), (2, String::from("two"))].into_iter().collect();
    let bytes = to_bytes(&WithWrapperRef::<HashMap<u64, String>, Pairs>::new(&map), &()).unwrap();
    let back =
        from_bytes::<WithWrapper<HashMap<u64, String>, Pairs>, ()>(&bytes, &()).unwrap().into_inner();
    assert_eq!(back, map);
    assert_eq!(AsMapConverter::len(&map), 2);
    let bytes = archive_of_pairs(&[(1, 10), (2, 20), (1, 11)]);
    let back =
        from_bytes::<WithWrapper<HashMap<u64, u64>, Pairs>, ()>(&bytes, &()).unwrap().into_inner();
    let expected: HashMap<u64, u64> = [(1, 11), (2, 20)].into_iter().collect();
    assert_eq!(back, expected);
}

#[test]
fn an_index_set_keeps_its_order_and_an_item_where_it_first_stood() {
    let set: IndexSet<u64> = [5, 3, 9].into_iter().collect();
    let bytes = to_bytes(&WithWrapperRef::<IndexSet<u64>, Items>::new(&set), &()).unwrap();
    assert_eq!(from_bytes::<Vec<u64>, ()>(&bytes, &()).unwrap(), vec![5, 3, 9]);
    let back = from_bytes::<WithWrapper<IndexSet<u64>, Items>, ()>(&bytes, &()).unwrap().into_inner();
    assert_eq!(back.into_iter().collect::<Vec<_>>(), vec![5, 3, 9]);
    let bytes = to_bytes(&vec![5u64, 3, 5, 9, 3], &()).unwrap();
    let back = from_bytes::<WithWrapper<IndexSet<u64>, Items>, ()>(&bytes, &()).unwrap().into_inner();
    assert_eq!(back.into_iter().collect::<Vec<_>>(), vec![5, 3, 9]);
    assert_eq!(AsVecConverter::len(&set), 3);
}

#[test]
fn an_index_map_keeps_the_place_of_a_key_and_takes_its_last_value() {
    let map: IndexMap<u64, u64> = [(5, 50), (3, 30), (9, 90)].into_iter().collect();
    let bytes = to_bytes(&WithWrapperRef::<IndexMap<u64, u64>, Pairs>::new(&map), &()).unwrap();
    assert_eq!(bytes, archive_of_pairs(&[(5, 50), (3, 30), (9, 90)]));
    let back = from_bytes::<WithWrapper<IndexMap<u64, u64>, Pairs>, ()>(&bytes, &()).unwrap().into_inner();
    assert_eq!(back.into_iter().collect::<Vec<_>>(), vec![(5, 50), (3, 30), (9, 90)]);
    let bytes = archive_of_pairs(&[(5, 50), (3, 30), (5, 51), (9, 90)]);
    let back = from_bytes::<WithWrapper<IndexMap<u64, u64>, Pairs>, ()>(&bytes, &()).unwrap().into_inner();
    assert_eq!(back.into_iter().collect::<Vec<_>>(), vec![(5, 51), (3, 30), (9, 90)]);
    assert_eq!(AsMapConverter::len(&map), 3);
}

#[test]
fn a_linked_hash_map_moves_a_key_that_is_written_again_to_the_back() {
    let mut map: LinkedHashMap<u64, u64> = LinkedHashMap::default();
    map.insert(5, 50);
    map.insert(3, 30);
    map.insert(9, 90);
    let bytes = to_bytes(&WithWrapperRef::<LinkedHashMap<u64, u64>, Pairs>::new(&map), &()).unwrap();
    assert_eq!(bytes, archive_of_pairs(&[(5, 50), (3, 30), (9, 90)]));
    let back =
        from_bytes::<WithWrapper<LinkedHashMap<u64, u64>, Pairs>, ()>(&bytes, &()).unwrap().into_inner();
    assert_eq!(back.into_iter().collect::<Vec<_>>(), vec![(5, 50), (3, 30), (9, 90)]);
    let bytes = archive_of_pairs(&[(5, 50), (3, 30), (5, 51), (9, 90)]);
    let back =
        from_bytes::<WithWrapper<LinkedHashMap<u64, u64>, Pairs>, ()>(&bytes, &()).unwrap().into_inner();
    assert_eq!(back.into_iter().collect::<Vec<_>>(), vec![(3, 30), (5, 51), (9, 90)]);
    assert_eq!(AsMapConverter::len(&map), 3);
}

fn archive_of_paths(pairs: &[(&str, &str)]) -> Vec<u8> {
    let listed: Vec<(String, String)> =
        pairs.iter().map(|(key, path)| (String::from(*key), String::from(*path))).collect();
    to_bytes(&listed, &()).unwrap()
}

#[test]
fn a_concurrent_map_is_walked_entry_by_entry_and_built_by_insertion() {
    type Paths = AsMap<AsCacheable, AsString>;
    let map: DashMap<String, PathBuf> = DashMap::default();
    map.insert(String::from("file1"), PathBuf::from("/a"));
    map.insert(String::from("file2"), PathBuf::from("/b"));
    let mut entries = dash_map_iter(&map);
    entries.sort();
    assert_eq!(
        entries,
        vec![
            (String::from("file1"), PathBuf::from("/a")),
            (String::from("file2"), PathBuf::from("/b"))
        ]
    );
    assert_eq!(dash_map_len(&map), 2);
    let built = dash_map_from(vec![
        (String::from("file1"), PathBuf::from("/a")),
        (String::from("file2"), PathBuf::from("/b")),
        (String::from("file1"), PathBuf::from("/c")),
    ]);
    assert_eq!(built.len(), 2);
    assert_eq!(*built.get("file1").unwrap(), PathBuf::from("/c"));
    assert_eq!(*built.get("file2").unwrap(), PathBuf::from("/b"));
    let bytes = to_bytes(&WithWrapperRef::<DashMap<String, PathBuf>, Paths>::new(&map), &()).unwrap();
    let back = from_bytes::<WithWrapper<DashMap<String, PathBuf>, Paths>, ()>(&bytes, &())
        .unwrap()
        .into_inner();
    assert_eq!(back.len(), 2);
    assert_eq!(*back.get("file1").unwrap(), PathBuf::from("/a"));
    assert_eq!(*back.get("file2").unwrap(), PathBuf::from("/b"));
    let bytes = archive_of_paths(&[("k", "/old"), ("l", "/l"), ("k", "/new")]);
    let back = from_bytes::<WithWrapper<DashMap<String, PathBuf>, Paths>, ()>(&bytes, &())
        .unwrap()
        .into_inner();
    assert_eq!(back.len(), 2);
    assert_eq!(*back.get("k").unwrap(), PathBuf::from("/new"));
    assert_eq!(*back.get("l").unwrap(), PathBuf::from("/l"));
}

#[test]
fn items_are_gathered_up_to_the_first_error() {
    assert_eq!(collect_items::<u64>(vec![Ok(1), Ok(2)]).unwrap(), vec![1, 2]);
    assert_eq!(collect_items::<u64>(Vec::new()).unwrap(), Vec::<u64>::new());
    assert!(matches!(
        collect_items::<u64>(vec![
            Ok(1),
            Err(DeserializeError::DeserializeFailed("first")),
            Err(DeserializeError::CheckBytesError)
        ]),
        Err(DeserializeError::DeserializeFailed("first"))
    ));
    assert!(matches!(
        <Vec<u64> as AsVecConverter>::from(vec![Err(DeserializeError::DuplicateSharedPointer), Ok(1)]),
        Err(DeserializeError::DuplicateSharedPointer)
    ));
}
