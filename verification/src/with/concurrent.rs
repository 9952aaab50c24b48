//! The concurrent hash map of another crate as a list of entries: a map
//! from texts to paths. The map is taken not to be written by another
//! thread while it is being archived.

use crate::archive::archive_list;
use crate::archive::list_archive;
use crate::archive::list_restored;
use crate::archive::restore_list;
use crate::deserialize::read_ok;
use crate::deserialize::CacheableDeserializer;
use crate::deserialize::DeserializeError;
use crate::model::models;
use crate::model::runs;
use crate::model::Model;
use crate::serialize::CacheableSerializer;
use crate::serialize::SerializeError;
use crate::table::distinct_keys;
use crate::table::lemma_listings_agree;
use crate::table::table_of;
use crate::text::path_text;
use crate::with::as_vec::archives_each;
use crate::with::as_vec::collect_items;
use crate::with::as_vec::deserialize_each;
use crate::with::as_vec::lemma_restores_each_archived;
use crate::with::as_vec::restores_each;
use crate::with::as_vec::serialize_each;
use crate::with::refused_at;
use crate::with::AsMap;
use crate::with::AsTuple2;
use crate::with::CacheableWith;
use crate::with::DeserializeWith;
use crate::with::SerializeWith;
use dashmap::DashMap;
use std::collections::hash_map::RandomState;
use std::path::PathBuf;
use vstd::prelude::*;

verus! {

#[verifier::external_type_specification]
#[verifier::external_body]
#[verifier::reject_recursive_types(K)]
#[verifier::reject_recursive_types(V)]
#[verifier::reject_recursive_types(S)]
pub struct ExDashMap<K, V, S>(DashMap<K, V, S>);

/// The model of a map from texts to paths: for each key, the exact text
/// of its path, where the path has one.
pub type PathsByText = Map<Seq<char>, Option<Seq<char>>>;

/// What a concurrent map from texts to paths holds: the path of each of
/// its keys.
pub uninterp spec fn dash_map_contents(map: DashMap<String, PathBuf, RandomState>) -> PathsByText;

/// The contents of a map without entries.
pub open spec fn no_entries() -> PathsByText {
    Map::empty()
}

/// `DashMap::default`: a map without entries.
#[verifier::external_body]
fn dash_map_new() -> (map: DashMap<String, PathBuf, RandomState>)
    ensures
        dash_map_contents(map) == no_entries(),
{
    DashMap::default()
}

/// `DashMap::insert`: the key has the value from now on.
#[verifier::external_body]
fn dash_map_insert(map: &mut DashMap<String, PathBuf, RandomState>, key: String, value: PathBuf)
    ensures
        dash_map_contents(*final(map)) == dash_map_contents(*old(map)).insert(
            key@,
            path_text(value),
        ),
{
    map.insert(key, value);
}

/// `DashMap::iter`, each entry copied out and gathered into a `Vec`: every
/// entry of the map, once, in the order in which the map is walked.
#[verifier::external_body]
fn dash_map_walk(map: &DashMap<String, PathBuf, RandomState>) -> (entries: Vec<(String, PathBuf)>)
    ensures
        distinct_keys(models(entries@)),
        table_of(models(entries@)) == dash_map_contents(*map),
{
    map.iter().map(|item| (item.key().clone(), item.value().clone())).collect()
}

impl Model for DashMap<String, PathBuf, RandomState> {
    type M = PathsByText;

    open spec fn model(&self) -> PathsByText {
        dash_map_contents(*self)
    }
}

/// The entries of a concurrent map, in the order in which it is walked.
pub fn dash_map_iter(map: &DashMap<String, PathBuf, RandomState>) -> (entries: Vec<
    (String, PathBuf),
>)
    ensures
        distinct_keys(models(entries@)),
        table_of(models(entries@)) == map.model(),
{
    dash_map_walk(map)
}

/// The number of entries of a concurrent map.
pub fn dash_map_len(map: &DashMap<String, PathBuf, RandomState>) -> (n: usize)
    ensures
        forall|entries: Seq<(Seq<char>, Option<Seq<char>>)>|
            distinct_keys(entries) && table_of(entries) == map.model() ==> #[trigger] entries.len()
                == n,
{
    let entries = dash_map_walk(map);
    proof {
        assert forall|other: Seq<(Seq<char>, Option<Seq<char>>)>|
            distinct_keys(other) && table_of(other) == map.model() implies #[trigger] other.len()
            == entries.len() by {
            lemma_listings_agree(models(entries@), other);
        }
    }
    entries.len()
}

/// The concurrent map that holds `entries`, written in their order: of two
/// entries with one key the later one stays.
pub fn dash_map_from(entries: Vec<(String, PathBuf)>) -> (map: DashMap<String, PathBuf, RandomState>)
    ensures
        map.model() == table_of(models(entries@)),
{
    let mut map = dash_map_new();
    let ghost listed = models(entries@);
    proof {
        assert(listed.take(0) =~= Seq::empty());
    }
    for entry in it: entries
        invariant
            listed == models(it.seq()),
            dash_map_contents(map) == table_of(listed.take(it.index() as int)),
    {
        proof {
            let next = listed.take(it.index() + 1);
            assert(next.drop_last() =~= listed.take(it.index() as int));
            assert(next.last() == entry.model());
        }
        let (key, value) = entry;
        dash_map_insert(&mut map, key, value);
    }
    proof {
        assert(listed.take(listed.len() as int) =~= listed);
    }
    map
}

impl<WK: SerializeWith<String, C>, WV: SerializeWith<PathBuf, C>, C> SerializeWith<
    DashMap<String, PathBuf, RandomState>,
    C,
> for AsMap<WK, WV> {
    open spec fn archives(bytes: Seq<u8>, field: PathsByText, ctx: C) -> bool {
        exists|entries: Seq<(Seq<char>, Option<Seq<char>>)>, parts: Seq<Seq<u8>>|
            {
                &&& distinct_keys(entries)
                &&& table_of(entries) == field
                &&& #[trigger] archives_each::<AsTuple2<WK, WV>, (String, PathBuf), C>(
                    parts,
                    entries,
                    ctx,
                )
                &&& bytes == list_archive(parts)
                &&& list_restored(bytes) == read_ok(parts)
            }
    }

    /// The error is that of the first entry that is refused, in an order
    /// in which the map may be walked.
    open spec fn refuses(field: PathsByText, ctx: C, e: SerializeError) -> bool {
        exists|entries: Seq<(Seq<char>, Option<Seq<char>>)>, i: int|
            {
                &&& distinct_keys(entries)
                &&& table_of(entries) == field
                &&& #[trigger] refused_at::<AsTuple2<WK, WV>, (String, PathBuf), C>(
                    entries,
                    i,
                    ctx,
                    e,
                )
            }
    }

    fn serialize_with(
        field: &DashMap<String, PathBuf, RandomState>,
        serializer: &CacheableSerializer<'_, C>,
    ) -> (r: Result<Vec<u8>, SerializeError>) {
        let entries = dash_map_iter(field);
        let mut refs: Vec<&(String, PathBuf)> = Vec::new();
        let mut i: usize = 0;
        while i < entries.len()
            invariant
                i <= entries.len(),
                refs.len() == i,
                forall|j: int| 0 <= j < i ==> *(#[trigger] refs@[j]) == entries@[j],
            decreases entries.len() - i,
        {
            refs.push(&entries[i]);
            i += 1;
        }
        assert(models(refs@) =~= models(entries@));
        let parts = match serialize_each::<AsTuple2<WK, WV>, (String, PathBuf), C>(
            &refs,
            serializer,
        ) {
            Ok(parts) => parts,
            Err(e) => {
                proof {
                    let i = choose|i: int| #[trigger]
                        refused_at::<AsTuple2<WK, WV>, (String, PathBuf), C>(
                            models(refs@),
                            i,
                            serializer.ctx(),
                            e,
                        );
                    assert(refused_at::<AsTuple2<WK, WV>, (String, PathBuf), C>(
                        models(entries@),
                        i,
                        serializer.ctx(),
                        e,
                    ));
                }
                return Err(e);
            },
        };
        let r = archive_list(&parts);
        proof {
            assert(archives_each::<AsTuple2<WK, WV>, (String, PathBuf), C>(
                runs(parts@),
                models(entries@),
                serializer.ctx(),
            ));
        }
        r
    }
}

impl<WK: DeserializeWith<String, C>, WV: DeserializeWith<PathBuf, C>, C> DeserializeWith<
    DashMap<String, PathBuf, RandomState>,
    C,
> for AsMap<WK, WV> {
    /// Of two entries with one key the later one stays.
    open spec fn restores(bytes: Seq<u8>, ctx: C) -> Result<PathsByText, DeserializeError> {
        match list_restored(bytes) {
            Err(e) => Err(e),
            Ok(parts) => match restores_each::<AsTuple2<WK, WV>, (String, PathBuf), C>(
                parts,
                ctx,
            ) {
                Err(e) => Err(e),
                Ok(entries) => Ok(table_of(entries)),
            },
        }
    }

    fn deserialize_with(bytes: &[u8], deserializer: &CacheableDeserializer<'_, C>) -> (r: Result<
        DashMap<String, PathBuf, RandomState>,
        DeserializeError,
    >) {
        let parts = match restore_list(bytes) {
            Ok(parts) => parts,
            Err(e) => { return Err(e); },
        };
        let data = deserialize_each::<AsTuple2<WK, WV>, (String, PathBuf), C>(
            &parts,
            deserializer,
        );
        let entries = match collect_items(data) {
            Ok(entries) => entries,
            Err(e) => { return Err(e); },
        };
        Ok(dash_map_from(entries))
    }
}

impl<WK: CacheableWith<String, C>, WV: CacheableWith<PathBuf, C>, C> CacheableWith<
    DashMap<String, PathBuf, RandomState>,
    C,
> for AsMap<WK, WV> {
    open spec fn faithful() -> bool {
        WK::faithful() && WV::faithful()
    }

    proof fn lemma_round_trip(bytes: Seq<u8>, field: PathsByText, ctx: C) {
        let (entries, parts) = choose|
            entries: Seq<(Seq<char>, Option<Seq<char>>)>,
            parts: Seq<Seq<u8>>,
        |
            {
                &&& distinct_keys(entries)
                &&& table_of(entries) == field
                &&& #[trigger] archives_each::<AsTuple2<WK, WV>, (String, PathBuf), C>(
                    parts,
                    entries,
                    ctx,
                )
                &&& bytes == list_archive(parts)
                &&& list_restored(bytes) == read_ok(parts)
            };
        lemma_restores_each_archived::<AsTuple2<WK, WV>, (String, PathBuf), C>(
            parts,
            entries,
            ctx,
        );
    }
}

} // verus!
