//! The map strategy: a finite collection of key/value pairs is archived as
//! the list of the archived forms of its entries.

use crate::archive::archive_list;
use crate::archive::list_archive;
use crate::archive::list_restored;
use crate::archive::restore_list;
use crate::deserialize::read_ok;
use crate::deserialize::CacheableDeserializer;
use crate::deserialize::Deserialize;
use crate::deserialize::DeserializeError;
use crate::model::models;
use crate::model::runs;
use crate::model::Model;
use crate::serialize::CacheableSerializer;
use crate::serialize::Serialize;
use crate::serialize::SerializeError;
use crate::with::as_tuple2::serialize_pair;
use crate::with::as_vec::archives_each;
use crate::with::as_vec::collected;
use crate::with::as_vec::deserialize_each;
use crate::with::as_vec::lemma_restores_each_archived;
use crate::with::as_vec::outcomes;
use crate::with::as_vec::restores_each;
use crate::with::archivable;
use crate::with::refused_at;
use crate::with::AsCacheable;
use crate::with::AsTuple2;
use crate::with::CacheableWith;
use crate::with::DeserializeWith;
use crate::with::SerializeWith;
use core::marker::PhantomData;
use vstd::prelude::*;

verus! {

/// Archives a map as the list of its entries, each key archived with `WK`
/// and each value with `WV`.
pub struct AsMap<WK = AsCacheable, WV = AsCacheable> {
    _key: WK,
    _value: WV,
}

/// A finite collection of key/value pairs that can be walked and built
/// entry by entry.
pub trait AsMapConverter: Model + Sized {
    type Key: Model;

    type Value: Model;

    /// Whether the collection keeps the promises that the contracts of its
    /// methods make. One whose hasher or keys Verus knows nothing of does
    /// not.
    spec fn lawful() -> bool;

    /// Whether `entries` is a listing of the map `value` in an order in
    /// which it may be walked.
    spec fn lists(
        value: Self::M,
        entries: Seq<(<Self::Key as Model>::M, <Self::Value as Model>::M)>,
    ) -> bool;

    /// The map built from `entries`, taken in their order.
    spec fn built(entries: Seq<(<Self::Key as Model>::M, <Self::Value as Model>::M)>) -> Self::M;

    /// The number of entries.
    fn len(&self) -> (n: usize)
        ensures
            forall|entries: Seq<(<Self::Key as Model>::M, <Self::Value as Model>::M)>|
                Self::lawful() && Self::lists(self.model(), entries) ==> #[trigger] entries.len()
                    == n,
    ;

    /// The entries, in an order in which the map may be walked.
    fn iter(&self) -> (entries: Vec<(&Self::Key, &Self::Value)>)
        ensures
            Self::lists(self.model(), models(entries@)),
    ;

    /// Builds the map from rebuilt entries. Fails as a whole with the first
    /// error among them.
    fn from(data: Vec<Result<(Self::Key, Self::Value), DeserializeError>>) -> (r: Result<
        Self,
        DeserializeError,
    >)
        ensures
            match collected(outcomes(data@)) {
                Ok(entries) => r matches Ok(value) && value.model() == Self::built(entries),
                Err(e) => r matches Err(f) && f == e,
            },
    ;

    /// A map is built again from any listing of it.
    proof fn lemma_built_from_listing(
        value: Self::M,
        entries: Seq<(<Self::Key as Model>::M, <Self::Value as Model>::M)>,
    )
        requires
            Self::lawful(),
            Self::lists(value, entries),
        ensures
            Self::built(entries) == value,
    ;
}

/// One entry of a map, with the strategies of its key and of its value.
pub struct Entry<K, V, WK, WV> {
    key: K,
    value: V,
    // with for key
    _key: PhantomData<WK>,
    // with for value
    _value: PhantomData<WV>,
}

impl<K: Model, V: Model, WK, WV> Model for Entry<K, V, WK, WV> {
    type M = (K::M, V::M);

    closed spec fn model(&self) -> (K::M, V::M) {
        (self.key.model(), self.value.model())
    }
}

impl<'a, K: Model, V: Model, WK: SerializeWith<K, C>, WV: SerializeWith<V, C>, C> Serialize<
    C,
> for Entry<&'a K, &'a V, WK, WV> {
    open spec fn archives(bytes: Seq<u8>, value: (K::M, V::M), ctx: C) -> bool {
        <AsTuple2<WK, WV> as SerializeWith<(K, V), C>>::archives(bytes, value, ctx)
    }

    open spec fn refuses(value: (K::M, V::M), ctx: C, e: SerializeError) -> bool {
        <AsTuple2<WK, WV> as SerializeWith<(K, V), C>>::refuses(value, ctx, e)
    }

    fn serialize(&self, serializer: &CacheableSerializer<'_, C>) -> (r: Result<
        Vec<u8>,
        SerializeError,
    >) {
        serialize_pair::<WK, WV, K, V, C>(self.key, self.value, serializer)
    }
}

impl<K: Model, V: Model, WK: DeserializeWith<K, C>, WV: DeserializeWith<V, C>, C> Deserialize<
    C,
> for Entry<K, V, WK, WV> {
    open spec fn restores(bytes: Seq<u8>, ctx: C) -> Result<(K::M, V::M), DeserializeError> {
        <AsTuple2<WK, WV> as DeserializeWith<(K, V), C>>::restores(bytes, ctx)
    }

    fn deserialize(bytes: &[u8], deserializer: &CacheableDeserializer<'_, C>) -> (r: Result<
        Self,
        DeserializeError,
    >) {
        match <AsTuple2<WK, WV> as DeserializeWith<(K, V), C>>::deserialize_with(
            bytes,
            deserializer,
        ) {
            Ok((key, value)) => Ok(Entry { key, value, _key: PhantomData, _value: PhantomData }),
            Err(e) => Err(e),
        }
    }
}

impl<
    T: AsMapConverter<Key = K, Value = V>,
    K: Model,
    V: Model,
    WK: SerializeWith<K, C>,
    WV: SerializeWith<V, C>,
    C,
> SerializeWith<T, C> for AsMap<WK, WV> {
    open spec fn archives(bytes: Seq<u8>, field: T::M, ctx: C) -> bool {
        exists|entries: Seq<(K::M, V::M)>, parts: Seq<Seq<u8>>|
            {
                &&& T::lists(field, entries)
                &&& #[trigger] archives_each::<AsTuple2<WK, WV>, (K, V), C>(parts, entries, ctx)
                &&& bytes == list_archive(parts)
                &&& list_restored(bytes) == read_ok(parts)
            }
    }

    /// The error is that of the first entry that is refused, in an order
    /// in which the map may be walked.
    open spec fn refuses(field: T::M, ctx: C, e: SerializeError) -> bool {
        exists|entries: Seq<(K::M, V::M)>, i: int|
            T::lists(field, entries) && #[trigger] refused_at::<AsTuple2<WK, WV>, (K, V), C>(
                entries,
                i,
                ctx,
                e,
            )
    }

    fn serialize_with(field: &T, serializer: &CacheableSerializer<'_, C>) -> (r: Result<
        Vec<u8>,
        SerializeError,
    >) {
        let entries = field.iter();
        let ghost listed = models(entries@);
        let mut parts: Vec<Vec<u8>> = Vec::new();
        let mut i: usize = 0;
        while i < entries.len()
            invariant
                i <= entries.len(),
                parts.len() == i,
                listed == models(entries@),
                T::lists(field.model(), listed),
                forall|j: int|
                    0 <= j < i ==> <AsTuple2<WK, WV> as SerializeWith<(K, V), C>>::archives(
                        #[trigger] runs(parts@)[j],
                        listed[j],
                        serializer.ctx(),
                    ),
            decreases entries.len() - i,
        {
            let entry: Entry<&K, &V, WK, WV> = Entry {
                key: entries[i].0,
                value: entries[i].1,
                _key: PhantomData,
                _value: PhantomData,
            };
            assert(entry.model() == listed[i as int]);
            match entry.serialize(serializer) {
                Ok(part) => {
                    let ghost before = runs(parts@);
                    parts.push(part);
                    assert forall|j: int| 0 <= j < i + 1 implies <AsTuple2<
                        WK,
                        WV,
                    > as SerializeWith<(K, V), C>>::archives(
                        #[trigger] runs(parts@)[j],
                        listed[j],
                        serializer.ctx(),
                    ) by {
                        if j < i {
                            assert(runs(parts@)[j] == before[j]);
                        }
                    }
                },
                Err(e) => {
                    proof {
                        assert forall|j: int| 0 <= j < i implies archivable::<
                            AsTuple2<WK, WV>,
                            (K, V),
                            C,
                        >(#[trigger] listed[j], serializer.ctx()) by {
                            assert(<AsTuple2<WK, WV> as SerializeWith<(K, V), C>>::archives(
                                runs(parts@)[j],
                                listed[j],
                                serializer.ctx(),
                            ));
                        }
                        assert(refused_at::<AsTuple2<WK, WV>, (K, V), C>(
                            listed,
                            i as int,
                            serializer.ctx(),
                            e,
                        ));
                    }
                    return Err(e);
                },
            }
            i += 1;
        }
        let r = archive_list(&parts);
        proof {
            if r is Ok {
                assert(archives_each::<AsTuple2<WK, WV>, (K, V), C>(
                    runs(parts@),
                    listed,
                    serializer.ctx(),
                ));
            }
        }
        r
    }
}

impl<
    T: AsMapConverter<Key = K, Value = V>,
    K: Model,
    V: Model,
    WK: DeserializeWith<K, C>,
    WV: DeserializeWith<V, C>,
    C,
> DeserializeWith<T, C> for AsMap<WK, WV> {
    open spec fn restores(bytes: Seq<u8>, ctx: C) -> Result<T::M, DeserializeError> {
        match list_restored(bytes) {
            Err(e) => Err(e),
            Ok(parts) => match restores_each::<AsTuple2<WK, WV>, (K, V), C>(parts, ctx) {
                Err(e) => Err(e),
                Ok(entries) => Ok(T::built(entries)),
            },
        }
    }

    fn deserialize_with(bytes: &[u8], deserializer: &CacheableDeserializer<'_, C>) -> (r: Result<
        T,
        DeserializeError,
    >) {
        let parts = match restore_list(bytes) {
            Ok(parts) => parts,
            Err(e) => { return Err(e); },
        };
        let data = deserialize_each::<AsTuple2<WK, WV>, (K, V), C>(&parts, deserializer);
        T::from(data)
    }
}

impl<
    T: AsMapConverter<Key = K, Value = V>,
    K: Model,
    V: Model,
    WK: CacheableWith<K, C>,
    WV: CacheableWith<V, C>,
    C,
> CacheableWith<T, C> for AsMap<WK, WV> {
    open spec fn faithful() -> bool {
        T::lawful() && WK::faithful() && WV::faithful()
    }

    proof fn lemma_round_trip(bytes: Seq<u8>, field: T::M, ctx: C) {
        let (entries, parts) = choose|entries: Seq<(K::M, V::M)>, parts: Seq<Seq<u8>>|
            {
                &&& T::lists(field, entries)
                &&& #[trigger] archives_each::<AsTuple2<WK, WV>, (K, V), C>(parts, entries, ctx)
                &&& bytes == list_archive(parts)
                &&& list_restored(bytes) == read_ok(parts)
            };
        lemma_restores_each_archived::<AsTuple2<WK, WV>, (K, V), C>(parts, entries, ctx);
        T::lemma_built_from_listing(field, entries);
    }
}

} // verus!
