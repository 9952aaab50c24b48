//! The sequence strategy: a finite collection is archived as the list of
//! the archived forms of its items.

use crate::archive::archive_list;
use crate::archive::list_archive;
use crate::archive::list_restored;
use crate::archive::restore_list;
use crate::deserialize::read_ok;
use crate::deserialize::CacheableDeserializer;
use crate::deserialize::DeserializeError;
use crate::model::models;
use crate::model::runs;
use crate::model::Model;
use crate::serialize::CacheableSerializer;
use crate::serialize::SerializeError;
use crate::with::archivable;
use crate::with::refused_at;
use crate::with::AsCacheable;
use crate::with::CacheableWith;
use crate::with::DeserializeWith;
use crate::with::SerializeWith;
use vstd::prelude::*;
use vstd::std_specs::iter::IteratorSpec;

verus! {

/// Archives a collection as the list of its items, each archived with `T`.
pub struct AsVec<T = AsCacheable> {
    _inner: T,
}

/// Takes up to `count` items from `walk`, in the order in which it gives
/// them. Where the walk obeys the laws of iterators and has `count` items
/// to give, these are all of them.
pub(crate) fn gather<I: Iterator>(walk: I, count: usize) -> (items: Vec<I::Item>)
    ensures
        walk.obeys_prophetic_iter_laws() && walk.remaining().len() == count ==> items@
            == walk.remaining(),
{
    let mut walk = walk;
    let ghost all = walk.remaining();
    let ghost lawful = walk.obeys_prophetic_iter_laws() && all.len() == count;
    let mut left: usize = count;
    let mut items: Vec<I::Item> = Vec::new();
    while left > 0
        invariant
            lawful ==> {
                &&& walk.obeys_prophetic_iter_laws()
                &&& items@ + walk.remaining() == all
                &&& walk.remaining().len() == left
            },
        decreases left,
    {
        let ghost before = walk.remaining();
        let ghost gathered = items@;
        left = left - 1;
        match walk.next() {
            Some(item) => {
                items.push(item);
            },
            None => {
                left = 0;
            },
        }
        assert(lawful ==> items@ + walk.remaining() =~= gathered + before) by {
            if lawful {
                assert(before =~= seq![before[0]] + before.drop_first());
            }
        }
    }
    assert(lawful ==> items@ =~= all);
    items
}

/// What has been rebuilt of a list of items: the model of each rebuilt
/// item, or the error at its place.
pub open spec fn outcomes<O: Model>(data: Seq<Result<O, DeserializeError>>) -> Seq<
    Result<O::M, DeserializeError>,
> {
    Seq::new(
        data.len(),
        |i: int|
            match data[i] {
                Ok(item) => Ok(item.model()),
                Err(e) => Err(e),
            },
    )
}

/// The items of a list of outcomes if all are there, else the first error.
pub open spec fn collected<M>(data: Seq<Result<M, DeserializeError>>) -> Result<
    Seq<M>,
    DeserializeError,
>
    decreases data.len(),
{
    if data.len() == 0 {
        Ok(Seq::empty())
    } else {
        match collected(data.drop_last()) {
            Err(e) => Err(e),
            Ok(items) => match data.last() {
                Err(e) => Err(e),
                Ok(item) => Ok(items.push(item)),
            },
        }
    }
}

/// A finite collection that can be walked and built item by item.
pub trait AsVecConverter: Model + Sized {
    type Item: Model;

    /// Whether `items` is a listing of the collection `value` in an order in
    /// which it may be walked.
    spec fn lists(value: Self::M, items: Seq<<Self::Item as Model>::M>) -> bool;

    /// The collection built from `items`, taken in their order.
    spec fn built(items: Seq<<Self::Item as Model>::M>) -> Self::M;

    /// Whether the collection keeps the promises that the contracts of its
    /// methods make. One whose hasher or items Verus knows nothing of does
    /// not.
    spec fn lawful() -> bool;

    /// The number of items.
    fn len(&self) -> (n: usize)
        ensures
            forall|items: Seq<<Self::Item as Model>::M>|
                Self::lawful() && Self::lists(self.model(), items) ==> #[trigger] items.len() == n,
    ;

    /// The items, in an order in which the collection may be walked.
    fn iter(&self) -> (items: Vec<&Self::Item>)
        ensures
            Self::lists(self.model(), models(items@)),
    ;

    /// Builds the collection from rebuilt items. Fails as a whole with the
    /// first error among them.
    fn from(data: Vec<Result<Self::Item, DeserializeError>>) -> (r: Result<Self, DeserializeError>)
        ensures
            match collected(outcomes(data@)) {
                Ok(items) => r matches Ok(value) && value.model() == Self::built(items),
                Err(e) => r matches Err(f) && f == e,
            },
    ;

    /// A collection is built again from any listing of it.
    proof fn lemma_built_from_listing(value: Self::M, items: Seq<<Self::Item as Model>::M>)
        requires
            Self::lawful(),
            Self::lists(value, items),
        ensures
            Self::built(items) == value,
    ;
}

/// Whether each of `parts` is an archived form of the item at its place.
pub open spec fn archives_each<A: SerializeWith<O, C>, O: Model, C>(
    parts: Seq<Seq<u8>>,
    items: Seq<O::M>,
    ctx: C,
) -> bool {
    &&& parts.len() == items.len()
    &&& forall|i: int| 0 <= i < parts.len() ==> A::archives(#[trigger] parts[i], items[i], ctx)
}

/// What reading each of `parts` gives: the items if all are read, else the
/// first error.
pub open spec fn restores_each<A: DeserializeWith<O, C>, O: Model, C>(
    parts: Seq<Seq<u8>>,
    ctx: C,
) -> Result<Seq<O::M>, DeserializeError>
    decreases parts.len(),
{
    if parts.len() == 0 {
        Ok(Seq::empty())
    } else {
        match restores_each::<A, O, C>(parts.drop_last(), ctx) {
            Err(e) => Err(e),
            Ok(items) => match A::restores(parts.last(), ctx) {
                Err(e) => Err(e),
                Ok(item) => Ok(items.push(item)),
            },
        }
    }
}

/// Parts that archive items one by one restore to those items.
pub proof fn lemma_restores_each_archived<A: CacheableWith<O, C>, O: Model, C>(
    parts: Seq<Seq<u8>>,
    items: Seq<O::M>,
    ctx: C,
)
    requires
        A::faithful(),
        archives_each::<A, O, C>(parts, items, ctx),
    ensures
        restores_each::<A, O, C>(parts, ctx) == read_ok(items),
    decreases parts.len(),
{
    if parts.len() == 0 {
        assert(items =~= Seq::empty());
    } else {
        let head = parts.drop_last();
        let init = items.drop_last();
        assert forall|i: int| 0 <= i < head.len() implies A::archives(
            #[trigger] head[i],
            init[i],
            ctx,
        ) by {
            assert(head[i] == parts[i]);
        }
        lemma_restores_each_archived::<A, O, C>(head, init, ctx);
        assert(A::archives(parts[parts.len() - 1], items[parts.len() - 1], ctx));
        A::lemma_round_trip(parts.last(), items.last(), ctx);
        assert(init.push(items.last()) =~= items);
    }
}

/// Archives each of `items` with `A`, in their order. Stops at the first
/// item that cannot be archived.
pub fn serialize_each<A: SerializeWith<O, C>, O: Model, C>(
    items: &Vec<&O>,
    serializer: &CacheableSerializer<'_, C>,
) -> (r: Result<Vec<Vec<u8>>, SerializeError>)
    ensures
        r matches Ok(parts) ==> archives_each::<A, O, C>(
            runs(parts@),
            models(items@),
            serializer.ctx(),
        ),
        r matches Err(e) ==> exists|i: int| #[trigger]
            refused_at::<A, O, C>(models(items@), i, serializer.ctx(), e),
        items@.len() == 0 ==> r is Ok,
{
    let mut parts: Vec<Vec<u8>> = Vec::new();
    let mut i: usize = 0;
    while i < items.len()
        invariant
            i <= items.len(),
            parts.len() == i,
            forall|j: int|
                0 <= j < i ==> A::archives(
                    #[trigger] runs(parts@)[j],
                    models(items@)[j],
                    serializer.ctx(),
                ),
        decreases items.len() - i,
    {
        match A::serialize_with(items[i], serializer) {
            Ok(part) => {
                let ghost before = runs(parts@);
                parts.push(part);
                assert forall|j: int| 0 <= j < i + 1 implies A::archives(
                    #[trigger] runs(parts@)[j],
                    models(items@)[j],
                    serializer.ctx(),
                ) by {
                    if j < i {
                        assert(runs(parts@)[j] == before[j]);
                    }
                }
            },
            Err(e) => {
                proof {
                    assert forall|j: int| 0 <= j < i implies archivable::<A, O, C>(
                        #[trigger] models(items@)[j],
                        serializer.ctx(),
                    ) by {
                        assert(A::archives(runs(parts@)[j], models(items@)[j], serializer.ctx()));
                    }
                    assert(refused_at::<A, O, C>(models(items@), i as int, serializer.ctx(), e));
                }
                return Err(e);
            },
        }
        i += 1;
    }
    Ok(parts)
}

/// Reads each of `parts` with `A`, in their order. Stops behind the first
/// part that cannot be read, whose error is then the last outcome.
pub fn deserialize_each<A: DeserializeWith<O, C>, O: Model, C>(
    parts: &Vec<Vec<u8>>,
    deserializer: &CacheableDeserializer<'_, C>,
) -> (data: Vec<Result<O, DeserializeError>>)
    ensures
        collected(outcomes(data@)) == restores_each::<A, O, C>(runs(parts@), deserializer.ctx()),
{
    let mut data: Vec<Result<O, DeserializeError>> = Vec::new();
    let mut i: usize = 0;
    let ghost all = runs(parts@);
    let ghost ctx = deserializer.ctx();
    proof {
        assert(all.take(0) =~= Seq::empty());
        assert(outcomes(data@) =~= Seq::empty());
    }
    while i < parts.len()
        invariant
            i <= parts.len(),
            all == runs(parts@),
            ctx == deserializer.ctx(),
            data.len() == i,
            collected(outcomes(data@)) is Ok,
            collected(outcomes(data@)) == restores_each::<A, O, C>(all.take(i as int), ctx),
        decreases parts.len() - i,
    {
        let outcome = A::deserialize_with(parts[i].as_slice(), deserializer);
        let ghost before = outcomes(data@);
        let failed = outcome.is_err();
        data.push(outcome);
        proof {
            let now = outcomes(data@);
            assert(now.drop_last() =~= before);
            assert(all.take(i + 1).drop_last() =~= all.take(i as int));
            assert(all.take(i + 1).last() == parts@[i as int]@);
        }
        if failed {
            proof {
                lemma_restores_each_stays_failed::<A, O, C>(all, i + 1, ctx);
            }
            return data;
        }
        i += 1;
    }
    proof {
        assert(all.take(i as int) =~= all);
    }
    data
}

/// Once reading a prefix of the parts has failed, reading all of them fails
/// with the same error.
pub proof fn lemma_restores_each_stays_failed<A: DeserializeWith<O, C>, O: Model, C>(
    parts: Seq<Seq<u8>>,
    n: int,
    ctx: C,
)
    requires
        0 <= n <= parts.len(),
        restores_each::<A, O, C>(parts.take(n), ctx) is Err,
    ensures
        restores_each::<A, O, C>(parts, ctx) == restores_each::<A, O, C>(parts.take(n), ctx),
    decreases parts.len() - n,
{
    if n == parts.len() {
        assert(parts.take(n) =~= parts);
    } else {
        assert(parts.take(n + 1).drop_last() =~= parts.take(n));
        lemma_restores_each_stays_failed::<A, O, C>(parts, n + 1, ctx);
    }
}

impl<T: AsVecConverter<Item = O>, O: Model, A: SerializeWith<O, C>, C> SerializeWith<T, C> for AsVec<
    A,
> {
    open spec fn archives(bytes: Seq<u8>, field: T::M, ctx: C) -> bool {
        exists|items: Seq<O::M>, parts: Seq<Seq<u8>>|
            {
                &&& T::lists(field, items)
                &&& #[trigger] archives_each::<A, O, C>(parts, items, ctx)
                &&& bytes == list_archive(parts)
                &&& list_restored(bytes) == read_ok(parts)
            }
    }

    /// The error is that of the first item that is refused, in an order
    /// in which the collection may be walked.
    open spec fn refuses(field: T::M, ctx: C, e: SerializeError) -> bool {
        exists|items: Seq<O::M>, i: int|
            T::lists(field, items) && #[trigger] refused_at::<A, O, C>(items, i, ctx, e)
    }

    fn serialize_with(field: &T, serializer: &CacheableSerializer<'_, C>) -> (r: Result<
        Vec<u8>,
        SerializeError,
    >) {
        let items = field.iter();
        let parts = match serialize_each::<A, O, C>(&items, serializer) {
            Ok(parts) => parts,
            Err(e) => {
                proof {
                    let i = choose|i: int| #[trigger]
                        refused_at::<A, O, C>(models(items@), i, serializer.ctx(), e);
                    assert(T::lists(field.model(), models(items@)) && refused_at::<A, O, C>(
                        models(items@),
                        i,
                        serializer.ctx(),
                        e,
                    ));
                }
                return Err(e);
            },
        };
        let r = archive_list(&parts);
        proof {
            if r is Ok {
                assert(archives_each::<A, O, C>(runs(parts@), models(items@), serializer.ctx()));
            }
        }
        r
    }
}

impl<T: AsVecConverter<Item = O>, O: Model, A: DeserializeWith<O, C>, C> DeserializeWith<
    T,
    C,
> for AsVec<A> {
    open spec fn restores(bytes: Seq<u8>, ctx: C) -> Result<T::M, DeserializeError> {
        match list_restored(bytes) {
            Err(e) => Err(e),
            Ok(parts) => match restores_each::<A, O, C>(parts, ctx) {
                Err(e) => Err(e),
                Ok(items) => Ok(T::built(items)),
            },
        }
    }

    fn deserialize_with(bytes: &[u8], deserializer: &CacheableDeserializer<'_, C>) -> (r: Result<
        T,
        DeserializeError,
    >) {
        let parts = match restore_list(bytes) {
            Ok(parts) => parts,
            Err(e) => { return Err(e); },
        };
        let data = deserialize_each::<A, O, C>(&parts, deserializer);
        T::from(data)
    }
}

impl<T: AsVecConverter<Item = O>, O: Model, A: CacheableWith<O, C>, C> CacheableWith<T, C> for AsVec<
    A,
> {
    open spec fn faithful() -> bool {
        T::lawful() && A::faithful()
    }

    proof fn lemma_round_trip(bytes: Seq<u8>, field: T::M, ctx: C) {
        let (items, parts) = choose|items: Seq<O::M>, parts: Seq<Seq<u8>>|
            {
                &&& T::lists(field, items)
                &&& #[trigger] archives_each::<A, O, C>(parts, items, ctx)
                &&& bytes == list_archive(parts)
                &&& list_restored(bytes) == read_ok(parts)
            };
        lemma_restores_each_archived::<A, O, C>(parts, items, ctx);
        T::lemma_built_from_listing(field, items);
    }
}

/// Gathers rebuilt items: all of them, or the first error among them.
pub fn collect_items<O: Model>(data: Vec<Result<O, DeserializeError>>) -> (r: Result<
    Vec<O>,
    DeserializeError,
>)
    ensures
        match collected(outcomes(data@)) {
            Ok(items) => r matches Ok(gathered) && models(gathered@) == items,
            Err(e) => r matches Err(f) && f == e,
        },
{
    let mut gathered: Vec<O> = Vec::new();
    let ghost all = outcomes(data@);
    proof {
        assert(all.take(0) =~= Seq::empty());
        assert(models(gathered@) =~= Seq::empty());
    }
    for outcome in it: data
        invariant
            all == outcomes(it.seq()),
            collected(all.take(it.index() as int)) == read_ok(models(gathered@)),
    {
        proof {
            assert(all.take(it.index() + 1).drop_last() =~= all.take(it.index() as int));
        }
        match outcome {
            Ok(item) => {
                let ghost before = models(gathered@);
                gathered.push(item);
                assert(models(gathered@) =~= before.push(item.model()));
            },
            Err(e) => {
                proof {
                    lemma_collected_stays_failed(all, it.index() + 1);
                }
                return Err(e);
            },
        }
    }
    proof {
        assert(all.take(all.len() as int) =~= all);
    }
    Ok(gathered)
}

/// Once a prefix of the outcomes holds an error, the first error of the
/// whole list is that of the prefix.
pub proof fn lemma_collected_stays_failed<M>(data: Seq<Result<M, DeserializeError>>, n: int)
    requires
        0 <= n <= data.len(),
        collected(data.take(n)) is Err,
    ensures
        collected(data) == collected(data.take(n)),
    decreases data.len() - n,
{
    if n == data.len() {
        assert(data.take(n) =~= data);
    } else {
        assert(data.take(n + 1).drop_last() =~= data.take(n));
        lemma_collected_stays_failed(data, n + 1);
    }
}

impl<T: Model> AsVecConverter for Vec<T> {
    type Item = T;

    open spec fn lists(value: Seq<T::M>, items: Seq<T::M>) -> bool {
        items == value
    }

    open spec fn built(items: Seq<T::M>) -> Seq<T::M> {
        items
    }

    open spec fn lawful() -> bool {
        true
    }

    fn len(&self) -> (n: usize) {
        self.len()
    }

    fn iter(&self) -> (items: Vec<&T>) {
        let mut items: Vec<&T> = Vec::new();
        let mut i: usize = 0;
        while i < self.len()
            invariant
                i <= self.len(),
                items.len() == i,
                forall|j: int| 0 <= j < i ==> *(#[trigger] items@[j]) == self@[j],
            decreases self.len() - i,
        {
            items.push(&self[i]);
            i += 1;
        }
        assert(models(items@) =~= self.model());
        items
    }

    fn from(data: Vec<Result<T, DeserializeError>>) -> (r: Result<Self, DeserializeError>) {
        collect_items(data)
    }

    proof fn lemma_built_from_listing(value: Seq<T::M>, items: Seq<T::M>) {
    }
}

} // verus!
