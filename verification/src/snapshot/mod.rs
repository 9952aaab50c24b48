//! The records by which a later build tells which files have changed: for
//! each file that a build has read, how its state at that build is found
//! again. The library decides what is recorded; reading the file system and
//! the storage is the caller's part.

use crate::cacheable::Cacheable;
use crate::deserialize::read_ok;
use crate::deserialize::CacheableDeserializer;
use crate::deserialize::Deserialize;
use crate::deserialize::DeserializeError;
use crate::model::Model;
use crate::serialize::to_bytes;
use crate::serialize::CacheableSerializer;
use crate::serialize::Serialize;
use crate::serialize::SerializeError;
use crate::with::as_tuple2::serialize_pair;
use crate::with::AsCacheable;
use crate::with::AsTuple2;
use crate::with::CacheableWith;
use crate::with::DeserializeWith;
use crate::with::SerializeWith;
use vstd::prelude::*;
use vstd::string::StringExecFns;

verus! {

/// The scope under which the records are stored.
pub const SCOPE: &'static str = "snapshot";

/// How the state of a file at a build is found again.
#[derive(Debug, Clone, PartialEq, Eq)]
pub enum Strategy {
    /// By the version of the library that the file belongs to.
    LibVersion(String),
    /// By the time of the build, in seconds.
    CompileTime(u64),
}

/// The model of a strategy.
pub enum StrategyModel {
    LibVersion(Seq<char>),
    CompileTime(u64),
}

/// What a build has found out about one file.
pub struct FileState {
    /// The path of the file, which is the key of its record.
    pub path: String,
    /// Whether the file is there.
    pub exists: bool,
    /// Whether the path is one that never changes.
    pub immutable: bool,
    /// Whether the path is managed by a package manager.
    pub managed: bool,
    /// The version of the library that the file belongs to, where it is
    /// known.
    pub lib_version: Option<String>,
}

/// The model of what a build has found out about one file.
pub struct FileModel {
    pub path: Seq<char>,
    pub exists: bool,
    pub immutable: bool,
    pub managed: bool,
    pub lib_version: Option<Seq<char>>,
}

/// One write to the storage: under `key`, the bytes `value`.
pub struct Record {
    pub key: Vec<u8>,
    pub value: Vec<u8>,
}

impl Model for Strategy {
    type M = StrategyModel;

    open spec fn model(&self) -> StrategyModel {
        match self {
            Strategy::LibVersion(version) => StrategyModel::LibVersion(version@),
            Strategy::CompileTime(time) => StrategyModel::CompileTime(*time),
        }
    }
}

impl Model for FileState {
    type M = FileModel;

    open spec fn model(&self) -> FileModel {
        FileModel {
            path: self.path@,
            exists: self.exists,
            immutable: self.immutable,
            managed: self.managed,
            lib_version: self.lib_version.model(),
        }
    }
}

/// The two archived fields of a strategy: the version, which is empty for
/// a time, and the time, which is zero for a version, behind the mark that
/// tells the two apart.
pub open spec fn strategy_fields(strategy: StrategyModel) -> (bool, (Seq<char>, u64)) {
    match strategy {
        StrategyModel::LibVersion(version) => (true, (version, 0)),
        StrategyModel::CompileTime(time) => (false, (Seq::empty(), time)),
    }
}

/// The strategy that archived fields stand for.
pub open spec fn strategy_of(fields: (bool, (Seq<char>, u64))) -> StrategyModel {
    if fields.0 {
        StrategyModel::LibVersion(fields.1.0)
    } else {
        StrategyModel::CompileTime(fields.1.1)
    }
}

/// The strategy of the archived fields of a strategy.
pub type StrategyFields = AsTuple2<AsCacheable, AsTuple2<AsCacheable, AsCacheable>>;

impl<C> Serialize<C> for Strategy {
    open spec fn archives(bytes: Seq<u8>, value: StrategyModel, ctx: C) -> bool {
        <StrategyFields as SerializeWith<(bool, (String, u64)), C>>::archives(
            bytes,
            strategy_fields(value),
            ctx,
        )
    }

    open spec fn refuses(value: StrategyModel, ctx: C, e: SerializeError) -> bool {
        false
    }

    fn serialize(&self, serializer: &CacheableSerializer<'_, C>) -> (r: Result<
        Vec<u8>,
        SerializeError,
    >) {
        let fields = match self {
            Strategy::LibVersion(version) => (true, (version.clone(), 0u64)),
            Strategy::CompileTime(time) => (false, (String::new(), *time)),
        };
        serialize_pair::<
            AsCacheable,
            AsTuple2<AsCacheable, AsCacheable>,
            bool,
            (String, u64),
            C,
        >(&fields.0, &fields.1, serializer)
    }
}

impl<C> Deserialize<C> for Strategy {
    open spec fn restores(bytes: Seq<u8>, ctx: C) -> Result<StrategyModel, DeserializeError> {
        match <StrategyFields as DeserializeWith<(bool, (String, u64)), C>>::restores(bytes, ctx) {
            Ok(fields) => Ok(strategy_of(fields)),
            Err(e) => Err(e),
        }
    }

    fn deserialize(bytes: &[u8], deserializer: &CacheableDeserializer<'_, C>) -> (r: Result<
        Self,
        DeserializeError,
    >) {
        match <StrategyFields as DeserializeWith<(bool, (String, u64)), C>>::deserialize_with(
            bytes,
            deserializer,
        ) {
            Ok((is_version, (version, time))) => if is_version {
                Ok(Strategy::LibVersion(version))
            } else {
                Ok(Strategy::CompileTime(time))
            },
            Err(e) => Err(e),
        }
    }
}

impl<C> Cacheable<C> for Strategy {
    open spec fn faithful() -> bool {
        true
    }

    proof fn lemma_round_trip(bytes: Seq<u8>, value: StrategyModel, ctx: C) {
        <StrategyFields as CacheableWith<(bool, (String, u64)), C>>::lemma_round_trip(
            bytes,
            strategy_fields(value),
            ctx,
        );
    }
}

/// The strategies that are recorded for a file, in the order in which they
/// are written: none for a file that is not there or that never changes;
/// else the library version, where the path is managed and the version is
/// known, and then the time of the build.
pub open spec fn recorded_for(file: FileModel, compiler_time: u64) -> Seq<StrategyModel> {
    if !file.exists || file.immutable {
        Seq::empty()
    } else if file.managed && file.lib_version is Some {
        seq![
            StrategyModel::LibVersion(file.lib_version->Some_0),
            StrategyModel::CompileTime(compiler_time),
        ]
    } else {
        seq![StrategyModel::CompileTime(compiler_time)]
    }
}

/// The strategies that are recorded for each of `files`, in their order,
/// each with the path of its file.
pub open spec fn recorded(files: Seq<FileModel>, compiler_time: u64) -> Seq<
    (Seq<char>, StrategyModel),
>
    decreases files.len(),
{
    if files.len() == 0 {
        Seq::empty()
    } else {
        recorded(files.drop_last(), compiler_time) + Seq::new(
            recorded_for(files.last(), compiler_time).len(),
            |i: int| (files.last().path, recorded_for(files.last(), compiler_time)[i]),
        )
    }
}

/// Whether `records` are the writes that record `strategies`: one write for
/// each, under the bytes of the path, with an archived form of the strategy.
pub open spec fn records_of(records: Seq<Record>, strategies: Seq<(Seq<char>, StrategyModel)>) -> bool {
    &&& records.len() == strategies.len()
    &&& forall|i: int|
        0 <= i < records.len() ==> (#[trigger] records[i]).key@ == vstd::utf8::encode_utf8(
            strategies[i].0,
        ) && <Strategy as Serialize<()>>::archives(records[i].value@, strategies[i].1, ())
}

/// The change detector of the build cache.
#[derive(Debug)]
pub struct Snapshot {
    scope: String,
}

impl Snapshot {
    /// The scope under which the records are stored.
    pub closed spec fn scope_name(&self) -> Seq<char> {
        self.scope@
    }

    pub fn new() -> (snapshot: Self)
        ensures
            snapshot.scope_name() == SCOPE@,
    {
        Self { scope: String::from_str(SCOPE) }
    }

    pub fn scope(&self) -> (scope: &str)
        ensures
            scope@ == self.scope_name(),
    {
        self.scope.as_str()
    }

    /// The writes that record the state of `files` at a build of the time
    /// `compiler_time`. A file that is not there, or whose path never
    /// changes, is not recorded.
    pub fn add(&self, files: &Vec<FileState>, compiler_time: u64) -> (r: Result<
        Vec<Record>,
        SerializeError,
    >)
        ensures
            r matches Ok(records) ==> records_of(records@, recorded(files.model(), compiler_time)),
            r is Ok,
    {
        let mut records: Vec<Record> = Vec::new();
        let mut i: usize = 0;
        let ghost all = files.model();
        proof {
            assert(all.take(0) =~= Seq::empty());
        }
        while i < files.len()
            invariant
                i <= files.len(),
                all == files.model(),
                records_of(records@, recorded(all.take(i as int), compiler_time)),
            decreases files.len() - i,
        {
            let file = &files[i];
            let ghost before = records@;
            let ghost known = recorded(all.take(i as int), compiler_time);
            proof {
                assert(all.take(i + 1).drop_last() =~= all.take(i as int));
                assert(all.take(i + 1).last() == file.model());
            }
            if file.exists && !file.immutable {
                if file.managed {
                    if let Some(version) = &file.lib_version {
                        let value = match to_bytes(&Strategy::LibVersion(version.clone()), &()) {
                            Ok(value) => value,
                            Err(e) => { return Err(e); },
                        };
                        records.push(Record { key: file.path.as_str().as_bytes_vec(), value });
                    }
                }
                let value = match to_bytes(&Strategy::CompileTime(compiler_time), &()) {
                    Ok(value) => value,
                    Err(e) => { return Err(e); },
                };
                records.push(Record { key: file.path.as_str().as_bytes_vec(), value });
            }
            proof {
                let now = recorded(all.take(i + 1), compiler_time);
                let added = recorded_for(file.model(), compiler_time);
                assert(now.len() == known.len() + added.len());
                assert forall|j: int| 0 <= j < records@.len() implies (#[trigger] records@[j]).key@
                    == vstd::utf8::encode_utf8(now[j].0) && <Strategy as Serialize<()>>::archives(
                    records@[j].value@,
                    now[j].1,
                    (),
                ) by {
                    if j < before.len() {
                        assert(records@[j] == before[j]);
                        assert(now[j] == known[j]);
                    } else {
                        assert(now[j] == (file.model().path, added[j - known.len()]));
                    }
                }
            }
            i += 1;
        }
        proof {
            assert(all.take(i as int) =~= all);
        }
        Ok(records)
    }

    /// The keys of the records of `files`, which are to be removed: the
    /// bytes of each path, in the order of the files.
    pub fn remove(&self, files: &Vec<String>) -> (keys: Vec<Vec<u8>>)
        ensures
            keys@.len() == files@.len(),
            forall|i: int|
                0 <= i < keys@.len() ==> (#[trigger] keys@[i])@ == vstd::utf8::encode_utf8(
                    files@[i]@,
                ),
    {
        let mut keys: Vec<Vec<u8>> = Vec::new();
        let mut i: usize = 0;
        while i < files.len()
            invariant
                i <= files.len(),
                keys@.len() == i,
                forall|j: int|
                    0 <= j < i ==> (#[trigger] keys@[j])@ == vstd::utf8::encode_utf8(files@[j]@),
            decreases files.len() - i,
        {
            keys.push(files[i].as_str().as_bytes_vec());
            i += 1;
        }
        keys
    }
}

/// What a later build finds of a recorded file.
#[derive(Debug, Clone, Copy, PartialEq, Eq)]
pub enum ValidateResult {
    /// The file is as it was.
    NoChanged,
    /// The file has changed.
    Modified,
    /// The file is gone.
    Deleted,
}

/// What is found of a file that was recorded with `strategy`: `lib_version`
/// is the version of the library that the file belongs to now, where one
/// is found, and `modified_time` the time at which the file was last
/// written, in seconds, where the file is there. A file recorded by version
/// is unchanged at the same version; a file recorded by time is modified
/// if it was written after that time. What is not found is gone.
pub open spec fn validated(
    strategy: StrategyModel,
    lib_version: Option<Seq<char>>,
    modified_time: Option<u64>,
) -> ValidateResult {
    match strategy {
        StrategyModel::LibVersion(version) => match lib_version {
            Some(current) => if current == version {
                ValidateResult::NoChanged
            } else {
                ValidateResult::Modified
            },
            None => ValidateResult::Deleted,
        },
        StrategyModel::CompileTime(compile_time) => match modified_time {
            Some(modified) => if modified > compile_time {
                ValidateResult::Modified
            } else {
                ValidateResult::NoChanged
            },
            None => ValidateResult::Deleted,
        },
    }
}

impl Strategy {
    /// Compares the recorded state of a file with its state now.
    pub fn validate(&self, lib_version: &Option<String>, modified_time: Option<u64>) -> (r:
        ValidateResult)
        ensures
            r == validated(self.model(), lib_version.model(), modified_time),
    {
        match self {
            Strategy::LibVersion(version) => match lib_version {
                Some(current) => if *current == *version {
                    ValidateResult::NoChanged
                } else {
                    ValidateResult::Modified
                },
                None => ValidateResult::Deleted,
            },
            Strategy::CompileTime(compile_time) => match modified_time {
                Some(modified) => if modified > *compile_time {
                    ValidateResult::Modified
                } else {
                    ValidateResult::NoChanged
                },
                None => ValidateResult::Deleted,
            },
        }
    }
}

/// Sorts the recorded paths by what was found of them: the modified ones
/// and the deleted ones, each in the order of `found`. Unchanged paths are
/// in neither list.
pub fn calc_modified_files(found: Vec<(String, ValidateResult)>) -> (r: (Vec<String>, Vec<String>))
    ensures
        r.0@ == paths_found(found@, ValidateResult::Modified),
        r.1@ == paths_found(found@, ValidateResult::Deleted),
{
    let mut modified: Vec<String> = Vec::new();
    let mut deleted: Vec<String> = Vec::new();
    let ghost all = found@;
    proof {
        assert(all.take(0) =~= Seq::empty());
    }
    for entry in it: found
        invariant
            all == it.seq(),
            modified@ == paths_found(all.take(it.index() as int), ValidateResult::Modified),
            deleted@ == paths_found(all.take(it.index() as int), ValidateResult::Deleted),
    {
        proof {
            assert(all.take(it.index() + 1).drop_last() =~= all.take(it.index() as int));
        }
        let (path, result) = entry;
        match result {
            ValidateResult::Modified => {
                modified.push(path);
            },
            ValidateResult::Deleted => {
                deleted.push(path);
            },
            ValidateResult::NoChanged => {},
        }
    }
    proof {
        assert(all.take(all.len() as int) =~= all);
    }
    (modified, deleted)
}

/// The paths of `found` of which `result` was found, in their order.
pub open spec fn paths_found(found: Seq<(String, ValidateResult)>, result: ValidateResult) -> Seq<
    String,
>
    decreases found.len(),
{
    if found.len() == 0 {
        Seq::empty()
    } else if found.last().1 == result {
        paths_found(found.drop_last(), result).push(found.last().0)
    } else {
        paths_found(found.drop_last(), result)
    }
}

/// A recorded strategy is read back as it was recorded.
pub proof fn lemma_record_round_trip(record: Record, strategy: StrategyModel)
    requires
        <Strategy as Serialize<()>>::archives(record.value@, strategy, ()),
    ensures
        <Strategy as Deserialize<()>>::restores(record.value@, ()) == read_ok(strategy),
{
    <Strategy as Cacheable<()>>::lemma_round_trip(record.value@, strategy, ());
}

} // verus!
