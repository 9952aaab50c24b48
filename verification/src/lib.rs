//! Archival serialization for a persistent build cache: values are turned
//! into flat byte buffers and read back, with per-field strategies for types
//! that have no archived form of their own.

pub mod archive;
pub mod cacheable;
pub mod containers;
pub mod dependency;
pub mod deserialize;
pub mod dynamic;
pub mod laws;
pub mod loader;
pub mod model;
pub mod occasion;
pub mod primitive;
pub mod serialize;
pub mod snapshot;
pub mod table;
pub mod text;
pub mod utils;
pub mod with;

pub use cacheable::Cacheable;
pub use deserialize::from_bytes;
pub use deserialize::CacheableDeserializer;
pub use deserialize::Deserialize;
pub use deserialize::DeserializeError;
pub use deserialize::SharedValues;
pub use model::Model;
pub use serialize::to_bytes;
pub use serialize::CacheableSerializer;
pub use serialize::Serialize;
pub use serialize::SerializeError;
