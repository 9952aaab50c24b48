//! What the build cache keeps of one build: the nodes of the module graph
//! and the bookkeeping around them.

pub mod meta;
pub mod node;

pub use meta::Meta;
pub use meta::MetaRef;
pub use node::Node;
pub use node::NodeRef;
