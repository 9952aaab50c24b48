//! Helper types of the strategies: a tagged run of bytes, and a value paired
//! with the strategy that archives it.

pub mod type_wrapper;
pub mod with_wrapper;

pub use type_wrapper::ArchivedTypeWrapper;
pub use type_wrapper::TypeWrapper;
pub use type_wrapper::TypeWrapperRef;
pub use with_wrapper::ArchivedWithWrapper;
pub use with_wrapper::WithWrapper;
pub use with_wrapper::WithWrapperRef;
