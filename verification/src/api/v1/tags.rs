//! Builders for tags endpoints.

mod delete;
mod get;
mod rename;

pub use self::delete::Delete;
pub use self::delete::DeleteBuilder;
pub use self::get::Get;
pub use self::get::GetBuilder;
pub use self::rename::Rename;
pub use self::rename::RenameBuilder;
