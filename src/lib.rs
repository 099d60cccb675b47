//! Projects the object graph and metadata of a version-control repository
//! onto relational tables and loads, per query, the tables it refers to.
pub mod cli;
pub mod encoding;
pub mod engine;
pub mod error;
pub mod providers;
pub mod query;
pub mod records;
pub mod rows;
pub mod schema;
pub mod source;
pub mod text;
pub mod timefmt;

pub use cli::{Args, Command, OutputFormat};
pub use engine::SqlEngine;
pub use error::VcsqlError;
pub use schema::{ColumnInfo, TableInfo, get_table_info, get_tables_by_category, tables};
pub use source::RepoSource;
