//! Verified interface to SQLite.

pub mod archive;
pub mod batch;
pub mod bind;
pub mod bind_laws;
pub mod code;
pub mod connection;
pub mod derive;
pub mod derive_laws;
mod engine;
pub mod error;
pub mod fixed;
pub mod integer_laws;
pub mod from_column;
pub mod laws;
pub mod options;
pub mod path;
pub mod read_laws;
pub mod row;
pub mod sink;
pub mod state;
pub mod statement;
pub mod text;
pub mod tuple_laws;
pub mod ty;
pub mod value;
pub mod version;

pub use crate::bind::{Bind, BindValue};
pub use crate::code::Code;
pub use crate::connection::Connection;
pub use crate::error::{CapacityError, DatabaseNotFound, Error, NotThreadSafe};
pub use crate::fixed::{FixedBlob, FixedBytes, FixedText};
pub use crate::from_column::{FromColumn, FromUnsizedColumn};
pub use crate::options::{OpenOptions, Prepare};
pub use crate::row::Row;
pub use crate::sink::Sink;
pub use crate::state::State;
pub use crate::value::{Null, Real, Value, ValueType};
pub use crate::statement::{IntoIter, Iter, Statement};
pub use crate::version::{lib_version, lib_version_number};
