//! A minimal data-access layer over SQLite: parameterised `SELECT` statements
//! built from a small fluent description, and result rows decoded into
//! dynamically typed records.
//!
//! - `query`: the description of a query and its serialisation to SQL text
//!   and parameters.
//! - `statement`: binding the parameters to the driver's statement.
//! - `decode`: turning fetched rows into records, cell by cell.
//! - `value`: the dynamic values and the records that hold them.
//! - `error`: the kinds of failure.
//! - `driver`: the calls into `sqlx`, with what each is taken to do.
//!
//! Opening the pool and running a statement are left to the caller: the
//! library prepares what is run and decodes what comes back.

pub mod decode;
pub mod driver;
pub mod error;
pub mod query;
pub mod statement;
pub mod value;

pub use error::DatabaseError;
pub use query::QueryBuilder;
pub use value::DynamicRecord;
pub use value::DynamicValue;
