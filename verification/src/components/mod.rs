//! The decoded program tree: types, literals, registers, instructions and
//! the four component kinds.

pub mod function;
pub mod instructions;
pub mod mapping;
pub mod records;
pub mod registers;
pub mod structs;
pub mod types;

pub use function::Function;
pub use mapping::Mapping;
pub use records::Record;
pub use structs::Struct;
