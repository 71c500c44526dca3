//! Decisions of the deserializer's entry point and of the extension types
//! `Fragment` and `LoadsIterator`, apart from the Python object protocol:
//! which documents are answered without the parser, where the next
//! document of a multi-document buffer starts, how far reading has got, and
//! which constructor calls are accepted.

pub mod args;
pub mod deserialize;
pub mod loads_iter;
pub mod whitespace;
