//! Decoder for a single compiled class file of the Java Virtual Machine.
//!
//! The decoder works on a byte string held in memory and yields a linked
//! model of the class: the constant pool with every index replaced by the
//! payload it names, the access flags, the class and its superclass, and
//! the tables of interfaces, fields, methods and attributes. The first
//! error ends the decode; no part of a class is handed out.
//!
//! Every function that consumes input is specified against a grammar,
//! written as specification functions over `Seq<u8>`: a successful decode
//! yields exactly the value that the grammar assigns to the input, and a
//! failed one exactly the error.
//!
//! - [`reader`] reads big-endian numbers, byte runs and texts.
//! - [`const_pool`], [`attributes`], [`components`] and [`class`] hold the
//!   model of a class.
//! - [`proxy`] holds the constant pool as it is read, and links it.
//! - [`grammar`] holds what all parts of the grammar share.
//! - [`deserialization`] holds the grammar and the decoder.
//! - [`theorems`] holds what is proved of every decode.

pub mod attributes;
pub mod class;
pub mod components;
pub mod const_pool;
pub mod deserialization;
pub mod error;
pub mod flags;
pub mod grammar;
pub mod proxy;
pub mod reader;
pub mod text;
pub mod theorems;

pub use crate::class::Class;
pub use crate::error::DeserializationError;
