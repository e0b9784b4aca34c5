//! A bridge between a loosely typed caller and a relational store.
//!
//! The caller hands over a storage location, one statement and an ordered list
//! of values. The bridge binds the values by position, decides from the
//! statement's leading keyword whether it reads or writes, and packs what the
//! store answers into one envelope. The bridge itself never touches the store:
//! it tells its driver what to ask of the store next, and takes the answer.
//!
//! Floating-point values travel as the 64 bits of their IEEE 754 encoding.

pub mod value;
pub mod row;
pub mod statement;
pub mod error;
pub mod bridge;
