//! Block-integrity core: hash-indexed blocks, transaction merkle roots and
//! their verification.

pub mod block;
pub mod digest;
pub mod endian;
pub mod indexed;
pub mod merkle;
pub mod proto;
pub mod raw;
pub mod whitelist;
