//! Editing of MPEG-4 metadata: what the user asked for is resolved into a
//! plan once, and the plan is then applied to the tag of each target file.

pub mod batch;
pub mod clear;
pub mod field;
pub mod image;
pub mod list;
pub mod media;
pub mod mutate;
pub mod number;
pub mod plan;
pub mod resolve;
pub mod tag;
pub mod text;
pub mod track;
