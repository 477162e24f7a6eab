pub mod classify;
pub mod convert;
pub mod dcm;
pub mod dictionary;
pub mod dicomweb;
pub mod meta;
pub mod plugin;
pub mod reader;
pub mod row;
pub mod tag;
pub mod text;
pub mod value;
pub mod vr;
pub mod wire;
