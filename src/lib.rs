//! A JSON document model with two conversion paths: building a value from a
//! pre-scanned token stream, and building one from a structured value that
//! describes itself shape by shape.
pub mod borrowed;
pub mod decode;
pub mod encode;
pub mod error;
pub mod text_form;
pub mod value;
