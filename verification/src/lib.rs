//! A line-oriented parser for Gemini hypertext documents, with a small codec
//! for Gemini response status lines.

pub mod address;
pub mod cursor;
pub mod decimal;
pub mod error;
pub mod fixture;
pub mod gemini_url;
pub mod grammar;
pub mod heading;
pub mod laws;
pub mod line;
pub mod link;
pub mod media;
pub mod model;
pub mod parser;
pub mod scanner;
pub mod status;
pub mod text;
pub mod uri;
