//! Course search for a university registration portal: page extraction,
//! request shapes, corpus assembly, the term-scoped search index and its
//! lifecycle, and the chat commands with what is said in return.

pub mod command;
pub mod corpus;
pub mod course;
pub mod detail;
pub mod dom;
pub mod index;
pub mod lifecycle;
pub mod portal;
pub mod reply;
pub mod scraper;
pub mod selector;
pub mod text;
