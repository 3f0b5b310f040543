//! A client library for a source-control hosting API whose centre is a
//! verified table renderer: records become rows of cells, identifier cells
//! become terminal hyperlinks, and the grid is laid out by `tabled`.

pub mod link;
pub mod record;
pub mod table;
pub mod api;
pub mod config;
pub mod gitlab;
pub mod cli;
pub mod lemmas;
