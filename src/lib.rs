pub mod api;
pub mod dialect;
pub mod ident;
pub mod import;
pub mod model;
pub mod path;
pub mod separator;
pub mod sql;
pub mod state;
pub mod text;
