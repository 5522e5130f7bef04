//! An input-method engine: keyboard scan codes and a modifier state are
//! turned into committed text, suggestions or pass-through signals, driven
//! by declarative layouts, tables and modes.

pub mod engine;
pub mod hangul;
pub mod laws;
pub mod layout;
pub mod layout_method;
pub mod method;
pub mod mode;
pub mod response;
pub mod table;
pub mod text;
pub mod watch;

pub use response::{BentenError, BentenResponse, Function};
