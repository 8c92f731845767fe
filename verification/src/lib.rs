//! The verified core of a small SQL editor built on the Scintilla control:
//! colour parsing, the Scintilla messages the editor sends, the decisions it
//! takes on replies and notifications, and the SQL parsing entry point.

use vstd::prelude::*;

pub mod color;
pub mod text;
pub mod sci;
pub mod scintilla;
pub mod layout;
pub mod sql_formatter;

