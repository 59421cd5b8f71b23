//! The action keywords recognised in headers.

use vstd::prelude::*;

verus! {

pub const ACTION_FILE: &'static str = "File";

pub const ACTION_DELETED_FILE: &'static str = "Deleted File";

pub const ACTION_MOVED_FILE: &'static str = "Moved File";

pub const ACTION_APPEND_FILE: &'static str = "Append File";

pub const ACTION_PREPEND_FILE: &'static str = "Prepend File";

pub const ACTION_CREATE: &'static str = "Create";

pub const ACTION_UPDATE: &'static str = "Update";

pub const INTERNAL_COMMENT_ACTION_PREFIX: &'static str = "// File:";

} // verus!
