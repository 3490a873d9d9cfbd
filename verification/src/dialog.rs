//! File dialogs.

use vstd::prelude::*;

verus! {

/// Whether a file dialog opens a file or saves one.
#[derive(Clone, Copy, Debug, PartialEq, Eq, Structural)]
pub enum FileDialogType {
    Open,
    Save,
}

/// What a file dialog offers.
#[derive(Clone, Copy, Debug, PartialEq, Eq, Structural)]
pub struct FileDialogOptions {
    pub show_hidden: bool,
    pub select_directories: bool,
    pub multi_selection: bool,
}

} // verus!
