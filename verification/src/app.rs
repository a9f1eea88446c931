//! The modes of the live view.

use vstd::prelude::*;

verus! {

/// The input mode of the live view.
#[derive(Debug, Copy, Clone, PartialEq, Eq, Hash)]
pub enum Mode {
    Home,
}

impl Default for Mode {
    fn default() -> (mode: Mode)
        ensures
            mode == Mode::Home,
    {
        Mode::Home
    }
}

} // verus!
