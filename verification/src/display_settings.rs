//! Display settings of the application.
use vstd::prelude::*;

verus! {

/// The color theme of the user interface.
#[derive(Clone, Copy, Debug, PartialEq, Eq, Structural)]
pub enum ColorTheme {
    Dark,
    Light,
}

} // verus!
