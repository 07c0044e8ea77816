//! What the scrolling layer is configured with.

use vstd::prelude::*;

use crate::binary64::Binary64;
use crate::geometry::{Rectangle, Size};
use crate::ids::{ClockHandle, OptionsHandle};

verus! {

/// Layout options with logical sizes adjusted for a scale.
#[derive(Clone, Copy, Debug, PartialEq)]
pub struct AdjustedOptions {
    pub base: OptionsHandle,
    pub scale: Binary64,
}

/// Everything the scrolling layer gets from its workspace.
#[derive(Clone, Copy, Debug, PartialEq)]
pub struct ScrollingConfig {
    pub view_size: Size,
    pub working_area: Rectangle,
    pub scale: Binary64,
    pub clock: ClockHandle,
    pub options: AdjustedOptions,
}

} // verus!
