//! Outputs as a workspace sees them.

use vstd::prelude::*;

use crate::geometry::{Rectangle, Scale, Size, Transform};
use crate::ids::OutputHandle;

verus! {

/// The name by which a workspace remembers the output it came from.
///
/// It names an output by make, model and serial or, where these are missing, by connector. A name
/// from the configuration may use the connector as well.
#[derive(Debug)]
pub struct OutputId(String);

/// What an output reports of itself at one moment.
#[derive(Debug)]
pub struct OutputState {
    pub handle: OutputHandle,
    /// Make, model and serial or, where these are missing, the connector.
    pub name: String,
    pub scale: Scale,
    pub transform: Transform,
    /// Size in logical pixels, after the transform.
    pub size: Size,
    /// The part of the output that panels and the like have not claimed.
    pub working_area: Rectangle,
}

/// The contents of an [`OutputState`].
pub ghost struct OutputReport {
    pub handle: OutputHandle,
    pub name: Seq<char>,
    pub scale: Scale,
    pub transform: Transform,
    pub size: Size,
    pub working_area: Rectangle,
}

impl View for OutputState {
    type V = OutputReport;

    open spec fn view(&self) -> OutputReport {
        OutputReport {
            handle: self.handle,
            name: self.name@,
            scale: self.scale,
            transform: self.transform,
            size: self.size,
            working_area: self.working_area,
        }
    }
}

impl OutputState {
    /// The report of the output, if there is one.
    pub open spec fn report(output: Option<OutputState>) -> Option<OutputReport> {
        match output {
            Some(state) => Some(state@),
            None => None,
        }
    }
}

impl OutputReport {
    /// Whether the numbers are fit for layout: a positive size and a positive finite scale.
    pub open spec fn usable(self) -> bool {
        self.size.positive() && self.scale.fractional.positive() && self.scale.fractional.finite()
    }
}

impl View for OutputId {
    type V = Seq<char>;

    closed spec fn view(&self) -> Seq<char> {
        self.0@
    }
}

impl Clone for OutputId {
    fn clone(&self) -> (r: Self)
        ensures
            r@ == self@,
    {
        Self(self.0.clone())
    }
}

impl OutputId {
    /// The name of the given output.
    pub fn new(output: &OutputState) -> (r: Self)
        ensures
            r@ == output.name@,
    {
        Self(output.name.clone())
    }

    /// A name as it stands in the configuration.
    pub fn from_name(name: String) -> (r: Self)
        ensures
            r@ == name@,
    {
        Self(name)
    }

    pub fn as_str(&self) -> (r: &str)
        ensures
            r@ == self@,
    {
        self.0.as_str()
    }
}

} // verus!
