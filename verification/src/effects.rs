//! What the shell is asked to do.

use vstd::prelude::*;

use crate::geometry::{Scale, Transform};
use crate::ids::{OutputHandle, WindowId};
use crate::scrolling::{AdjustedOptions, ScrollingConfig};

verus! {

/// Something a window is told.
#[derive(Clone, Copy, Debug, PartialEq)]
pub enum WindowEvent {
    /// It is now shown on the output.
    OutputEnter { output: OutputHandle },
    /// It is no longer shown on the output.
    OutputLeave { output: OutputHandle },
    /// It had best draw itself for this scale and transform.
    PreferScaleTransform { scale: Scale, transform: Transform },
}

/// One thing for the shell to carry out.
#[derive(Clone, Copy, Debug, PartialEq)]
pub enum Effect {
    /// Tell a window something.
    Window { window: WindowId, event: WindowEvent },
    /// Adjust the base options for the scale, and use the result from now on.
    AdjustOptions { options: AdjustedOptions },
    /// Hand the scrolling layer its configuration.
    ConfigureScrolling { config: ScrollingConfig },
}

/// The effects that tell one window each of the events, in order.
pub open spec fn told(window: WindowId, events: Seq<WindowEvent>) -> Seq<Effect> {
    events.map_values(|event: WindowEvent| Effect::Window { window, event })
}

/// The effects that tell the windows, one after another, each of the events, in order.
pub open spec fn each_told(windows: Seq<WindowId>, events: Seq<WindowEvent>) -> Seq<Effect>
    decreases windows.len(),
{
    if windows.len() == 0 {
        Seq::empty()
    } else {
        each_told(windows.drop_last(), events) + told(windows.last(), events)
    }
}

/// Appends the effects that tell one window each of the events.
pub(crate) fn tell(effects: &mut Vec<Effect>, window: WindowId, events: &[WindowEvent])
    ensures
        final(effects)@ == old(effects)@ + told(window, events@),
{
    let mut i: usize = 0;
    while i < events.len()
        invariant
            i <= events.len(),
            effects@ == old(effects)@ + told(window, events@.take(i as int)),
        decreases events.len() - i,
    {
        effects.push(Effect::Window { window, event: events[i] });
        i += 1;
    }
    assert(events@.take(i as int) == events@);
}

/// Appends the effects that tell all the windows each of the events.
pub(crate) fn tell_each(effects: &mut Vec<Effect>, windows: &[WindowId], events: &[WindowEvent])
    ensures
        final(effects)@ == old(effects)@ + each_told(windows@, events@),
{
    let mut i: usize = 0;
    while i < windows.len()
        invariant
            i <= windows.len(),
            effects@ == old(effects)@ + each_told(windows@.take(i as int), events@),
        decreases windows.len() - i,
    {
        tell(effects, windows[i], events);
        assert(windows@.take(i + 1).drop_last() == windows@.take(i as int));
        i += 1;
    }
    assert(windows@.take(i as int) == windows@);
}

} // verus!
