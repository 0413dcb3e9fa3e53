use vstd::prelude::*;

use crate::signal::{int_arg, int_arg_of, pointer_arg, pointer_arg_of, SignalArg};

verus! {

/// The primary surface that the server created on a display channel.
#[derive(Clone, Copy, PartialEq, Eq, Structural, Debug)]
pub struct Display {
    /// Address of the surface's pixels, when the server handed them over.
    pub canvas_img: Option<usize>,
    pub width: i32,
    pub height: i32,
    pub stride: i32,
    pub format: i32,
}

/// A surface with no pixels and all its numbers zero.
pub open spec fn empty_display() -> Display {
    Display { canvas_img: None, width: 0, height: 0, stride: 0, format: 0 }
}

impl Default for Display {
    fn default() -> (d: Display)
        ensures
            d == empty_display(),
    {
        Display { canvas_img: None, width: 0, height: 0, stride: 0, format: 0 }
    }
}

pub open spec fn or_zero(v: Option<i32>) -> i32 {
    match v {
        Some(x) => x,
        None => 0,
    }
}

/// The surface that a `display-primary-create` emission describes. Its
/// arguments are: the channel, the format, the width, the height, the stride,
/// the shared memory id and the pixels. A number that is missing or of another
/// type reads as zero, and pixels that are missing or not a pointer as none.
pub open spec fn primary_display_of(args: Seq<SignalArg>) -> Display {
    Display {
        canvas_img: pointer_arg_of(args, 6),
        width: or_zero(int_arg_of(args, 2)),
        height: or_zero(int_arg_of(args, 3)),
        stride: or_zero(int_arg_of(args, 4)),
        format: or_zero(int_arg_of(args, 1)),
    }
}

/// Builds the surface from the arguments of `display-primary-create`.
pub fn primary_display(args: &Vec<SignalArg>) -> (d: Display)
    ensures
        d == primary_display_of(args@),
{
    let mut display = Display::default();
    if let Some(format) = int_arg(args, 1) {
        display.format = format;
    }
    if let Some(stride) = int_arg(args, 4) {
        display.stride = stride;
    }
    if let Some(width) = int_arg(args, 2) {
        display.width = width;
    }
    if let Some(height) = int_arg(args, 3) {
        display.height = height;
    }
    if let Some(img) = pointer_arg(args, 6) {
        display.canvas_img = Some(img);
    }
    display
}

/// The size of a surface as a window would take it: each side cast to `u32`.
pub open spec fn dimension_of(display: Option<Display>) -> (u32, u32) {
    match display {
        Some(d) => (d.width as u32, d.height as u32),
        None => (0, 0),
    }
}

/// A display channel: the handle of the channel object and the primary
/// surface that the server last created on it.
pub struct DisplayChannel<H> {
    inner: H,
    pub display: Option<Display>,
}

impl<H> DisplayChannel<H> {
    /// The handle of the channel object.
    pub closed spec fn handle(&self) -> H {
        self.inner
    }

    /// The surface that the channel currently reports.
    pub closed spec fn current(&self) -> Option<Display> {
        self.display
    }

    /// A channel around `inner` on which no surface exists yet.
    pub fn from(inner: H) -> (c: Self)
        ensures
            c.handle() == inner,
            c.current() is None,
    {
        DisplayChannel { inner, display: None }
    }

    /// The handle of the channel object.
    pub fn inner(&self) -> (h: &H)
        ensures
            *h == self.handle(),
    {
        &self.inner
    }

    /// Handles `display-primary-create`: the surface it describes becomes
    /// the channel's display.
    pub fn on_primary_create(&mut self, args: &Vec<SignalArg>)
        ensures
            final(self).current() == Some(primary_display_of(args@)),
            final(self).handle() == old(self).handle(),
    {
        self.display = Some(primary_display(args));
    }

    /// The current surface, if the server created one.
    pub fn display(&self) -> (d: Option<Display>)
        ensures
            d == self.current(),
    {
        self.display
    }

    /// Width and height of the current surface, or `(0, 0)` before there is one.
    pub fn dimention(&self) -> (size: (u32, u32))
        ensures
            size == dimension_of(self.current()),
    {
        match self.display {
            Some(d) => (d.width as u32, d.height as u32),
            None => (0, 0),
        }
    }
}

/// A created surface takes its format from argument 1, its width from 2,
/// its height from 3, its stride from 4 and its pixels from 6, each only
/// when that argument exists and has the right type; a number that is
/// missing reads as zero and missing pixels as none.
pub proof fn lemma_primary_display_arguments(args: Seq<SignalArg>)
    ensures
        ({
            let d = primary_display_of(args);
            &&& args.len() > 1 ==> (args[1] matches SignalArg::Int(v) ==> d.format == v)
            &&& !(args.len() > 1 && args[1] is Int) ==> d.format == 0
            &&& args.len() > 2 ==> (args[2] matches SignalArg::Int(v) ==> d.width == v)
            &&& !(args.len() > 2 && args[2] is Int) ==> d.width == 0
            &&& args.len() > 3 ==> (args[3] matches SignalArg::Int(v) ==> d.height == v)
            &&& !(args.len() > 3 && args[3] is Int) ==> d.height == 0
            &&& args.len() > 4 ==> (args[4] matches SignalArg::Int(v) ==> d.stride == v)
            &&& !(args.len() > 4 && args[4] is Int) ==> d.stride == 0
            &&& args.len() > 6 ==> (args[6] matches SignalArg::Pointer(p) ==> d.canvas_img == Some(p))
            &&& !(args.len() > 6 && args[6] is Pointer) ==> d.canvas_img is None
        }),
        dimension_of(None) == (0u32, 0u32),
{
}

/// The surface of a connection's display channel: none without a display
/// channel, or before the server created a surface on it.
pub open spec fn surface_in<H>(channel: Option<&DisplayChannel<H>>) -> Option<Display> {
    match channel {
        Some(c) => c.current(),
        None => None,
    }
}

/// The surface that a connection reports, given its display channel if it
/// took one up. A window waits until this is some surface.
pub fn connection_display<H>(channel: Option<&DisplayChannel<H>>) -> (d: Option<Display>)
    ensures
        d == surface_in(channel),
{
    match channel {
        Some(c) => c.display(),
        None => None,
    }
}

/// The dimension that a connection reports, given its display channel if it
/// took one up: `(0, 0)` without one.
pub fn connection_dimention<H>(channel: Option<&DisplayChannel<H>>) -> (size: (u32, u32))
    ensures
        size == dimension_of(surface_in(channel)),
{
    match channel {
        Some(c) => c.dimention(),
        None => (0, 0),
    }
}

} // verus!
