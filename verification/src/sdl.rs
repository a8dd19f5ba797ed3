//! The handles and the initialisation token through which the program
//! talks to SDL, and the size rule for the windows it opens. The calls into
//! SDL itself are made by the program around this library.

#![allow(non_camel_case_types)]

use vstd::prelude::*;

verus! {

/// A marker with no public constructor: outside this module no value of it,
/// and so no value of the handle types below, can be built. The handle
/// types only ever stand behind pointers.
pub struct Foreign {
    _private: (),
}

/// An SDL window. The program only ever holds pointers to windows that SDL
/// made.
pub enum SDL_Window {
    Foreign(Foreign),
}

/// An SDL renderer, known only through pointers that SDL hands out.
pub enum SDL_Renderer {
    Foreign(Foreign),
}

/// An SDL texture, known only through pointers that SDL hands out.
pub enum SDL_Texture {
    Foreign(Foreign),
}

/// A stateless marker for an initialised SDL. Any code can make one, so it
/// proves nothing by itself; the program keeps it in a value with a private
/// field that it only builds after SDL reports a successful initialisation.
pub struct Sdl;

/// The largest width or height, in pixels, of a window that may be opened.
pub const MAX_WINDOW_SIDE: u32 = 40000;

impl Sdl {
    /// The size to ask SDL for when a `width` by `height` window is wanted:
    /// the same numbers as C integers, or `None` when either side is larger
    /// than [`MAX_WINDOW_SIDE`].
    pub fn window_size(width: u32, height: u32) -> (r: Option<(i32, i32)>)
        ensures
            r is Some <==> (width <= MAX_WINDOW_SIDE && height <= MAX_WINDOW_SIDE),
            r matches Some(size) ==> size.0 == width && size.1 == height,
    {
        if width > MAX_WINDOW_SIDE || height > MAX_WINDOW_SIDE {
            None
        } else {
            Some((width as i32, height as i32))
        }
    }
}

} // verus!
