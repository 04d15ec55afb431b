//! Per-frame input state.

use vstd::prelude::*;

verus! {

/// Input state gathered during one frame.
#[derive(Clone, Copy, Debug)]
pub struct ImmediateEvents {
    pub key_escape: bool,
    pub key_up: bool,
    pub key_down: bool,
    pub key_left: bool,
    pub key_right: bool,
    pub key_space: bool,
    pub key_a: bool,
    pub key_z: bool,
    pub quit: bool,
    pub resize: Option<(u32, u32)>,
    pub left_mouse_click: Option<(i32, i32)>,
    pub mouse_wheel: i32,
}

impl ImmediateEvents {
    /// A frame with no input: no key held, no click, resize or wheel motion.
    pub fn new() -> (r: ImmediateEvents)
        ensures
            !r.key_escape && !r.key_up && !r.key_down && !r.key_left && !r.key_right,
            !r.key_space && !r.key_a && !r.key_z && !r.quit,
            r.resize is None,
            r.left_mouse_click is None,
            r.mouse_wheel == 0,
    {
        ImmediateEvents {
            key_escape: false,
            key_up: false,
            key_down: false,
            key_left: false,
            key_right: false,
            key_space: false,
            key_a: false,
            key_z: false,
            quit: false,
            resize: None,
            left_mouse_click: None,
            mouse_wheel: 0,
        }
    }
}

/// An image handed to the glyph cache as its own texture.
pub fn texture_from_image<T>(img: &T) -> (r: &T)
    ensures
        r == img,
{
    img
}

} // verus!
