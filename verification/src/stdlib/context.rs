use vstd::prelude::*;

use super::buffers::{BufferModel, Buffers};
use super::graphics::Graphics;
use super::images::{Image, Images};
use super::rng::{Rng, BIT_MASK};
use super::window::Window;

verus! {

/// What the runtime library's state holds.
pub struct ContextModel {
    pub rng_state: u64,
    pub app_title: Seq<char>,
    pub window_open: bool,
    pub width: i32,
    pub height: i32,
    pub back_buffer_handle: usize,
    pub current_buffer: usize,
    pub buffers: Seq<Option<BufferModel>>,
    pub images: Seq<Option<Image>>,
}

/// The state of the runtime library while a program runs.
pub struct Context {
    pub rng: Rng,
    pub window: Window,
    pub graphics: Graphics,
    pub buffers: Buffers,
    pub images: Images,
}

impl View for Context {
    type V = ContextModel;

    open spec fn view(&self) -> ContextModel {
        ContextModel {
            rng_state: self.rng.state(),
            app_title: self.window.app_title@,
            window_open: self.window.is_open,
            width: self.window.width,
            height: self.window.height,
            back_buffer_handle: self.window.back_buffer_handle,
            current_buffer: self.graphics.current_buffer,
            buffers: self.buffers@,
            images: self.images@,
        }
    }
}

/// The state a program starts in: the generator as seeded with 0, no
/// window, drawing directed to buffer 0, no buffers and no images.
pub open spec fn initial_context() -> ContextModel {
    ContextModel {
        rng_state: BIT_MASK,
        app_title: Seq::empty(),
        window_open: false,
        width: 0,
        height: 0,
        back_buffer_handle: 0,
        current_buffer: 0,
        buffers: Seq::empty(),
        images: Seq::empty(),
    }
}

impl Context {
    /// The state a program starts in.
    pub fn new() -> (c: Context)
        ensures
            c@ == initial_context(),
    {
        Context {
            rng: Rng::new(),
            window: Window::new(),
            graphics: Graphics::new(),
            buffers: Buffers::new(),
            images: Images::new(),
        }
    }
}

} // verus!
