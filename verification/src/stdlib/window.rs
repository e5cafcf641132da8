use vstd::prelude::*;

use super::buffers::{blank_buffer, is_first_free, store_at, valid_size, BufferModel, Buffers};
use super::graphics::Graphics;
use crate::error::RuntimeError;

verus! {

/// The keys a program can ask about.
#[derive(Clone, Copy, Debug, PartialEq, Eq, Structural)]
pub enum Key {
    Escape,
}

/// The mouse buttons a program can ask about.
#[derive(Clone, Copy, Debug, PartialEq, Eq, Structural)]
pub enum MouseButton {
    Left,
    Right,
    Middle,
}

/// A request made of the window system, with what was handed to it and
/// what it answered.
pub enum HostRequest {
    /// Open a window with this title and size; whether it opened.
    Open(Seq<char>, i32, i32, bool),
    /// Show these pixels at this size.
    Present(Seq<u32>, i32, i32),
    /// Whether this key is down; the answer.
    KeyDown(Key, bool),
    /// Whether this mouse button is down; the answer.
    MouseDown(MouseButton, bool),
    /// Where the mouse is; the answer.
    MousePosition(Option<(i32, i32)>),
}

/// The first coordinate of a position, if there is one.
pub open spec fn x_of(p: Option<(i32, i32)>) -> Option<i32> {
    match p {
        Some((x, _)) => Some(x),
        None => None,
    }
}

/// The second coordinate of a position, if there is one.
pub open spec fn y_of(p: Option<(i32, i32)>) -> Option<i32> {
    match p {
        Some((_, y)) => Some(y),
        None => None,
    }
}

/// Whether `after` is `before` with one more request: a mouse position
/// query answered with `p`.
pub open spec fn asked_position(before: HostLog, after: HostLog, p: Option<(i32, i32)>) -> bool {
    after == before.push(HostRequest::MousePosition(p))
}

/// The record of the requests made of a window system, oldest first.
pub type HostLog = Seq<HostRequest>;

/// The window system a running program draws to and reads input from.
///
/// Each operation records, in `requests`, the request it was handed. Nothing
/// is assumed of what the operations return: every function of the library
/// that calls them is verified for any result.
pub trait Host {
    /// The requests made of this window system so far, oldest first. It is
    /// a record for the proofs only: no compiled code calls it, and a host
    /// outside the library need keep no such record while it runs.
    spec fn requests(&self) -> HostLog;

    /// Opens a window with the given title and size, replacing the one that
    /// is open, if any; `false` when no window could be opened.
    fn open_window(&mut self, title: &str, width: i32, height: i32) -> (opened: bool)
        ensures
            final(self).requests() == old(self).requests().push(HostRequest::Open(title@, width, height, opened)),
    ;

    /// Shows `pixels` (rows of `0x00RRGGBB`) in the open window and collects
    /// the input that arrived since the last call.
    fn present(&mut self, pixels: &Vec<u32>, width: i32, height: i32)
        ensures
            final(self).requests() == old(self).requests().push(HostRequest::Present(pixels@, width, height)),
    ;

    fn key_down(&mut self, key: Key) -> (down: bool)
        ensures
            final(self).requests() == old(self).requests().push(HostRequest::KeyDown(key, down)),
    ;

    fn mouse_down(&mut self, button: MouseButton) -> (down: bool)
        ensures
            final(self).requests() == old(self).requests().push(HostRequest::MouseDown(button, down)),
    ;

    /// The mouse position clamped to the window, when it is known.
    fn mouse_position(&mut self) -> (p: Option<(i32, i32)>)
        ensures
            final(self).requests() == old(self).requests().push(HostRequest::MousePosition(p)),
    ;
}

/// A window system without a screen: windows always open, nothing is shown,
/// no key or button is ever down and the mouse stays in the top-left corner.
/// It keeps the requests it was handed.
pub struct Headless {
    pub log: Ghost<Seq<HostRequest>>,
}

impl Headless {
    /// A window system that has been asked nothing yet.
    pub fn new() -> (h: Headless)
        ensures
            h.requests() == Seq::<HostRequest>::empty(),
    {
        Headless { log: Ghost(Seq::empty()) }
    }
}

impl Host for Headless {
    open spec fn requests(&self) -> HostLog {
        self.log@
    }

    fn open_window(&mut self, title: &str, width: i32, height: i32) -> (opened: bool)
        ensures
            opened,
    {
        proof {
            self.log@ = self.log@.push(HostRequest::Open(title@, width, height, true));
        }
        true
    }

    fn present(&mut self, pixels: &Vec<u32>, width: i32, height: i32) {
        proof {
            self.log@ = self.log@.push(HostRequest::Present(pixels@, width, height));
        }
    }

    fn key_down(&mut self, key: Key) -> (down: bool)
        ensures
            !down,
    {
        proof {
            self.log@ = self.log@.push(HostRequest::KeyDown(key, false));
        }
        false
    }

    fn mouse_down(&mut self, button: MouseButton) -> (down: bool)
        ensures
            !down,
    {
        proof {
            self.log@ = self.log@.push(HostRequest::MouseDown(button, false));
        }
        false
    }

    fn mouse_position(&mut self) -> (p: Option<(i32, i32)>)
        ensures
            p == Some((0i32, 0i32)),
    {
        proof {
            self.log@ = self.log@.push(HostRequest::MousePosition(Some((0i32, 0i32))));
        }
        Some((0, 0))
    }
}

/// The key a program's key code stands for: code 1 is Escape, and so is
/// every other code.
pub open spec fn key_of_code(code: i32) -> Key {
    Key::Escape
}

/// The mouse button a program's button index stands for, if any.
pub open spec fn button_of_index(index: i32) -> Option<MouseButton> {
    if index == 1 {
        Some(MouseButton::Left)
    } else if index == 2 {
        Some(MouseButton::Right)
    } else if index == 3 {
        Some(MouseButton::Middle)
    } else {
        None
    }
}

/// The program's window: its title, whether it is open, its size and the
/// handle of the buffer it shows.
pub struct Window {
    pub app_title: String,
    pub is_open: bool,
    pub width: i32,
    pub height: i32,
    pub back_buffer_handle: usize,
}

impl Window {
    /// No window, an empty title.
    pub fn new() -> (w: Window)
        ensures
            w.app_title@ == Seq::<char>::empty(),
            !w.is_open,
            w.width == 0,
            w.height == 0,
            w.back_buffer_handle == 0,
    {
        Window { app_title: String::new(), is_open: false, width: 0, height: 0, back_buffer_handle: 0 }
    }

    /// Sets the title that windows are opened with.
    pub fn app_title(&mut self, title: String)
        ensures
            final(self).app_title@ == title@,
            final(self).is_open == old(self).is_open,
            final(self).width == old(self).width,
            final(self).height == old(self).height,
            final(self).back_buffer_handle == old(self).back_buffer_handle,
    {
        self.app_title = title;
    }

    /// Opens a window of the given size: the buffer of the window that was
    /// open is freed; when the size is negative or too large for a buffer
    /// the call fails with `InvalidArgument` and asks nothing of the window
    /// system; else the window system is asked to open a window with the
    /// stored title and the size, and when it does, a new black buffer of
    /// the window's size is allocated and drawing is directed to it. Fails
    /// with `WindowFailed` when the window system cannot open the window.
    /// On failure the old buffer is freed already.
    pub fn graphics<H: Host>(
        &mut self,
        buffers: &mut Buffers,
        graphics: &mut Graphics,
        host: &mut H,
        width: i32,
        height: i32,
    ) -> (r: Result<(), RuntimeError>)
        requires
            old(self).is_open ==> old(self).back_buffer_handle < old(buffers)@.len(),
            old(buffers)@.len() < usize::MAX,
        ensures
            final(self).app_title@ == old(self).app_title@,
            !valid_size(width, height) ==> r is Err,
            final(host).requests() == if valid_size(width, height) {
                old(host).requests().push(HostRequest::Open(old(self).app_title@, width, height, r is Ok))
            } else {
                old(host).requests()
            },
            ({
                let freed = if old(self).is_open {
                    old(buffers)@.update(old(self).back_buffer_handle as int, None)
                } else {
                    old(buffers)@
                };
                match r {
                    Ok(()) => {
                        &&& valid_size(width, height)
                        &&& final(self).is_open
                        &&& final(self).width == width
                        &&& final(self).height == height
                        &&& is_first_free(freed, final(self).back_buffer_handle as int)
                        &&& final(buffers)@ == store_at(
                            freed,
                            final(self).back_buffer_handle as int,
                            blank_buffer(width, height),
                        )
                        &&& final(graphics).current_buffer == final(self).back_buffer_handle
                    },
                    Err(e) => {
                        &&& e == if valid_size(width, height) {
                            RuntimeError::WindowFailed
                        } else {
                            RuntimeError::InvalidArgument
                        }
                        &&& final(buffers)@ == freed
                        &&& *final(graphics) == *old(graphics)
                        &&& *final(self) == *old(self)
                    },
                }
            }),
    {
        if self.is_open {
            buffers.free(self.back_buffer_handle);
        }
        if !buffer_size_ok(width, height) {
            return Err(RuntimeError::InvalidArgument);
        }
        let opened = host.open_window(self.app_title.as_str(), width, height);
        if !opened {
            return Err(RuntimeError::WindowFailed);
        }
        self.is_open = true;
        self.width = width;
        self.height = height;
        self.back_buffer_handle = buffers.allocate(width, height);
        graphics.set_buffer(self.back_buffer_handle);
        Ok(())
    }

    /// Shows the back buffer in the open window, if a window is open.
    pub fn flip<H: Host>(&self, buffers: &Buffers, host: &mut H) -> (ok: bool)
        ensures
            ok == (!self.is_open || (self.back_buffer_handle < buffers@.len()
                && buffers@[self.back_buffer_handle as int] is Some)),
            final(host).requests() == if self.is_open && ok {
                old(host).requests().push(
                    HostRequest::Present(
                        buffers@[self.back_buffer_handle as int].unwrap().data,
                        self.width,
                        self.height,
                    ),
                )
            } else {
                old(host).requests()
            },
    {
        if self.is_open {
            if !buffers.is_live(self.back_buffer_handle) {
                return false;
            }
            let buffer = buffers.get(self.back_buffer_handle);
            host.present(&buffer.data, self.width, self.height);
        }
        true
    }

    /// Whether the key with the given code is down; `None` without a window.
    pub fn key_down<H: Host>(&self, host: &mut H, code: i32) -> (r: Option<bool>)
        ensures
            r is Some <==> self.is_open,
            final(host).requests() == if self.is_open {
                old(host).requests().push(HostRequest::KeyDown(key_of_code(code), r == Some(true)))
            } else {
                old(host).requests()
            },
    {
        if self.is_open {
            Some(host.key_down(key_of_code_exec(code)))
        } else {
            None
        }
    }

    /// Whether the mouse button with the given index is down; `None` without
    /// a window or for an unknown index.
    pub fn mouse_down<H: Host>(&self, host: &mut H, index: i32) -> (r: Option<bool>)
        ensures
            r is Some <==> (self.is_open && button_of_index(index) is Some),
            final(host).requests() == if self.is_open && button_of_index(index) is Some {
                old(host).requests().push(HostRequest::MouseDown(button_of_index(index)->0, r == Some(true)))
            } else {
                old(host).requests()
            },
    {
        if !self.is_open {
            return None;
        }
        match button_of_index_exec(index) {
            Some(button) => Some(host.mouse_down(button)),
            None => None,
        }
    }

    /// The mouse position; `None` without a window or when the window system
    /// does not know it.
    pub fn mouse_position<H: Host>(&self, host: &mut H) -> (r: Option<(i32, i32)>)
        ensures
            !self.is_open ==> r is None,
            final(host).requests() == if self.is_open {
                old(host).requests().push(HostRequest::MousePosition(r))
            } else {
                old(host).requests()
            },
    {
        if self.is_open {
            host.mouse_position()
        } else {
            None
        }
    }

    /// The mouse's x position; `None` without a window or when the window
    /// system does not know the position.
    pub fn mouse_x<H: Host>(&self, host: &mut H) -> (r: Option<i32>)
        ensures
            !self.is_open ==> r is None && final(host).requests() == old(host).requests(),
            self.is_open ==> exists|p: Option<(i32, i32)>|
                #[trigger] asked_position(old(host).requests(), final(host).requests(), p) && r == x_of(p),
    {
        let p = self.mouse_position(host);
        proof {
            if self.is_open {
                assert(asked_position(old(host).requests(), host.requests(), p));
            }
        }
        match p {
            Some((x, _)) => Some(x),
            None => None,
        }
    }

    /// The mouse's y position; `None` without a window or when the window
    /// system does not know the position.
    pub fn mouse_y<H: Host>(&self, host: &mut H) -> (r: Option<i32>)
        ensures
            !self.is_open ==> r is None && final(host).requests() == old(host).requests(),
            self.is_open ==> exists|p: Option<(i32, i32)>|
                #[trigger] asked_position(old(host).requests(), final(host).requests(), p) && r == y_of(p),
    {
        let p = self.mouse_position(host);
        proof {
            if self.is_open {
                assert(asked_position(old(host).requests(), host.requests(), p));
            }
        }
        match p {
            Some((_, y)) => Some(y),
            None => None,
        }
    }

    /// The handle of the buffer the window shows, as an `i32`.
    pub fn back_buffer(&self) -> (h: i32)
        ensures
            h == self.back_buffer_handle as i32,
    {
        self.back_buffer_handle as i32
    }
}

/// Whether a buffer of the given size can be allocated.
pub fn buffer_size_ok(width: i32, height: i32) -> (b: bool)
    ensures
        b == valid_size(width, height),
{
    assert(-0x4000_0000_0000_0000 <= width as i64 * height as i64 <= 0x4000_0000_0000_0000) by (nonlinear_arith)
        requires
            i32::MIN <= width <= i32::MAX,
            i32::MIN <= height <= i32::MAX,
    ;
    let n: i64 = width as i64 * height as i64;
    0 <= n && n <= i32::MAX as i64
}

/// The key a key code stands for.
pub fn key_of_code_exec(code: i32) -> (k: Key)
    ensures
        k == key_of_code(code),
{
    Key::Escape
}

/// The mouse button a button index stands for.
pub fn button_of_index_exec(index: i32) -> (b: Option<MouseButton>)
    ensures
        b == button_of_index(index),
{
    if index == 1 {
        Some(MouseButton::Left)
    } else if index == 2 {
        Some(MouseButton::Right)
    } else if index == 3 {
        Some(MouseButton::Middle)
    } else {
        None
    }
}

} // verus!
