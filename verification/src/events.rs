//! Decisions that the window event loops ask for.
//!
//! The event loops themselves live outside the library: they own the window,
//! the GPU surface and the clock. Each time an event arrives it is translated
//! into a [`LoopEvent`], handed to one of the deciders here, and the returned
//! [`LoopAction`] is performed. Everything the demo decides — when to exit,
//! when to reconfigure the surface, when to draw — is stated and proved here.
//!
//! There are two loops with different policies: the windowed one, whose state
//! is a [`ViewState`], guards resizes and exits on a close request or a key
//! other than space; the canvas-backed one, whose state is a [`CubeConfig`],
//! accepts every resize and never exits on its own.

use vstd::prelude::*;

verus! {

/// A window event, as the decision logic reads it. The surrounding loop
/// translates the windowing library's events into these plain values; a
/// scale-factor change arrives as a [`WindowEvent::Resized`] with the already
/// rescaled size.
#[derive(Clone, Copy, Debug, PartialEq, Eq, Structural)]
pub enum WindowEvent {
    /// The user asked to close the window.
    CloseRequested,
    /// The space key went down or up; `released` says which.
    SpaceKey { released: bool },
    /// Any other key went down or up.
    KeyOther,
    /// The cursor moved over the window.
    CursorMoved,
    /// The window took a new size, in pixels.
    Resized { width: u32, height: u32 },
    /// The window asked to be drawn again.
    RedrawRequested,
    /// Any other window event.
    Other,
}

/// One turn of the event loop.
#[derive(Clone, Copy, Debug, PartialEq, Eq, Structural)]
pub enum LoopEvent {
    /// The loop ran out of pending events.
    AboutToWait,
    /// An event addressed to the window.
    Window(WindowEvent),
    /// A new batch of events begins.
    NewEvents,
    /// Anything else the loop reports.
    Other,
}

/// What the event loop is told to do next.
#[derive(Clone, Copy, Debug, PartialEq, Eq, Structural)]
pub enum LoopAction {
    /// Leave the event loop.
    Exit,
    /// Reconfigure the GPU surface to the state's size, then ask for a redraw.
    Reconfigure,
    /// Ask the window to be drawn again.
    RequestRedraw,
    /// Draw a frame now.
    Render,
    /// Do nothing.
    Nothing,
}

/// The background color the next frame clears to.
#[derive(Clone, Copy, Debug, PartialEq, Eq, Structural)]
pub enum ClearColor {
    Black,
    Blue,
}

/// What a failed attempt to acquire the next surface texture reported.
#[derive(Clone, Copy, Debug, PartialEq, Eq, Structural)]
pub enum SurfaceErrorKind {
    /// The surface was lost and must be rebuilt.
    Lost,
    /// The surface no longer matches the window and must be reconfigured.
    Outdated,
    /// The GPU is out of memory.
    OutOfMemory,
    /// Acquiring the texture timed out.
    Timeout,
    /// Any other error.
    Other,
}

/// How the render loop answers a surface error.
#[derive(Clone, Copy, Debug, PartialEq, Eq, Structural)]
pub enum ErrorAction {
    /// Reconfigure the surface at the current size and try again.
    RetryResize,
    /// Leave the event loop.
    Exit,
    /// Report the error and carry on.
    Report,
}

/// Labels for the animation parameters of the spinning cube.
#[derive(Clone, Copy, Debug, PartialEq, Eq, Structural)]
pub enum AnimationAttrs {
    Speed,
    Angle,
    Direction,
}

/// The windowed loop's state, as far as its decisions read it: the window
/// size, the surface configuration's size, and what the input handler toggles.
#[derive(Clone, Copy, Debug, PartialEq, Eq, Structural)]
pub struct ViewState {
    /// The window's size, in pixels.
    pub width: u32,
    pub height: u32,
    /// The size the GPU surface is configured to.
    pub config_width: u32,
    pub config_height: u32,
    /// The color the next frame clears to.
    pub clear_color: ClearColor,
    /// Whether the per-face colors are shown.
    pub use_color: bool,
}

impl ViewState {
    /// The state at startup: surface configured to the window's size, black
    /// background, colors shown.
    pub fn new(width: u32, height: u32) -> (s: ViewState)
        ensures
            s == (ViewState {
                width,
                height,
                config_width: width,
                config_height: height,
                clear_color: ClearColor::Black,
                use_color: true,
            }),
    {
        ViewState {
            width,
            height,
            config_width: width,
            config_height: height,
            clear_color: ClearColor::Black,
            use_color: true,
        }
    }

    /// The input handler: a cursor move turns the background blue, the space
    /// key toggles the face colors with its release state, and nothing else is
    /// handled. Returns whether the event was handled here; an unhandled event
    /// falls through to the loop's dispatch.
    pub fn input(&mut self, event: &WindowEvent) -> (handled: bool)
        ensures
            handled == (*event is CursorMoved || *event is SpaceKey),
            *final(self) == (match *event {
                WindowEvent::CursorMoved => (ViewState {
                    clear_color: ClearColor::Blue,
                    ..*old(self)
                }),
                WindowEvent::SpaceKey { released } => (ViewState {
                    use_color: released,
                    ..*old(self)
                }),
                _ => *old(self),
            }),
    {
        match event {
            WindowEvent::CursorMoved => {
                self.clear_color = ClearColor::Blue;
                true
            },
            WindowEvent::SpaceKey { released } => {
                self.use_color = *released;
                true
            },
            _ => false,
        }
    }

    /// A resize takes effect only when both sides are positive; it then sets
    /// the window size and the surface configuration together. Returns whether
    /// it took effect, in which case the surface must be reconfigured.
    pub fn resize(&mut self, width: u32, height: u32) -> (applied: bool)
        ensures
            applied == (width > 0 && height > 0),
            *final(self) == (if width > 0 && height > 0 {
                (ViewState {
                    width,
                    height,
                    config_width: width,
                    config_height: height,
                    ..*old(self)
                })
            } else {
                *old(self)
            }),
    {
        if width > 0 && height > 0 {
            self.width = width;
            self.height = height;
            self.config_width = width;
            self.config_height = height;
            true
        } else {
            false
        }
    }

    /// One turn of the windowed event loop. Window events go to the input
    /// handler first; an unhandled close request or non-space key ends the
    /// loop, an applied resize asks for the surface to be reconfigured, and a
    /// redraw request draws a frame. Running out of events asks the window to
    /// be drawn again, which keeps the cube spinning.
    pub fn handle_event(&mut self, event: &LoopEvent) -> (action: LoopAction)
        ensures
            action == (match *event {
                LoopEvent::AboutToWait => LoopAction::RequestRedraw,
                LoopEvent::Window(we) => (match we {
                    WindowEvent::CloseRequested => LoopAction::Exit,
                    WindowEvent::KeyOther => LoopAction::Exit,
                    WindowEvent::Resized { width, height } => (if width > 0 && height > 0 {
                        LoopAction::Reconfigure
                    } else {
                        LoopAction::Nothing
                    }),
                    WindowEvent::RedrawRequested => LoopAction::Render,
                    _ => LoopAction::Nothing,
                }),
                _ => LoopAction::Nothing,
            }),
            *final(self) == (match *event {
                LoopEvent::Window(we) => (match we {
                    WindowEvent::CursorMoved => (ViewState {
                        clear_color: ClearColor::Blue,
                        ..*old(self)
                    }),
                    WindowEvent::SpaceKey { released } => (ViewState {
                        use_color: released,
                        ..*old(self)
                    }),
                    WindowEvent::Resized { width, height } => (if width > 0 && height > 0 {
                        (ViewState {
                            width,
                            height,
                            config_width: width,
                            config_height: height,
                            ..*old(self)
                        })
                    } else {
                        *old(self)
                    }),
                    _ => *old(self),
                }),
                _ => *old(self),
            }),
    {
        match event {
            LoopEvent::AboutToWait => LoopAction::RequestRedraw,
            LoopEvent::Window(we) => {
                if self.input(we) {
                    LoopAction::Nothing
                } else {
                    match we {
                        WindowEvent::CloseRequested => LoopAction::Exit,
                        WindowEvent::KeyOther => LoopAction::Exit,
                        WindowEvent::Resized { width, height } => {
                            if self.resize(*width, *height) {
                                LoopAction::Reconfigure
                            } else {
                                LoopAction::Nothing
                            }
                        },
                        WindowEvent::RedrawRequested => LoopAction::Render,
                        _ => LoopAction::Nothing,
                    }
                }
            },
            _ => LoopAction::Nothing,
        }
    }
}

/// The canvas-backed loop's state: the size the surface is configured to.
#[derive(Clone, Copy, Debug, PartialEq, Eq, Structural)]
pub struct CubeConfig {
    pub width: u32,
    pub height: u32,
}

impl CubeConfig {
    pub fn new(width: u32, height: u32) -> (c: CubeConfig)
        ensures
            c == (CubeConfig { width, height }),
    {
        CubeConfig { width, height }
    }

    /// One turn of the canvas-backed event loop. Every resize is taken as it
    /// comes and the surface reconfigured; running out of events asks for a
    /// redraw; a redraw request draws a frame; nothing ends the loop from
    /// inside.
    pub fn handle_event(&mut self, event: &LoopEvent) -> (action: LoopAction)
        ensures
            action == (match *event {
                LoopEvent::AboutToWait => LoopAction::RequestRedraw,
                LoopEvent::Window(we) => (match we {
                    WindowEvent::Resized { .. } => LoopAction::Reconfigure,
                    WindowEvent::RedrawRequested => LoopAction::Render,
                    _ => LoopAction::Nothing,
                }),
                _ => LoopAction::Nothing,
            }),
            *final(self) == (match *event {
                LoopEvent::Window(we) => (match we {
                    WindowEvent::Resized { width, height } => (CubeConfig { width, height }),
                    _ => *old(self),
                }),
                _ => *old(self),
            }),
    {
        match event {
            LoopEvent::AboutToWait => LoopAction::RequestRedraw,
            LoopEvent::Window(we) => {
                match we {
                    WindowEvent::Resized { width, height } => {
                        self.width = *width;
                        self.height = *height;
                        LoopAction::Reconfigure
                    },
                    WindowEvent::RedrawRequested => LoopAction::Render,
                    _ => LoopAction::Nothing,
                }
            },
            _ => LoopAction::Nothing,
        }
    }
}

/// Decides how the render loop recovers from a failed frame: a lost surface
/// is rebuilt at the current size, memory exhaustion ends the loop, and any
/// other error is only reported.
pub fn surface_error_action(err: &SurfaceErrorKind) -> (action: ErrorAction)
    ensures
        action == (match *err {
            SurfaceErrorKind::Lost => ErrorAction::RetryResize,
            SurfaceErrorKind::OutOfMemory => ErrorAction::Exit,
            _ => ErrorAction::Report,
        }),
{
    match err {
        SurfaceErrorKind::Lost => ErrorAction::RetryResize,
        SurfaceErrorKind::OutOfMemory => ErrorAction::Exit,
        _ => ErrorAction::Report,
    }
}

/// Picks the surface format: the first sRGB format if the surface offers one,
/// and the first offered format otherwise. `srgb[i]` says whether format `i`
/// is sRGB.
pub fn select_format_index(srgb: &Vec<bool>) -> (index: usize)
    requires
        srgb@.len() >= 1,
    ensures
        index < srgb@.len(),
        (exists|i: int| 0 <= i < srgb@.len() && srgb@[i]) ==> srgb@[index as int] && (forall|
            j: int,
        | 0 <= j < index ==> !srgb@[j]),
        !(exists|i: int| 0 <= i < srgb@.len() && srgb@[i]) ==> index == 0,
{
    let mut i: usize = 0;
    while i < srgb.len()
        invariant
            i <= srgb@.len(),
            forall|j: int| 0 <= j < i ==> !srgb@[j],
        decreases srgb@.len() - i,
    {
        if srgb[i] {
            return i;
        }
        i = i + 1;
    }
    0
}

} // verus!
