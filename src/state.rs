use vstd::prelude::*;

use crate::event::{Command, Key, LoopEvent, SurfaceError, WindowInput};
use crate::surface::{PresentMode, Size, SurfaceConfig};

verus! {

/// Why the renderer could not be set up.
#[derive(Clone, Copy, Debug, PartialEq, Eq, Structural)]
pub enum InitError {
    /// The surface supports no pixel format with the chosen adapter.
    NoSurfaceFormat,
    /// The vertex list is too long for one draw call.
    TooManyVertices,
}

/// The renderer's state: the surface configuration and the number of
/// vertices that each frame draws.
#[derive(Clone, Copy, Debug)]
pub struct State {
    pub config: SurfaceConfig,
    pub num_vertices: u32,
}

impl State {
    /// The state after a resize to `s`: the new size where it is drawable,
    /// else unchanged.
    pub open spec fn resized(self, s: Size) -> State {
        if s.is_drawable() {
            State { config: SurfaceConfig { width: s.width, height: s.height, ..self.config }, ..self }
        } else {
            self
        }
    }

    /// The command for a resize to `s`: reconfigure when the size was taken.
    pub open spec fn resize_command(s: Size) -> Command {
        if s.is_drawable() {
            Command::Reconfigure
        } else {
            Command::Continue
        }
    }

    /// The next state and command for an event addressed to the window.
    pub open spec fn window_step(self, e: WindowInput) -> (State, Command) {
        match e {
            WindowInput::CloseRequested => (self, Command::Exit),
            WindowInput::KeyboardInput { pressed, key } => {
                if pressed && key == Some(Key::Escape) {
                    (self, Command::Exit)
                } else {
                    (self, Command::Continue)
                }
            },
            WindowInput::Resized(s) => (self.resized(s), State::resize_command(s)),
            WindowInput::ScaleFactorChanged(s) => (self.resized(s), State::resize_command(s)),
            WindowInput::Other => (self, Command::Continue),
        }
    }

    /// The next state and command for an event of the event loop.
    pub open spec fn event_step(self, e: LoopEvent) -> (State, Command) {
        match e {
            LoopEvent::Window { event, own_window } => {
                if own_window {
                    self.window_step(event)
                } else {
                    (self, Command::Continue)
                }
            },
            LoopEvent::RedrawRequested { own_window } => {
                if own_window {
                    (self, Command::Render)
                } else {
                    (self, Command::Continue)
                }
            },
            LoopEvent::MainEventsCleared => (self, Command::RequestRedraw),
            LoopEvent::Other => (self, Command::Continue),
        }
    }

    /// The next state and command once a frame was drawn, or could not be.
    pub open spec fn frame_step(self, r: Result<(), SurfaceError>) -> (State, Command) {
        match r {
            Ok(()) => (self, Command::Continue),
            Err(SurfaceError::Lost) => {
                let s = Size { width: self.config.width, height: self.config.height };
                (self.resized(s), State::resize_command(s))
            },
            Err(SurfaceError::OutOfMemory) => (self, Command::Exit),
            Err(e) => (self, Command::Report(e)),
        }
    }

    /// Sets up the state for a window of `size`, a surface that supports
    /// `formats` (the preferred first), and a vertex list of `vertex_count`
    /// vertices.
    pub fn new(size: Size, formats: &Vec<wgpu::TextureFormat>, vertex_count: usize) -> (r: Result<
        State,
        InitError,
    >)
        ensures
            r is Ok <==> formats@.len() > 0 && vertex_count <= u32::MAX,
            formats@.len() == 0 <==> r == Err::<State, InitError>(InitError::NoSurfaceFormat),
            (formats@.len() > 0 && vertex_count > u32::MAX) <==> r == Err::<State, InitError>(
                InitError::TooManyVertices,
            ),
            r matches Ok(s) ==> {
                &&& s.config.format == formats@[0]
                &&& s.config.width == size.width
                &&& s.config.height == size.height
                &&& s.config.present_mode == PresentMode::Fifo
                &&& s.num_vertices == vertex_count
            },
    {
        match SurfaceConfig::new(size, formats) {
            None => Err(InitError::NoSurfaceFormat),
            Some(config) => {
                if vertex_count > u32::MAX as usize {
                    Err(InitError::TooManyVertices)
                } else {
                    Ok(State { config, num_vertices: vertex_count as u32 })
                }
            },
        }
    }

    /// The last size the surface was configured with.
    pub fn size(&self) -> (r: Size)
        ensures
            r.width == self.config.width,
            r.height == self.config.height,
    {
        self.config.size()
    }

    /// Takes the new size where both sides exceed the minimum, and returns
    /// whether it did: the surface must then be reconfigured.
    pub fn resize(&mut self, new_size: Size) -> (r: bool)
        ensures
            r == new_size.is_drawable(),
            *final(self) == old(self).resized(new_size),
    {
        if new_size.is_drawable_size() {
            self.config.width = new_size.width;
            self.config.height = new_size.height;
            true
        } else {
            false
        }
    }

    /// Whether the state consumes `event` itself. It consumes none.
    pub fn input(&mut self, event: &WindowInput) -> (r: bool)
        ensures
            !r,
            *final(self) == *old(self),
    {
        false
    }

    /// Advances the state by one frame. Nothing in it changes over time.
    pub fn update(&mut self)
        ensures
            *final(self) == *old(self),
    {
    }
    /// Handles an event addressed to the window: a close request or a press
    /// of Escape ends the program, a new size is taken as `resize` takes it.
    pub fn on_window_event(&mut self, event: &WindowInput) -> (r: Command)
        ensures
            (*final(self), r) == old(self).window_step(*event),
    {
        if self.input(event) {
            return Command::Continue;
        }
        match event {
            WindowInput::CloseRequested => Command::Exit,
            WindowInput::KeyboardInput { pressed, key } => {
                if *pressed && matches!(key, Some(Key::Escape)) {
                    Command::Exit
                } else {
                    Command::Continue
                }
            },
            WindowInput::Resized(s) => {
                if self.resize(*s) {
                    Command::Reconfigure
                } else {
                    Command::Continue
                }
            },
            WindowInput::ScaleFactorChanged(s) => {
                if self.resize(*s) {
                    Command::Reconfigure
                } else {
                    Command::Continue
                }
            },
            WindowInput::Other => Command::Continue,
        }
    }

    /// Handles an event of the event loop: events of other windows are
    /// ignored, a redraw request renders a frame, and once every pending
    /// event is handled a redraw is requested.
    pub fn on_event(&mut self, event: &LoopEvent) -> (r: Command)
        ensures
            (*final(self), r) == old(self).event_step(*event),
    {
        match event {
            LoopEvent::Window { event, own_window } => {
                if *own_window {
                    self.on_window_event(event)
                } else {
                    Command::Continue
                }
            },
            LoopEvent::RedrawRequested { own_window } => {
                if *own_window {
                    self.update();
                    Command::Render
                } else {
                    Command::Continue
                }
            },
            LoopEvent::MainEventsCleared => Command::RequestRedraw,
            LoopEvent::Other => Command::Continue,
        }
    }

    /// Handles the outcome of a frame: a lost surface is reconfigured with
    /// the last size, running out of memory ends the program, and any other
    /// error is reported and the frame dropped.
    pub fn on_frame_result(&mut self, result: Result<(), SurfaceError>) -> (r: Command)
        ensures
            (*final(self), r) == old(self).frame_step(result),
    {
        match result {
            Ok(()) => Command::Continue,
            Err(SurfaceError::Lost) => {
                let s = self.size();
                if self.resize(s) {
                    Command::Reconfigure
                } else {
                    Command::Continue
                }
            },
            Err(SurfaceError::OutOfMemory) => Command::Exit,
            Err(e) => Command::Report(e),
        }
    }
}

/// A resize to a size that is not drawable leaves the state as it was and
/// asks for no reconfiguration.
pub proof fn lemma_small_resize_keeps_state(s: State, size: Size)
    requires
        !size.is_drawable(),
    ensures
        s.resized(size) == s,
        State::resize_command(size) == Command::Continue,
{
}

/// A resize to a drawable size sets the configured width and height to it
/// exactly, keeps everything else, and asks for a reconfiguration.
pub proof fn lemma_resize_takes_size(s: State, size: Size)
    requires
        size.is_drawable(),
    ensures
        s.resized(size).config.width == size.width,
        s.resized(size).config.height == size.height,
        s.resized(size).config.format == s.config.format,
        s.resized(size).config.present_mode == s.config.present_mode,
        s.resized(size).num_vertices == s.num_vertices,
        State::resize_command(size) == Command::Reconfigure,
{
}

/// When the surface is lost, it is reconfigured with the last size it had,
/// provided that size is drawable; the state does not change.
pub proof fn lemma_lost_surface_reconfigures(s: State)
    ensures
        s.frame_step(Err(SurfaceError::Lost)).0 == s,
        s.frame_step(Err(SurfaceError::Lost)).1 == (if (Size {
            width: s.config.width,
            height: s.config.height,
        }).is_drawable() {
            Command::Reconfigure
        } else {
            Command::Continue
        }),
{
}

/// Running out of memory while acquiring a frame ends the program.
pub proof fn lemma_out_of_memory_exits(s: State)
    ensures
        s.frame_step(Err(SurfaceError::OutOfMemory)) == (s, Command::Exit),
{
}

/// No event and no frame outcome changes the number of vertices drawn or the
/// pixel format: both stay as the state was set up with.
pub proof fn lemma_steps_keep_vertices(s: State, e: LoopEvent, r: Result<(), SurfaceError>)
    ensures
        s.event_step(e).0.num_vertices == s.num_vertices,
        s.event_step(e).0.config.format == s.config.format,
        s.frame_step(r).0.num_vertices == s.num_vertices,
        s.frame_step(r).0.config.format == s.config.format,
{
}

} // verus!
