use vstd::prelude::*;

use crate::input::{Input, InputView, KeyInput};
use crate::math::UVec2;

verus! {

/// How the application window is set up: its title, its size and the shortest time between two
/// frames, in microseconds.
pub struct AppDesc {
    title: String,
    size: UVec2,
    frame_time_micros: u64,
}

/// The abstract value of an [`AppDesc`].
pub struct AppDescView {
    pub title: Seq<char>,
    pub size: UVec2,
    pub frame_time_micros: u64,
}

impl View for AppDesc {
    type V = AppDescView;

    closed spec fn view(&self) -> AppDescView {
        AppDescView { title: self.title@, size: self.size, frame_time_micros: self.frame_time_micros }
    }
}

impl AppDesc {
    /// The window title.
    pub fn get_title(&self) -> (t: &String)
        ensures
            t@ == self@.title,
    {
        &self.title
    }

    /// The requested window size.
    pub fn get_size(&self) -> (s: UVec2)
        ensures
            s == self@.size,
    {
        self.size
    }

    /// The shortest time between two frames, in microseconds.
    pub fn get_frame_time_micros(&self) -> (t: u64)
        ensures
            t == self@.frame_time_micros,
    {
        self.frame_time_micros
    }
}

impl Clone for AppDesc {
    fn clone(&self) -> (d: Self)
        ensures
            d@ == self@,
    {
        AppDesc { title: self.title.clone(), size: self.size, frame_time_micros: self.frame_time_micros }
    }
}

/// The title a window gets unless the builder sets another.
pub open spec fn default_title() -> Seq<char> {
    "Luxlib Window"@
}

/// The description a new builder starts from: the default title, 800 by 600 pixels and no
/// minimum time between frames.
pub open spec fn default_desc() -> AppDescView {
    AppDescView { title: default_title(), size: UVec2 { x: 800, y: 600 }, frame_time_micros: 0 }
}

/// The minimum time between frames, in microseconds, for a target rate of `fps` frames per
/// second (rounded down).
pub open spec fn frame_time_for_fps(fps: u64) -> u64
    recommends
        fps > 0,
{
    (1_000_000u64 / fps) as u64
}

/// The frame time for a rate of `fps` is the largest whole number of microseconds that `fps`
/// frames fit into one second with: `fps` frames of it take at most a second, one microsecond
/// more each would take longer.
pub proof fn lemma_frame_time_for_fps(fps: u64)
    requires
        fps > 0,
    ensures
        frame_time_for_fps(fps) == 1_000_000int / (fps as int),
        frame_time_for_fps(fps) * fps <= 1_000_000,
        1_000_000int < (frame_time_for_fps(fps) + 1) * fps,
{
    let q = 1_000_000int / (fps as int);
    let r = 1_000_000int % (fps as int);
    vstd::arithmetic::div_mod::lemma_fundamental_div_mod(1_000_000, fps as int);
    assert(0 <= r < fps);
    assert(q * fps + r == 1_000_000) by (nonlinear_arith)
        requires
            fps * q + r == 1_000_000,
    ;
    assert((q + 1) * fps == q * fps + fps) by (nonlinear_arith);
}

/// The first stage of building an application: the window settings.
pub struct AppBuilderStage1 {
    desc: AppDesc,
}

impl View for AppBuilderStage1 {
    type V = AppDescView;

    closed spec fn view(&self) -> AppDescView {
        self.desc@
    }
}

impl Clone for AppBuilderStage1 {
    fn clone(&self) -> (b: Self)
        ensures
            b@ == self@,
    {
        AppBuilderStage1 { desc: self.desc.clone() }
    }
}

impl Default for AppBuilderStage1 {
    fn default() -> (b: Self)
        ensures
            b@ == default_desc(),
    {
        AppBuilderStage1 {
            desc: AppDesc {
                title: String::from_str("Luxlib Window"),
                size: UVec2::new(800, 600),
                frame_time_micros: 0,
            },
        }
    }
}

impl AppBuilderStage1 {
    /// The window settings collected so far.
    pub fn get_desc(&self) -> (d: &AppDesc)
        ensures
            d@ == self@,
    {
        &self.desc
    }

    /// Sets the window title.
    pub fn title(&mut self, title: &str) -> (b: &mut Self)
        ensures
            b@ == (AppDescView { title: title@, ..old(self)@ }),
            *final(self) == *final(b),
    {
        self.desc.title = title.to_owned();
        self
    }

    /// Sets the target frame rate: frames come at least `1_000_000 / fps` microseconds apart.
    pub fn target_fps(&mut self, fps: u64) -> (b: &mut Self)
        requires
            fps > 0,
        ensures
            b@ == (AppDescView { frame_time_micros: frame_time_for_fps(fps), ..old(self)@ }),
            b@.frame_time_micros == 1_000_000int / (fps as int),
            b@.frame_time_micros * fps <= 1_000_000int < (b@.frame_time_micros + 1) * fps,
            *final(self) == *final(b),
    {
        self.desc.frame_time_micros = 1_000_000 / fps;
        proof {
            lemma_frame_time_for_fps(fps);
        }
        self
    }

    /// Sets the window size.
    pub fn window_size(&mut self, size: UVec2) -> (b: &mut Self)
        ensures
            b@ == (AppDescView { size, ..old(self)@ }),
            *final(self) == *final(b),
    {
        self.desc.size = size;
        self
    }
}


/// A window event, as the library needs to know it.
pub enum AppEvent {
    /// The user asked to close the window.
    CloseRequested,
    /// The window was resized to `width` by `height` pixels.
    Resized { width: u32, height: u32 },
    /// The window is ready to be redrawn; `elapsed_micros` have passed since the last frame ran.
    RedrawRequested { elapsed_micros: u64 },
    /// A keyboard key went down (`pressed`) or up; `key` is `None` for a key the library does not
    /// track.
    KeyboardInput { key: Option<KeyInput>, pressed: bool },
    /// Any other event; it is ignored.
    Other,
}

/// What the application has to do after an event.
#[derive(PartialEq, Eq, Debug, Structural)]
pub enum AppAction {
    /// Nothing.
    Nothing,
    /// Leave the event loop.
    Exit,
    /// Reconfigure the drawing surface to the new size.
    Resize { width: u32, height: u32 },
    /// Ask for another redraw, without running a frame.
    Redraw,
    /// Ask for another redraw, run the frame callback as frame number `frame_number`, call
    /// [`App::end_frame`] and draw what the callback queued.
    RunFrame { frame_number: u64 },
}

/// The abstract state of an [`App`].
pub struct AppView {
    pub input: InputView,
    pub desc: Option<AppDescView>,
    pub frames: u64,
    pub has_gpu: bool,
}

/// The part of the application that decides what to do with each window event: it tracks the
/// input, counts frames and paces them.
pub struct App {
    input: Input,
    desc: Option<AppDesc>,
    frames: u64,
    has_gpu: bool,
}

impl View for App {
    type V = AppView;

    closed spec fn view(&self) -> AppView {
        AppView {
            input: self.input@,
            desc: match self.desc {
                Some(d) => Some(d@),
                None => None,
            },
            frames: self.frames,
            has_gpu: self.has_gpu,
        }
    }
}

impl App {
    /// The input state is well formed.
    pub closed spec fn wf(self) -> bool {
        self.input.wf()
    }

    /// No window settings yet, no GPU, no frame run and no button down.
    pub fn new() -> (app: App)
        ensures
            app.wf(),
            app@.desc is None,
            app@.frames == 0,
            !app@.has_gpu,
            app@.input.keys == crate::input::ButtonsView::<KeyInput>::empty(),
            app@.input.mouse == crate::input::ButtonsView::<crate::input::MouseInput>::empty(),
    {
        App { input: Input::new(), desc: None, frames: 0, has_gpu: false }
    }

    /// Gives the application its window settings.
    pub fn set_desc(&mut self, desc: AppDesc)
        requires
            old(self).wf(),
        ensures
            final(self).wf(),
            final(self)@ == (AppView { desc: Some(desc@), ..old(self)@ }),
    {
        self.desc = Some(desc);
    }

    /// The window settings, if given.
    pub fn desc(&self) -> (d: Option<&AppDesc>)
        ensures
            match d {
                Some(d) => self@.desc == Some(d@),
                None => self@.desc is None,
            },
    {
        match &self.desc {
            Some(d) => Some(d),
            None => None,
        }
    }

    /// The keyboard and mouse state.
    pub fn input(&self) -> (i: &Input)
        requires
            self.wf(),
        ensures
            i.wf(),
            i@ == self@.input,
            i@.keys.consistent(),
            i@.mouse.consistent(),
    {
        proof {
            self.input.lemma_consistent();
        }
        &self.input
    }

    /// How many frames have run.
    pub fn frames(&self) -> (n: u64)
        ensures
            n == self@.frames,
    {
        self.frames
    }

    /// Whether the window and the GPU are up.
    pub fn has_gpu(&self) -> (b: bool)
        ensures
            b == self@.has_gpu,
    {
        self.has_gpu
    }

    /// Records that the window and the GPU are up; from now on window events are handled.
    pub fn resumed(&mut self)
        requires
            old(self).wf(),
        ensures
            final(self).wf(),
            final(self)@ == (AppView { has_gpu: true, ..old(self)@ }),
    {
        self.has_gpu = true;
    }

    /// Decides what to do with a window event. Before the GPU is up every event is ignored.
    /// A redraw runs a frame only once the frame time has passed; an Escape key press closes the
    /// application.
    pub fn window_event(&mut self, event: AppEvent) -> (action: AppAction)
        requires
            old(self).wf(),
            old(self)@.has_gpu ==> old(self)@.desc is Some,
        ensures
            final(self).wf(),
            final(self)@.desc == old(self)@.desc,
            final(self)@.frames == old(self)@.frames,
            final(self)@.has_gpu == old(self)@.has_gpu,
            !old(self)@.has_gpu ==> action == AppAction::Nothing && final(self)@ == old(self)@,
            old(self)@.has_gpu ==> match event {
                AppEvent::CloseRequested => action == AppAction::Exit && final(self)@ == old(
                    self,
                )@,
                AppEvent::Resized { width, height } => action == (AppAction::Resize {
                    width,
                    height,
                }) && final(self)@ == old(self)@,
                AppEvent::RedrawRequested { elapsed_micros } => final(self)@ == old(self)@ && if
                elapsed_micros < old(self)@.desc.unwrap().frame_time_micros {
                    action == AppAction::Redraw
                } else {
                    action == (AppAction::RunFrame { frame_number: old(self)@.frames })
                },
                AppEvent::KeyboardInput { key, pressed } => {
                    &&& final(self)@.input.mouse == old(self)@.input.mouse
                    &&& final(self)@.input.keys == match key {
                        None => old(self)@.input.keys,
                        Some(k) => if pressed {
                            old(self)@.input.keys.press(k)
                        } else {
                            old(self)@.input.keys.release(k)
                        },
                    }
                    &&& action == if key == Some(KeyInput::Escape) && pressed {
                        AppAction::Exit
                    } else {
                        AppAction::Nothing
                    }
                },
                AppEvent::Other => action == AppAction::Nothing && final(self)@ == old(self)@,
            },
    {
        if !self.has_gpu {
            return AppAction::Nothing;
        }
        let frame_time = match &self.desc {
            Some(d) => d.frame_time_micros,
            None => 0,
        };
        match event {
            AppEvent::CloseRequested => AppAction::Exit,
            AppEvent::Resized { width, height } => AppAction::Resize { width, height },
            AppEvent::RedrawRequested { elapsed_micros } => {
                if elapsed_micros < frame_time {
                    AppAction::Redraw
                } else {
                    AppAction::RunFrame { frame_number: self.frames }
                }
            },
            AppEvent::KeyboardInput { key, pressed } => {
                self.input.handle_keyboard_input(key, pressed);
                let is_escape = match key {
                    Some(KeyInput::Escape) => true,
                    _ => false,
                };
                if is_escape && pressed {
                    AppAction::Exit
                } else {
                    AppAction::Nothing
                }
            },
            AppEvent::Other => AppAction::Nothing,
        }
    }

    /// Closes a frame that [`AppAction::RunFrame`] started: one more frame has run, and the input
    /// moves on to the next frame.
    pub fn end_frame(&mut self)
        requires
            old(self).wf(),
            old(self)@.frames < u64::MAX,
        ensures
            final(self).wf(),
            final(self)@.frames == old(self)@.frames + 1,
            final(self)@.input.keys == old(self)@.input.keys.advance(),
            final(self)@.input.mouse == old(self)@.input.mouse.advance(),
            final(self)@.desc == old(self)@.desc,
            final(self)@.has_gpu == old(self)@.has_gpu,
    {
        self.frames = self.frames + 1;
        self.input.advance();
    }
}

} // verus!
