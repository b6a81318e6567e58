//! The application state machine: what each window or user event does to the
//! frame executor, and what the host is to do in response.
//!
//! The application is uninitialized until the graphics it waits for arrive.
//! From then on it is ready while the surface has an area and suspended while
//! it has none. A suspended application runs no compute pass and no fragment
//! pass; its control panel is still drawn.

use crate::descriptor::{views, BufferDescriptor, BufferDescriptorView, Settings};
use crate::frame::{
    compute_pass, frame, render_pass, ui_pass, ComputePass, ComputePassView, FrameStep,
    FrameStepView, RenderPass, RenderPassView, UiPass,
};
use crate::pipeline::PipelineSet;
use crate::shader::{framing_error, spirv_words, ShaderError};
use crate::surface::{PresentMode, SurfaceError, SurfaceState};
use crate::ui::{TextureId, UiState};
use vstd::prelude::*;

verus! {

/// What the program was started with.
#[derive(Clone, Copy, Debug, PartialEq, Eq, Structural)]
pub struct Options {
    /// Start in debug mode, with the simulation paused.
    pub debug: bool,
}

/// What the graphics are made from, once a window exists.
#[derive(Clone, Copy, Debug, PartialEq, Eq, Structural)]
pub struct Builder {
    pub options: Options,
    pub settings: Settings,
    /// The window was created and the graphics are being acquired.
    pub acquiring: bool,
}

/// The frame executor with the surface it draws to and the state of the
/// control panel.
#[derive(Debug, PartialEq, Eq)]
pub struct Graphics {
    pub rpass: RenderPass,
    pub surface: SurfaceState,
    pub ui_state: UiState,
}

/// The mathematical value of a [`Graphics`].
pub struct GraphicsView {
    pub rpass: RenderPassView,
    pub surface: SurfaceState,
    pub ui_state: UiState,
}

impl View for Graphics {
    type V = GraphicsView;

    open spec fn view(&self) -> GraphicsView {
        GraphicsView { rpass: self.rpass@, surface: self.surface, ui_state: self.ui_state }
    }
}

/// The application: waiting for its graphics, or holding them.
#[derive(Debug, PartialEq, Eq)]
pub enum App {
    Builder(Builder),
    Graphics(Graphics),
}

/// The mathematical value of an [`App`].
pub enum AppView {
    Builder(Builder),
    Graphics(GraphicsView),
}

impl View for App {
    type V = AppView;

    open spec fn view(&self) -> AppView {
        match self {
            App::Builder(builder) => AppView::Builder(*builder),
            App::Graphics(gfx) => AppView::Graphics(gfx@),
        }
    }
}

/// Where the application stands.
#[derive(Clone, Copy, Debug, PartialEq, Eq, Structural)]
pub enum Phase {
    /// The graphics have not arrived.
    Uninitialized,
    /// The surface has an area: frames are computed and drawn.
    Ready,
    /// The surface has no area, as that of a minimized window.
    Suspended,
}

/// An event of the window, reduced to what the application decides on.
#[derive(Clone, Copy, Debug, PartialEq, Eq, Structural)]
pub enum WindowEvent {
    RedrawRequested,
    CloseRequested,
    /// A key changed state; `escape` tells whether it is the escape key.
    KeyboardInput { pressed: bool, escape: bool },
    /// The window has a new size, in physical pixels.
    Resized { width: u32, height: u32 },
    MouseInput,
    MouseWheel,
    CursorMoved,
    Other,
}

/// What the host is to run for one redraw.
#[derive(Clone, Copy, Debug, PartialEq, Eq, Structural)]
pub struct Redraw {
    /// Rounds of the pre-update hook followed by one compute pass.
    pub rounds: u32,
    /// Whether a frame is acquired and rendered after the rounds.
    pub render: bool,
}

/// What the host is to do in response to a window event.
#[derive(Clone, Copy, Debug, PartialEq, Eq, Structural)]
pub enum WindowAction {
    Nothing,
    /// Leave the event loop.
    Exit,
    /// Run a redraw, and leave the event loop if it fails fatally.
    Redraw,
    /// The size was recorded. Where there is a configuration, configure the
    /// surface with it and tell the controller the size.
    Resized { configure: Option<SurfaceState> },
    /// Hand the event to the controller.
    Forward,
}

/// An event the application sends to itself.
#[derive(Debug, PartialEq, Eq)]
pub enum UserEvent {
    /// The graphics have arrived.
    CreateWindow(Graphics),
    /// The shader binary changed; these are its bytes.
    NewModule(Vec<u8>),
    SetVSync(bool),
}

/// What the host is to do in response to a user event.
#[derive(Clone, Copy, Debug, PartialEq, Eq, Structural)]
pub enum UserAction {
    Nothing,
    RequestRedraw,
    /// The new shader binary was rejected; the pipelines made before stay.
    ShaderRejected(ShaderError),
}

impl AppView {
    pub open spec fn phase(self) -> Phase {
        match self {
            AppView::Builder(_) => Phase::Uninitialized,
            AppView::Graphics(gfx) => if gfx.surface.drawable() {
                Phase::Ready
            } else {
                Phase::Suspended
            },
        }
    }

    /// The application after the window reported a size.
    pub open spec fn resized(self, width: u32, height: u32) -> AppView {
        match self {
            AppView::Builder(_) => self,
            AppView::Graphics(gfx) => AppView::Graphics(
                GraphicsView {
                    rpass: gfx.rpass,
                    surface: gfx.surface.resized(width, height),
                    ui_state: gfx.ui_state,
                },
            ),
        }
    }

    /// The configuration a reported size asks the surface to be configured
    /// with, if any.
    pub open spec fn configuration(self, width: u32, height: u32) -> Option<SurfaceState> {
        match self {
            AppView::Graphics(gfx) if width > 0 && height > 0 => Some(
                gfx.surface.resized(width, height),
            ),
            _ => None,
        }
    }

    /// Rounds of pre-update and compute run for one redraw, of the
    /// `iterations` the controller asks for.
    pub open spec fn rounds(self, iterations: u32) -> u32 {
        if self.phase() == Phase::Ready {
            iterations
        } else {
            0
        }
    }

    /// The steps of a frame whose acquisition gave `acquired`: none before
    /// the graphics are there.
    pub open spec fn frame(self, acquired: Result<(), SurfaceError>, constants: Seq<u8>) -> Result<
        Seq<FrameStepView>,
        SurfaceError,
    > {
        match self {
            AppView::Builder(_) => Ok(Seq::empty()),
            AppView::Graphics(gfx) => frame(gfx.rpass, acquired, gfx.surface, constants),
        }
    }

    /// The compute pass of one round, if one is run.
    pub open spec fn compute(self, width: u32, height: u32, constants: Seq<u8>) -> Option<
        ComputePassView,
    > {
        match self {
            AppView::Graphics(gfx) if gfx.surface.drawable() => Some(
                compute_pass(gfx.rpass, width, height, constants),
            ),
            _ => None,
        }
    }

    /// Whether a new shader binary or a vsync setting is taken up: the
    /// graphics are there and the environment is not a browser.
    pub open spec fn reloadable(self) -> bool {
        match self {
            AppView::Builder(_) => false,
            AppView::Graphics(gfx) => gfx.rpass.settings.capabilities.supports_runtime_shader_path,
        }
    }

    /// The application with its pipelines remade from another module.
    pub open spec fn with_module(self, words: Seq<u32>) -> AppView {
        match self {
            AppView::Builder(_) => self,
            AppView::Graphics(gfx) => AppView::Graphics(
                GraphicsView {
                    rpass: gfx.rpass.with_module(words),
                    surface: gfx.surface,
                    ui_state: gfx.ui_state,
                },
            ),
        }
    }

    /// The application after vsync was switched on or off.
    pub open spec fn with_vsync(self, enable: bool) -> AppView {
        match self {
            AppView::Graphics(gfx) if self.reloadable() => AppView::Graphics(
                GraphicsView {
                    rpass: gfx.rpass,
                    surface: gfx.surface.with_vsync(enable),
                    ui_state: gfx.ui_state,
                },
            ),
            _ => self,
        }
    }

    /// The application after a window event that the control panel did or did
    /// not consume.
    pub open spec fn after_window_event(self, consumed: bool, event: WindowEvent) -> AppView {
        match event {
            WindowEvent::Resized { width, height } if !self.ui_consumes(consumed) => self.resized(
                width,
                height,
            ),
            _ => self,
        }
    }

    /// Whether an event the control panel reports as consumed is kept from
    /// the application: only once there is a control panel.
    pub open spec fn ui_consumes(self, consumed: bool) -> bool {
        self is Graphics && consumed
    }

    /// The response to a window event. An event the control panel consumed
    /// has none. A request to close the window and a press of the escape key
    /// end the program. A redraw request starts a redraw. Input goes on to
    /// the controller once the graphics are there.
    pub open spec fn window_action(self, consumed: bool, event: WindowEvent) -> WindowAction {
        if self.ui_consumes(consumed) {
            WindowAction::Nothing
        } else {
            match event {
                WindowEvent::RedrawRequested => WindowAction::Redraw,
                WindowEvent::CloseRequested => WindowAction::Exit,
                WindowEvent::KeyboardInput { pressed, escape } => if pressed && escape {
                    WindowAction::Exit
                } else if self is Graphics {
                    WindowAction::Forward
                } else {
                    WindowAction::Nothing
                },
                WindowEvent::Resized { width, height } => if self is Graphics {
                    WindowAction::Resized { configure: self.configuration(width, height) }
                } else {
                    WindowAction::Nothing
                },
                WindowEvent::MouseInput | WindowEvent::MouseWheel | WindowEvent::CursorMoved => {
                    if self is Graphics {
                        WindowAction::Forward
                    } else {
                        WindowAction::Nothing
                    }
                },
                WindowEvent::Other => WindowAction::Nothing,
            }
        }
    }
}

/// While the surface has no area, a redraw runs no round, no compute pass is
/// described, and no step of the frame is a fragment pass.
pub proof fn lemma_suspended_issues_no_pass(
    app: AppView,
    iterations: u32,
    width: u32,
    height: u32,
    acquired: Result<(), SurfaceError>,
    constants: Seq<u8>,
)
    requires
        app matches AppView::Graphics(gfx) && (gfx.surface.width == 0 || gfx.surface.height == 0),
    ensures
        app.phase() == Phase::Suspended,
        app.rounds(iterations) == 0,
        app.compute(width, height, constants) is None,
        app.frame(acquired, constants) matches Ok(steps) ==> forall|i: int|
            0 <= i < steps.len() ==> !(#[trigger] steps[i] is Shader),
{
}

/// Reporting one size with an area twice asks for the surface to be
/// configured twice, with the same configuration, and the second report
/// leaves the recorded size as the first left it.
pub proof fn lemma_resize_twice(app: AppView, width: u32, height: u32)
    requires
        app is Graphics,
        width > 0,
        height > 0,
    ensures
        app.configuration(width, height) is Some,
        app.resized(width, height).configuration(width, height) == app.configuration(
            width,
            height,
        ),
        app.resized(width, height).resized(width, height) == app.resized(width, height),
        ({
            &&& app.resized(width, height) matches AppView::Graphics(gfx)
            &&& gfx.surface.width == width
            &&& gfx.surface.height == height
        }),
        app.resized(width, height).phase() == Phase::Ready,
{
}

/// The graphics for a surface of the given size and format.
pub open spec fn graphics(
    builder: Builder,
    width: u32,
    height: u32,
    surface_format: wgpu::TextureFormat,
    descriptors: Seq<BufferDescriptorView>,
    words: Seq<u32>,
) -> GraphicsView {
    GraphicsView {
        rpass: render_pass(descriptors, builder.settings, surface_format, words),
        surface: SurfaceState { width, height, presentation_mode: PresentMode::AutoVsync },
        ui_state: UiState { fps: 0, vsync: true },
    }
}

/// Describes the graphics for a window whose surface has the given size and
/// format: the frame executor for the declared buffers and the shader binary,
/// the surface state, and the state of the control panel. A binary that
/// cannot be framed is reported.
pub fn create_graphics(
    builder: &Builder,
    width: u32,
    height: u32,
    surface_format: wgpu::TextureFormat,
    descriptors: &[BufferDescriptor],
    shader: &[u8],
) -> (result: Result<Graphics, ShaderError>)
    requires
        descriptors.len() + 2 <= u32::MAX,
    ensures
        match result {
            Ok(gfx) => {
                &&& framing_error(shader@) is None
                &&& gfx@ == graphics(
                    *builder,
                    width,
                    height,
                    surface_format,
                    views(descriptors@),
                    spirv_words(shader@),
                )
                &&& gfx@.rpass.wf()
            },
            Err(e) => framing_error(shader@) == Some(e),
        },
{
    let rpass = match RenderPass::new(descriptors, builder.settings, surface_format, shader) {
        Ok(rpass) => rpass,
        Err(e) => {
            return Err(e);
        },
    };
    Ok(Graphics { rpass, surface: SurfaceState::new(width, height), ui_state: UiState::new() })
}

impl App {
    /// An application that waits for its graphics.
    pub fn new(options: Options, settings: Settings) -> (app: App)
        ensures
            app@ == AppView::Builder(Builder { options, settings, acquiring: false }),
            app@.phase() == Phase::Uninitialized,
    {
        App::Builder(Builder { options, settings, acquiring: false })
    }

    /// Where the application stands.
    pub fn phase(&self) -> (phase: Phase)
        ensures
            phase == self@.phase(),
    {
        match self {
            App::Builder(_) => Phase::Uninitialized,
            App::Graphics(gfx) => if gfx.surface.is_drawable() {
                Phase::Ready
            } else {
                Phase::Suspended
            },
        }
    }

    /// The event loop was started or resumed. The first time, the host is
    /// handed what to create the window and acquire the graphics with; while
    /// they are being acquired, and once they are there, it is handed nothing.
    pub fn resumed(&mut self) -> (start: Option<Builder>)
        ensures
            match old(self)@ {
                AppView::Builder(builder) if !builder.acquiring => {
                    &&& start == Some(builder)
                    &&& final(self)@ == AppView::Builder(
                        Builder {
                            options: builder.options,
                            settings: builder.settings,
                            acquiring: true,
                        },
                    )
                },
                _ => start is None && final(self)@ == old(self)@,
            },
    {
        match self {
            App::Builder(builder) => {
                if builder.acquiring {
                    None
                } else {
                    let start = *builder;
                    builder.acquiring = true;
                    Some(start)
                }
            },
            App::Graphics(_) => None,
        }
    }

    /// Records a size reported by the window. A size with an area is returned
    /// as the configuration to configure the surface with, each time it is
    /// reported. Before the graphics are there nothing happens.
    pub fn resize(&mut self, width: u32, height: u32) -> (configure: Option<SurfaceState>)
        ensures
            final(self)@ == old(self)@.resized(width, height),
            configure == old(self)@.configuration(width, height),
    {
        match self {
            App::Builder(_) => None,
            App::Graphics(gfx) => gfx.surface.resize(width, height),
        }
    }

    /// Whether a keyboard event goes on to the controller.
    pub fn keyboard_input(&self) -> (forward: bool)
        ensures
            forward == self@ is Graphics,
    {
        self.is_initialized()
    }

    /// Whether a mouse button event goes on to the controller.
    pub fn mouse_input(&self) -> (forward: bool)
        ensures
            forward == self@ is Graphics,
    {
        self.is_initialized()
    }

    /// Whether a cursor movement goes on to the controller.
    pub fn mouse_move(&self) -> (forward: bool)
        ensures
            forward == self@ is Graphics,
    {
        self.is_initialized()
    }

    /// Whether a scroll event goes on to the controller.
    pub fn mouse_scroll(&self) -> (forward: bool)
        ensures
            forward == self@ is Graphics,
    {
        self.is_initialized()
    }

    /// Whether the graphics are there.
    pub fn is_initialized(&self) -> (initialized: bool)
        ensures
            initialized == self@ is Graphics,
    {
        match self {
            App::Builder(_) => false,
            App::Graphics(_) => true,
        }
    }

    /// The number of rounds to run for one redraw, each the controller's
    /// pre-update hook followed by one compute pass: the `iterations` the
    /// controller asks for while the application is ready, none otherwise.
    pub fn update(&self, iterations: u32) -> (rounds: u32)
        ensures
            rounds == self@.rounds(iterations),
            self@.phase() != Phase::Ready ==> rounds == 0,
    {
        match self.phase() {
            Phase::Ready => iterations,
            _ => 0,
        }
    }

    /// Describes the compute pass of one round, while the application is
    /// ready.
    pub fn compute(&self, width: u32, height: u32, constants: &[u8]) -> (pass: Option<ComputePass>)
        ensures
            match pass {
                Some(p) => self@.compute(width, height, constants@) == Some(p@),
                None => self@.compute(width, height, constants@) is None,
            },
    {
        match self {
            App::Builder(_) => None,
            App::Graphics(gfx) => if gfx.surface.is_drawable() {
                Some(gfx.rpass.compute(width, height, constants))
            } else {
                None
            },
        }
    }

    /// Lists the steps of a frame whose acquisition gave `acquired`. Before
    /// the graphics are there, there is no frame and no step.
    pub fn render(&self, acquired: Result<(), SurfaceError>, fragment_constants: &[u8]) -> (result:
        Result<Vec<FrameStep>, SurfaceError>)
        ensures
            match result {
                Ok(steps) => self@.frame(acquired, fragment_constants@) == Ok::<
                    Seq<FrameStepView>,
                    SurfaceError,
                >(views(steps@)),
                Err(e) => self@.frame(acquired, fragment_constants@) == Err::<
                    Seq<FrameStepView>,
                    SurfaceError,
                >(e),
            },
    {
        match self {
            App::Builder(_) => {
                let steps: Vec<FrameStep> = Vec::new();
                assert(views(steps@) =~= Seq::<FrameStepView>::empty());
                Ok(steps)
            },
            App::Graphics(gfx) => gfx.rpass.render(acquired, &gfx.surface, fragment_constants),
        }
    }

    /// Describes the overlay pass of a frame, once the graphics are there.
    pub fn render_ui(&self, update_textures: &[TextureId], free_textures: &[TextureId]) -> (pass:
        Option<UiPass>)
        ensures
            match self@ {
                AppView::Builder(_) => pass is None,
                AppView::Graphics(gfx) => {
                    &&& pass matches Some(p)
                    &&& p@ == ui_pass(gfx.surface, update_textures@, free_textures@)
                },
            },
    {
        match self {
            App::Builder(_) => None,
            App::Graphics(gfx) => Some(
                gfx.rpass.render_ui(&gfx.surface, update_textures, free_textures),
            ),
        }
    }

    /// What the host is to run for one redraw: the rounds of pre-update and
    /// compute, then, once the graphics are there, the rendering of a frame.
    pub fn update_and_render(&self, iterations: u32) -> (redraw: Redraw)
        ensures
            redraw == (Redraw { rounds: self@.rounds(iterations), render: self@ is Graphics }),
    {
        Redraw { rounds: self.update(iterations), render: self.is_initialized() }
    }

    /// Whether an event that the control panel reports as consumed is kept
    /// from the application. Before the graphics are there, there is no
    /// control panel and no event is kept.
    pub fn ui_consumes_event(&self, consumed: bool) -> (kept: bool)
        ensures
            kept == self@.ui_consumes(consumed),
    {
        self.is_initialized() && consumed
    }

    /// Remakes the pipelines from a new shader binary, where the environment
    /// can load one and the graphics are there, and tells whether it did. A
    /// binary that cannot be framed is reported and changes nothing.
    pub fn new_module(&mut self, shader: &[u8]) -> (result: Result<bool, ShaderError>)
        ensures
            match result {
                Ok(replaced) => {
                    &&& replaced == old(self)@.reloadable()
                    &&& replaced ==> framing_error(shader@) is None
                    &&& final(self)@ == if replaced {
                        old(self)@.with_module(spirv_words(shader@))
                    } else {
                        old(self)@
                    }
                },
                Err(e) => {
                    &&& old(self)@.reloadable()
                    &&& framing_error(shader@) == Some(e)
                    &&& final(self)@ == old(self)@
                },
            },
    {
        match self {
            App::Builder(_) => Ok(false),
            App::Graphics(gfx) => {
                if gfx.rpass.settings().capabilities.supports_runtime_shader_path {
                    match gfx.rpass.new_module(shader) {
                        Ok(()) => Ok(true),
                        Err(e) => Err(e),
                    }
                } else {
                    Ok(false)
                }
            },
        }
    }

    /// Describes the pipelines the application would have with a new shader
    /// binary, without taking them up, where the environment can load one and
    /// the graphics are there; else there is nothing to describe. A binary
    /// that cannot be framed is reported.
    pub fn plan_module(&self, shader: &[u8]) -> (result: Result<Option<PipelineSet>, ShaderError>)
        ensures
            match result {
                Ok(Some(set)) => {
                    &&& self@.reloadable()
                    &&& framing_error(shader@) is None
                    &&& self@ matches AppView::Graphics(gfx)
                    &&& set@ == gfx.rpass.with_module(spirv_words(shader@)).pipelines
                },
                Ok(None) => !self@.reloadable(),
                Err(e) => self@.reloadable() && framing_error(shader@) == Some(e),
            },
    {
        match self {
            App::Builder(_) => Ok(None),
            App::Graphics(gfx) => {
                if gfx.rpass.settings().capabilities.supports_runtime_shader_path {
                    match gfx.rpass.plan_module(shader) {
                        Ok(set) => Ok(Some(set)),
                        Err(e) => Err(e),
                    }
                } else {
                    Ok(None)
                }
            },
        }
    }

    /// Settles what becomes of planned pipelines once the device was asked to
    /// create them. Accepted, they replace the pipelines in use and a redraw
    /// is asked for; rejected, the pipelines in use stay and nothing else
    /// changes either. Before the graphics are there nothing happens.
    pub fn adopt_module(&mut self, set: PipelineSet, accepted: bool) -> (action: UserAction)
        requires
            old(self)@ matches AppView::Graphics(gfx) ==> set@ == gfx.rpass.with_module(
                set@.module,
            ).pipelines,
        ensures
            final(self)@ == if accepted {
                old(self)@.with_module(set@.module)
            } else {
                old(self)@
            },
            action == if accepted && old(self)@ is Graphics {
                UserAction::RequestRedraw
            } else {
                UserAction::Nothing
            },
    {
        match self {
            App::Builder(_) => UserAction::Nothing,
            App::Graphics(gfx) => {
                gfx.rpass.adopt_module(set, accepted);
                if accepted {
                    UserAction::RequestRedraw
                } else {
                    UserAction::Nothing
                }
            },
        }
    }

    /// Selects the presentation mode for a vsync setting, where the
    /// environment lets it be chosen and the graphics are there, and tells
    /// whether it did. The mode takes effect with the next configuration of
    /// the surface.
    pub fn set_vsync(&mut self, enable: bool) -> (applied: bool)
        ensures
            applied == old(self)@.reloadable(),
            final(self)@ == old(self)@.with_vsync(enable),
    {
        match self {
            App::Builder(_) => false,
            App::Graphics(gfx) => {
                if gfx.rpass.settings().capabilities.supports_runtime_shader_path {
                    gfx.surface.set_vsync(enable);
                    true
                } else {
                    false
                }
            },
        }
    }

    /// Takes a window event, after the control panel was offered it, and
    /// tells the host what to do.
    pub fn window_event(&mut self, consumed: bool, event: WindowEvent) -> (action: WindowAction)
        ensures
            action == old(self)@.window_action(consumed, event),
            final(self)@ == old(self)@.after_window_event(consumed, event),
    {
        if self.ui_consumes_event(consumed) {
            return WindowAction::Nothing;
        }
        match event {
            WindowEvent::RedrawRequested => WindowAction::Redraw,
            WindowEvent::CloseRequested => WindowAction::Exit,
            WindowEvent::KeyboardInput { pressed, escape } => {
                if pressed && escape {
                    WindowAction::Exit
                } else if self.keyboard_input() {
                    WindowAction::Forward
                } else {
                    WindowAction::Nothing
                }
            },
            WindowEvent::Resized { width, height } => {
                let initialized = self.is_initialized();
                let configure = self.resize(width, height);
                if initialized {
                    WindowAction::Resized { configure }
                } else {
                    WindowAction::Nothing
                }
            },
            WindowEvent::MouseInput => if self.mouse_input() {
                WindowAction::Forward
            } else {
                WindowAction::Nothing
            },
            WindowEvent::MouseWheel => if self.mouse_scroll() {
                WindowAction::Forward
            } else {
                WindowAction::Nothing
            },
            WindowEvent::CursorMoved => if self.mouse_move() {
                WindowAction::Forward
            } else {
                WindowAction::Nothing
            },
            WindowEvent::Other => WindowAction::Nothing,
        }
    }

    /// Takes an event the application sent to itself. Arrived graphics replace
    /// whatever state there was and ask for a first redraw; a new shader
    /// binary and a vsync setting are handled as [`App::new_module`] and
    /// [`App::set_vsync`] say.
    pub fn user_event(&mut self, event: UserEvent) -> (action: UserAction)
        ensures
            match event {
                UserEvent::CreateWindow(gfx) => {
                    &&& action == UserAction::RequestRedraw
                    &&& final(self)@ == AppView::Graphics(gfx@)
                },
                UserEvent::NewModule(shader) => {
                    if !old(self)@.reloadable() {
                        action == UserAction::Nothing && final(self)@ == old(self)@
                    } else {
                        match framing_error(shader@) {
                            None => {
                                &&& action == UserAction::RequestRedraw
                                &&& final(self)@ == old(self)@.with_module(spirv_words(shader@))
                            },
                            Some(e) => {
                                &&& action == UserAction::ShaderRejected(e)
                                &&& final(self)@ == old(self)@
                            },
                        }
                    }
                },
                UserEvent::SetVSync(enable) => {
                    &&& action == UserAction::Nothing
                    &&& final(self)@ == old(self)@.with_vsync(enable)
                },
            },
    {
        match event {
            UserEvent::CreateWindow(gfx) => {
                *self = App::Graphics(gfx);
                UserAction::RequestRedraw
            },
            UserEvent::NewModule(shader) => match self.new_module(shader.as_slice()) {
                Ok(true) => UserAction::RequestRedraw,
                Ok(false) => UserAction::Nothing,
                Err(e) => UserAction::ShaderRejected(e),
            },
            UserEvent::SetVSync(enable) => {
                self.set_vsync(enable);
                UserAction::Nothing
            },
        }
    }
}

} // verus!
