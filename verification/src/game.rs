//! The host of a game: how it is configured, what it keeps for the run, and
//! what each event of the frame loop leads to.

use crate::content_loader::ContentLoader;
use crate::device::{State, SurfaceSize};
use crate::game_time::GameTime;
use crate::input::input_system::{key_changed, AxisState, InputSystem, KeyTransition};
use crate::input::keyboard::{KeyCode, KEY_ESCAPE};
use crate::model::assimp_loader::{AssimpModelLoader, KnownLoader};
use crate::paths::{join, joined};
use vstd::prelude::*;

verus! {

/// The name of a game that was given none.
pub const DEFAULT_NAME: &'static str = "My Game!";

/// The content path of a game that was given none.
pub const DEFAULT_CONTENT_PATH: &'static str = "/";

/// What a game works with for the length of a run: the input system, the
/// state of the device, the base path of its content and the loaders.
pub struct GameContext {
    name: String,
    base_path: String,
    input_system: InputSystem,
    device_state: State,
    model_loaders: Vec<KnownLoader>,
}

impl GameContext {
    /// The name of the game.
    pub closed spec fn name(&self) -> Seq<char> {
        self.name@
    }

    /// The path that content is resolved against.
    pub closed spec fn base_path(&self) -> Seq<char> {
        self.base_path@
    }

    /// The registered axes and their state.
    pub closed spec fn axes(&self) -> Map<Seq<char>, AxisState> {
        self.input_system@
    }

    /// What is known of the device.
    pub closed spec fn device_state(&self) -> State {
        self.device_state
    }

    /// The loaders, in the order in which they are tried.
    pub closed spec fn model_loaders(&self) -> Seq<KnownLoader> {
        self.model_loaders@
    }

    /// The context of a run: no axis yet, and the Assimp loader as the only
    /// loader.
    pub fn create(name: &str, base_path: String, device_state: State) -> (result: Result<Self, String>)
        ensures
            match result {
                Ok(context) => {
                    &&& context.name() == name@
                    &&& context.base_path() == base_path@
                    &&& context.axes() == Map::<Seq<char>, AxisState>::empty()
                    &&& context.device_state() == device_state
                    &&& context.model_loaders().len() == 1
                    &&& context.model_loaders()[0] matches KnownLoader::Assimp(loader)
                    &&& !loader.generates_uv_coords()
                },
                Err(_) => false,
            },
    {
        let input_system = InputSystem::new();
        let mut model_loaders: Vec<KnownLoader> = Vec::new();
        model_loaders.push(KnownLoader::Assimp(AssimpModelLoader::new()));
        Ok(
            GameContext {
                name: String::from_str(name),
                base_path,
                input_system,
                device_state,
                model_loaders,
            },
        )
    }

    /// The input system, to register axes and to query them.
    pub fn input(&mut self) -> (input: &mut InputSystem)
        ensures
            input@ == old(self).axes(),
            final(self).axes() == final(input)@,
            final(self).name() == old(self).name(),
            final(self).base_path() == old(self).base_path(),
            final(self).device_state() == old(self).device_state(),
            final(self).model_loaders() == old(self).model_loaders(),
    {
        &mut self.input_system
    }

    /// A content loader over the base path, the loaders and the device of
    /// this context.
    pub fn content(&self) -> (loader: ContentLoader<'_, KnownLoader>)
        ensures
            loader.base_path() == self.base_path(),
            loader.model_loaders() == self.model_loaders(),
            loader.device() == self.device_state().device,
            loader.queue() == self.device_state().queue,
            loader.layout() == self.device_state().texture_bind_group_layout,
    {
        ContentLoader::new(
            self.base_path.clone(),
            &self.model_loaders,
            self.device_state.device,
            self.device_state.queue,
            self.device_state.texture_bind_group_layout,
        )
    }

    /// Adds a loader, to be tried after those already there.
    pub fn register_model_loader(&mut self, loader: KnownLoader)
        ensures
            final(self).model_loaders() == old(self).model_loaders().push(loader),
            final(self).name() == old(self).name(),
            final(self).base_path() == old(self).base_path(),
            final(self).axes() == old(self).axes(),
            final(self).device_state() == old(self).device_state(),
    {
        self.model_loaders.push(loader);
    }

    /// What is known of the device.
    pub fn device(&self) -> (state: State)
        ensures
            state == self.device_state(),
    {
        self.device_state
    }

    /// Nothing: the context has no work of its own between frames.
    pub fn update(&self) {
    }
}

/// Where a host is in its life.
#[derive(Clone, Copy, Debug, PartialEq, Eq, Structural)]
pub enum HostState {
    /// Built, and not yet begun.
    Constructing,
    /// In the frame loop.
    Running,
    /// Told to leave the frame loop.
    ShuttingDown,
    /// Out of the frame loop for good.
    Terminated,
}

/// Whether a key went down or up.
#[derive(Clone, Copy, Debug, PartialEq, Eq, Structural)]
pub enum ElementState {
    Pressed,
    Released,
}

/// An event of the window.
#[derive(Clone, Copy, Debug)]
pub enum WindowEvent {
    /// The user asked for the window to be closed.
    CloseRequested,
    /// The window has a new size.
    Resized(SurfaceSize),
    /// The scale of the window changed, and with it its size.
    ScaleFactorChanged { new_inner_size: SurfaceSize },
    /// A key went down or up; the key is given where it is known.
    KeyboardInput { state: ElementState, virtual_keycode: Option<KeyCode> },
    /// Any other event.
    Other,
}

/// An event of the frame loop.
#[derive(Clone, Copy, Debug)]
pub enum HostEvent {
    /// An event of the window. `consumed` says that the device layer has
    /// taken the event for itself.
    WindowEvent { event: WindowEvent, consumed: bool },
    /// No more events are pending.
    MainEventsCleared,
    /// The window is to be drawn.
    RedrawRequested,
    /// The device is lost for good.
    DeviceLost,
    /// Any other event.
    Other,
}

/// What the frame loop is to do after an event.
#[derive(Clone, Copy, Debug, PartialEq, Eq, Structural)]
pub enum HostAction {
    /// Go on with the next event.
    Continue,
    /// Bring the surface to the new size of the device state.
    Resize(SurfaceSize),
    /// Update the game with the given timing, then ask for a redraw.
    Update(GameTime),
    /// Draw the game into the current frame and present it.
    Draw,
    /// Leave the frame loop.
    Exit,
}

/// The window event that a host event carries to the game, if any: one that
/// the device layer has not taken.
pub open spec fn dispatched(event: HostEvent) -> Option<WindowEvent> {
    match event {
        HostEvent::WindowEvent { event, consumed } => if consumed {
            None
        } else {
            Some(event)
        },
        _ => None,
    }
}

/// Whether a window event is a transition of the Escape key, down or up.
pub open spec fn is_escape_transition(event: WindowEvent) -> bool {
    match event {
        WindowEvent::KeyboardInput { virtual_keycode, .. } => virtual_keycode == Some(
            KeyCode { code: KEY_ESCAPE },
        ),
        _ => false,
    }
}

/// Whether an event ends the run: the window is closed, the Escape key goes
/// down or up, or the device is lost.
pub open spec fn ends_run(event: HostEvent) -> bool {
    match event {
        HostEvent::DeviceLost => true,
        _ => match dispatched(event) {
            Some(WindowEvent::CloseRequested) => true,
            Some(window_event) => is_escape_transition(window_event),
            None => false,
        },
    }
}

/// The key transition that an event hands to the input system, if any:
/// every transition of a known key other than Escape. No transition of
/// Escape reaches the input system.
pub open spec fn forwarded_key(event: HostEvent) -> Option<KeyTransition> {
    match dispatched(event) {
        Some(WindowEvent::KeyboardInput { state, virtual_keycode: Some(key) }) => if key.code
            == KEY_ESCAPE {
            None
        } else {
            Some(KeyTransition { key, down: state == ElementState::Pressed })
        },
        _ => None,
    }
}

/// The size that an event gives the surface, if any.
pub open spec fn new_size(event: HostEvent) -> Option<SurfaceSize> {
    match dispatched(event) {
        Some(WindowEvent::Resized(size)) => Some(size),
        Some(WindowEvent::ScaleFactorChanged { new_inner_size }) => Some(new_inner_size),
        _ => None,
    }
}

/// The time from one instant to a later one, and nothing if the second is
/// not later.
pub open spec fn elapsed(from: u128, now: u128) -> u128 {
    if now >= from {
        (now - from) as u128
    } else {
        0
    }
}

/// What a host is: where it is in its life, when it began, and when its
/// current frame began. Instants are in nanoseconds.
pub struct HostView {
    pub state: HostState,
    pub started: u128,
    pub frame_started: u128,
}

impl HostView {
    /// The host after an event at the instant `now`. Only a running host
    /// changes: an event that ends the run has it shut down, and the end of
    /// the pending events begins a new frame.
    pub open spec fn after(self, event: HostEvent, now: u128) -> HostView {
        if self.state != HostState::Running {
            self
        } else if ends_run(event) {
            HostView { state: HostState::ShuttingDown, ..self }
        } else if event is MainEventsCleared {
            HostView { frame_started: now, ..self }
        } else {
            self
        }
    }

    /// What the frame loop is to do after an event at the instant `now`.
    /// Only a running host has the game updated or drawn; a host that is
    /// shutting down or terminated has the loop left.
    pub open spec fn action(self, event: HostEvent, now: u128) -> HostAction {
        match self.state {
            HostState::Constructing => HostAction::Continue,
            HostState::ShuttingDown => HostAction::Exit,
            HostState::Terminated => HostAction::Exit,
            HostState::Running => if ends_run(event) {
                HostAction::Exit
            } else if new_size(event).is_some() {
                HostAction::Resize(new_size(event).unwrap())
            } else if event is MainEventsCleared {
                HostAction::Update(self.time_at(now))
            } else if event is RedrawRequested {
                HostAction::Draw
            } else {
                HostAction::Continue
            },
        }
    }

    /// The axes after an event: a running host forwards a key transition to
    /// every axis, once.
    pub open spec fn axes_after(self, axes: Map<Seq<char>, AxisState>, event: HostEvent) -> Map<
        Seq<char>,
        AxisState,
    > {
        if self.state == HostState::Running && !ends_run(event) && forwarded_key(event).is_some() {
            key_changed(axes, forwarded_key(event).unwrap().key, forwarded_key(event).unwrap().down)
        } else {
            axes
        }
    }

    /// The device state after an event: a running host records a new size.
    pub open spec fn device_after(self, device: State, event: HostEvent) -> State {
        if self.state == HostState::Running && !ends_run(event) && new_size(event).is_some() {
            State { size: new_size(event).unwrap(), ..device }
        } else {
            device
        }
    }

    /// The timing of the frame that begins at `now`: the time since the host
    /// began, and the time since the frame before began.
    pub open spec fn time_at(self, now: u128) -> GameTime {
        GameTime::of(elapsed(self.started, now), elapsed(self.frame_started, now))
    }
}

/// Hosts a game: keeps track of where the run is, and says what the frame
/// loop is to do after each event.
pub struct GameHost {
    state: HostState,
    name: String,
    base_path: String,
    started: u128,
    frame_started: u128,
}

impl View for GameHost {
    type V = HostView;

    closed spec fn view(&self) -> HostView {
        HostView { state: self.state, started: self.started, frame_started: self.frame_started }
    }
}

impl GameHost {
    /// The name of the game.
    pub closed spec fn name(&self) -> Seq<char> {
        self.name@
    }

    /// The path that the content of the game is resolved against.
    pub closed spec fn base_path(&self) -> Seq<char> {
        self.base_path@
    }

    /// Where the host is in its life.
    pub fn state(&self) -> (state: HostState)
        ensures
            state == self@.state,
    {
        self.state
    }

    /// Begins the run at the instant `now`, with the device in the given
    /// state: the clocks start, and the context of the run is made for the
    /// game to be constructed with. A host that has begun before does not
    /// begin again.
    pub fn begin(&mut self, device_state: State, now: u128) -> (context: Option<GameContext>)
        ensures
            final(self).name() == old(self).name(),
            final(self).base_path() == old(self).base_path(),
            old(self)@.state == HostState::Constructing ==> final(self)@ == (HostView {
                state: HostState::Running,
                started: now,
                frame_started: now,
            }),
            old(self)@.state != HostState::Constructing ==> final(self)@ == old(self)@
                && context.is_none(),
            old(self)@.state == HostState::Constructing ==> (match context {
                Some(context) => {
                    &&& context.name() == old(self).name()
                    &&& context.base_path() == old(self).base_path()
                    &&& context.axes() == Map::<Seq<char>, AxisState>::empty()
                    &&& context.device_state() == device_state
                    &&& context.model_loaders().len() == 1
                    &&& context.model_loaders()[0] matches KnownLoader::Assimp(loader)
                    &&& !loader.generates_uv_coords()
                },
                None => false,
            }),
    {
        match self.state {
            HostState::Constructing => {
                match GameContext::create(self.name.as_str(), self.base_path.clone(), device_state) {
                    Ok(context) => {
                        self.state = HostState::Running;
                        self.started = now;
                        self.frame_started = now;
                        Some(context)
                    },
                    Err(_) => None,
                }
            },
            _ => None,
        }
    }

    /// Takes one event of the frame loop, at the instant `now`, and says what
    /// the loop is to do. While the host runs: an event that ends the run (a
    /// close request, a transition of the Escape key, down or up, or the loss
    /// of the device) has it shut down; a new size goes to the device state;
    /// a transition of any other key goes to the input system, once; the end
    /// of the pending events begins a frame, for which the game is to be
    /// updated; a redraw request has it drawn. A host that does not run
    /// leaves the context alone.
    pub fn on_event(&mut self, context: &mut GameContext, event: HostEvent, now: u128) -> (action:
        HostAction)
        ensures
            final(self)@ == old(self)@.after(event, now),
            action == old(self)@.action(event, now),
            final(context).axes() == old(self)@.axes_after(old(context).axes(), event),
            final(context).device_state() == old(self)@.device_after(
                old(context).device_state(),
                event,
            ),
            final(context).name() == old(context).name(),
            final(context).base_path() == old(context).base_path(),
            final(context).model_loaders() == old(context).model_loaders(),
            final(self).name() == old(self).name(),
            final(self).base_path() == old(self).base_path(),
    {
        match self.state {
            HostState::Constructing => { return HostAction::Continue; },
            HostState::ShuttingDown => { return HostAction::Exit; },
            HostState::Terminated => { return HostAction::Exit; },
            HostState::Running => {},
        }
        match event {
            HostEvent::DeviceLost => {
                self.state = HostState::ShuttingDown;
                HostAction::Exit
            },
            HostEvent::MainEventsCleared => {
                let time = GameTime::new(
                    time_between(self.started, now),
                    time_between(self.frame_started, now),
                );
                self.frame_started = now;
                HostAction::Update(time)
            },
            HostEvent::RedrawRequested => HostAction::Draw,
            HostEvent::Other => HostAction::Continue,
            HostEvent::WindowEvent { event: window_event, consumed } => {
                if consumed {
                    return HostAction::Continue;
                }
                match window_event {
                    WindowEvent::CloseRequested => {
                        self.state = HostState::ShuttingDown;
                        HostAction::Exit
                    },
                    WindowEvent::Resized(size) => {
                        context.device_state.resize(size);
                        HostAction::Resize(size)
                    },
                    WindowEvent::ScaleFactorChanged { new_inner_size } => {
                        context.device_state.resize(new_inner_size);
                        HostAction::Resize(new_inner_size)
                    },
                    WindowEvent::KeyboardInput { state, virtual_keycode } => {
                        match virtual_keycode {
                            None => HostAction::Continue,
                            Some(keycode) => {
                                if keycode.is_escape() {
                                    self.state = HostState::ShuttingDown;
                                    HostAction::Exit
                                } else {
                                    match state {
                                        ElementState::Pressed => {
                                            context.input_system.on_key_down(keycode);
                                        },
                                        ElementState::Released => {
                                            context.input_system.on_key_up(keycode);
                                        },
                                    }
                                    HostAction::Continue
                                }
                            },
                        }
                    },
                    WindowEvent::Other => HostAction::Continue,
                }
            },
        }
    }

    /// Ends the run: a host that is shutting down is terminated. Any other
    /// host stays as it is.
    pub fn finish(&mut self)
        ensures
            final(self)@.state == (if old(self)@.state == HostState::ShuttingDown {
                HostState::Terminated
            } else {
                old(self)@.state
            }),
            final(self)@.started == old(self)@.started,
            final(self)@.frame_started == old(self)@.frame_started,
            final(self).name() == old(self).name(),
            final(self).base_path() == old(self).base_path(),
    {
        match self.state {
            HostState::ShuttingDown => {
                self.state = HostState::Terminated;
            },
            _ => {},
        }
    }
}

/// The time from one instant to a later one.
fn time_between(from: u128, now: u128) -> (nanos: u128)
    ensures
        nanos == elapsed(from, now),
{
    if now >= from {
        now - from
    } else {
        0
    }
}

/// Collects the name and the content path of a game, and builds its host.
pub struct GameHostBuilder {
    base_content_path: String,
    game_name: String,
}

impl GameHostBuilder {
    /// The name that the game will have.
    pub closed spec fn game_name(&self) -> Seq<char> {
        self.game_name@
    }

    /// The path that the content of the game will be resolved against.
    pub closed spec fn base_content_path(&self) -> Seq<char> {
        self.base_content_path@
    }

    /// A builder with the default name and the root as content path.
    pub fn new() -> (builder: Self)
        ensures
            builder.game_name() == DEFAULT_NAME@,
            builder.base_content_path() == DEFAULT_CONTENT_PATH@,
    {
        GameHostBuilder {
            base_content_path: String::from_str(DEFAULT_CONTENT_PATH),
            game_name: String::from_str(DEFAULT_NAME),
        }
    }

    /// Sets the name of the game.
    pub fn with_name(&mut self, name: &str) -> (builder: &mut Self)
        ensures
            builder.game_name() == name@,
            builder.base_content_path() == old(self).base_content_path(),
            *final(self) == *final(builder),
    {
        self.game_name = String::from_str(name);
        self
    }

    /// Sets the content path of the game. An absolute path is taken as it
    /// is; any other is taken from `current_dir`, the working directory.
    pub fn with_content_path(&mut self, path: &str, current_dir: &str) -> (builder: &mut Self)
        ensures
            builder.base_content_path() == joined(current_dir@, path@),
            builder.game_name() == old(self).game_name(),
            *final(self) == *final(builder),
    {
        self.base_content_path = join(current_dir, path);
        self
    }

    /// The host of the game, ready to begin.
    pub fn build(&self) -> (result: Result<GameHost, String>)
        ensures
            match result {
                Ok(host) => {
                    &&& host@.state == HostState::Constructing
                    &&& host.name() == self.game_name()
                    &&& host.base_path() == self.base_content_path()
                },
                Err(_) => false,
            },
    {
        Ok(
            GameHost {
                state: HostState::Constructing,
                name: self.game_name.clone(),
                base_path: self.base_content_path.clone(),
                started: 0,
                frame_started: 0,
            },
        )
    }
}

/// How far along its life a host is.
pub open spec fn stage(state: HostState) -> int {
    match state {
        HostState::Constructing => 0,
        HostState::Running => 1,
        HostState::ShuttingDown => 2,
        HostState::Terminated => 3,
    }
}

/// No event takes a host back in its life, and the game is updated or drawn
/// only while the host runs.
pub proof fn lemma_host_never_goes_back(host: HostView, event: HostEvent, now: u128)
    ensures
        stage(host.state) <= stage(host.after(event, now).state) <= stage(host.state) + 1,
        host.after(event, now).started == host.started,
        host.action(event, now) is Update || host.action(event, now) is Draw ==> host.state
            == HostState::Running && host.after(event, now).state == HostState::Running,
{
}

/// A host that has left the frame loop never has the game updated or drawn
/// again, and never runs again, whatever events follow.
pub proof fn lemma_no_callbacks_after_shutdown(host: HostView, event: HostEvent, now: u128)
    requires
        host.state == HostState::ShuttingDown || host.state == HostState::Terminated,
    ensures
        host.after(event, now) == host,
        host.action(event, now) == HostAction::Exit,
        forall|axes: Map<Seq<char>, AxisState>| #[trigger] host.axes_after(axes, event) == axes,
        forall|device: State| #[trigger] host.device_after(device, event) == device,
{
}

/// While the host runs, a transition of the Escape key that the device layer
/// has not taken ends the run, whether the key goes down or up: the host
/// shuts down, the loop is left, and neither the input system nor the device
/// state hears of it.
pub proof fn lemma_escape_ends_the_run(host: HostView, state: ElementState, now: u128)
    requires
        host.state == HostState::Running,
    ensures
        ({
            let event = HostEvent::WindowEvent {
                event: WindowEvent::KeyboardInput {
                    state,
                    virtual_keycode: Some(KeyCode { code: KEY_ESCAPE }),
                },
                consumed: false,
            };
            &&& ends_run(event)
            &&& forwarded_key(event).is_none()
            &&& host.after(event, now).state == HostState::ShuttingDown
            &&& host.action(event, now) == HostAction::Exit
            &&& forall|axes: Map<Seq<char>, AxisState>| #[trigger] host.axes_after(axes, event) == axes
            &&& forall|device: State| #[trigger] host.device_after(device, event) == device
        }),
{
}

/// While the host runs, an event either ends the run or leaves it running;
/// an event that ends the run reaches neither the input system nor the
/// device state, and an event that the device layer has taken reaches
/// nothing at all.
pub proof fn lemma_running_host(host: HostView, event: HostEvent, now: u128)
    requires
        host.state == HostState::Running,
    ensures
        ends_run(event) <==> host.after(event, now).state == HostState::ShuttingDown,
        !ends_run(event) <==> host.after(event, now).state == HostState::Running,
        ends_run(event) <==> host.action(event, now) == HostAction::Exit,
        ends_run(event) ==> forall|axes: Map<Seq<char>, AxisState>| #[trigger]
            host.axes_after(axes, event) == axes,
        ends_run(event) ==> forall|device: State| #[trigger] host.device_after(device, event) == device,
        event matches HostEvent::WindowEvent { consumed: true, .. } ==> {
            &&& host.after(event, now) == host
            &&& host.action(event, now) == HostAction::Continue
            &&& forall|axes: Map<Seq<char>, AxisState>| #[trigger] host.axes_after(axes, event) == axes
            &&& forall|device: State| #[trigger] host.device_after(device, event) == device
        },
{
}

} // verus!
