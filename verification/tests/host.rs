use enkel::device::{BindGroupLayoutHandle, DeviceHandle, QueueHandle, State, SurfaceSize};
use enkel::game::{
    ElementState, GameContext, GameHost, GameHostBuilder, HostAction, HostEvent, HostState,
    WindowEvent,
};
use enkel::game_time::GameTime;
use enkel::graphics_context::{find_sdl_gl_driver, GraphicsContext, Resolution, WindowMode};
use enkel::input::input_system::{AxisBinding, AxisBindingDefinition, AxisDefinition};
use enkel::input::keyboard::KeyCode;
use enkel::model::assimp_loader::{AssimpModelLoader, KnownLoader};
use enkel::model::import::ImportAction;
use enkel::types::Sentinel;

fn device() -> State {
    State::new(
        DeviceHandle { id: 1 },
        QueueHandle { id: 2 },
        BindGroupLayoutHandle { id: 3 },
        SurfaceSize { width: 800, height: 600 },
    )
}

fn running_host() -> (GameHost, GameContext) {
    let mut host = GameHostBuilder::new().build().unwrap();
    let context = host.begin(device(), 1_000).unwrap();
    (host, context)
}

fn window(event: WindowEvent) -> HostEvent {
    HostEvent::WindowEvent { event, consumed: false }
}

fn key_event(state: ElementState, code: u32) -> HostEvent {
    window(WindowEvent::KeyboardInput { state, virtual_keycode: Some(KeyCode::new(code)) })
}

fn with_axis(context: &mut GameContext) {
    context.input().create_axis(AxisDefinition {
        name: "forward_movement",
        bindings: vec![AxisBindingDefinition {
            scale: 1,
            binding: AxisBinding::Keyboard(KeyCode::new(30)),
        }],
    });
}

#[test]
fn built_host_is_constructing() {
    let host = GameHostBuilder::new().build().unwrap();
    assert_eq!(host.state(), HostState::Constructing);
}

#[test]
fn builder_defaults_to_the_root_as_content_path() {
    let mut host = GameHostBuilder::new().build().unwrap();
    let context = host.begin(device(), 0).unwrap();
    assert_eq!(context.content().resolve("apple.obj"), "/apple.obj");
}

#[test]
fn relative_content_path_is_taken_from_the_working_directory() {
    let mut builder = GameHostBuilder::new();
    builder.with_content_path("res", "/home/game").with_name("Test game");
    let mut host = builder.build().unwrap();
    let context = host.begin(device(), 0).unwrap();
    assert_eq!(context.content().resolve("apple/apple.obj"), "/home/game/res/apple/apple.obj");
}

#[test]
fn absolute_content_path_is_taken_as_it_is() {
    let mut builder = GameHostBuilder::new();
    builder.with_name("Test game").with_content_path("/opt/content", "/home/game");
    let mut host = builder.build().unwrap();
    let context = host.begin(device(), 0).unwrap();
    assert_eq!(context.content().resolve("apple.obj"), "/opt/content/apple.obj");
}

#[test]
fn begin_starts_the_run_once() {
    let mut host = GameHostBuilder::new().build().unwrap();
    let context = host.begin(device(), 5).unwrap();
    assert_eq!(host.state(), HostState::Running);
    assert_eq!(context.device(), device());
    assert!(host.begin(device(), 6).is_none());
    assert_eq!(host.state(), HostState::Running);
}

#[test]
fn context_starts_with_the_assimp_loader() {
    let (_, context) = running_host();
    let import = context.content().load_model("apple.obj", true).unwrap();
    match import.request() {
        ImportAction::ReadScene { path, post_process } => {
            assert_eq!(path, "/apple.obj");
            assert_eq!(post_process, AssimpModelLoader::new().post_process());
        }
        other => panic!("unexpected request {:?}", other),
    }
}

#[test]
fn registered_loaders_are_tried_in_order() {
    let (_, mut context) = running_host();
    context.register_model_loader(KnownLoader::Assimp(AssimpModelLoader::new().with_uv_generation(true)));
    assert_eq!(context.content().select_loader("apple.obj"), Some(0));
    context.update();
}

#[test]
fn context_created_directly() {
    let mut context = GameContext::create("My_name", "/content".to_string(), device()).unwrap();
    assert_eq!(context.device(), device());
    assert_eq!(context.content().resolve("a"), "/content/a");
    assert!(context.input().query_axis("anything").is_err());
}

#[test]
fn events_before_the_run_are_ignored() {
    let mut host = GameHostBuilder::new().build().unwrap();
    let mut context = GameContext::create("x", "/".to_string(), device()).unwrap();
    with_axis(&mut context);
    assert_eq!(host.on_event(&mut context, key_event(ElementState::Pressed, 30), 1), HostAction::Continue);
    assert_eq!(host.on_event(&mut context, HostEvent::MainEventsCleared, 2), HostAction::Continue);
    assert_eq!(host.on_event(&mut context, window(WindowEvent::CloseRequested), 3), HostAction::Continue);
    assert_eq!(host.state(), HostState::Constructing);
    assert_eq!(context.input().query_axis("forward_movement"), Ok(0));
}

#[test]
fn close_request_ends_the_run() {
    let (mut host, mut context) = running_host();
    assert_eq!(host.on_event(&mut context, window(WindowEvent::CloseRequested), 2_000), HostAction::Exit);
    assert_eq!(host.state(), HostState::ShuttingDown);
    host.finish();
    assert_eq!(host.state(), HostState::Terminated);
}

#[test]
fn escape_ends_the_run() {
    let (mut host, mut context) = running_host();
    assert_eq!(
        host.on_event(
            &mut context,
            window(WindowEvent::KeyboardInput {
                state: ElementState::Pressed,
                virtual_keycode: Some(KeyCode::escape()),
            }),
            2_000
        ),
        HostAction::Exit
    );
    assert_eq!(host.state(), HostState::ShuttingDown);
}

#[test]
fn device_loss_ends_the_run() {
    let (mut host, mut context) = running_host();
    assert_eq!(host.on_event(&mut context, HostEvent::DeviceLost, 2_000), HostAction::Exit);
    assert_eq!(host.state(), HostState::ShuttingDown);
}

#[test]
fn no_callbacks_after_shutdown() {
    let (mut host, mut context) = running_host();
    with_axis(&mut context);
    host.on_event(&mut context, window(WindowEvent::CloseRequested), 2_000);
    assert_eq!(host.on_event(&mut context, HostEvent::MainEventsCleared, 3_000), HostAction::Exit);
    assert_eq!(host.on_event(&mut context, HostEvent::RedrawRequested, 3_000), HostAction::Exit);
    assert_eq!(host.on_event(&mut context, key_event(ElementState::Pressed, 30), 3_000), HostAction::Exit);
    assert_eq!(
        host.on_event(&mut context, window(WindowEvent::Resized(SurfaceSize { width: 1, height: 2 })), 3_000),
        HostAction::Exit
    );
    assert_eq!(context.input().query_axis("forward_movement"), Ok(0));
    assert_eq!(context.device(), device());
    assert_eq!(host.state(), HostState::ShuttingDown);
    host.finish();
    assert_eq!(host.on_event(&mut context, HostEvent::MainEventsCleared, 4_000), HostAction::Exit);
    assert_eq!(host.state(), HostState::Terminated);
    assert!(host.begin(device(), 5_000).is_none());
}

#[test]
fn finish_only_terminates_a_host_that_is_shutting_down() {
    let mut host = GameHostBuilder::new().build().unwrap();
    host.finish();
    assert_eq!(host.state(), HostState::Constructing);
    let (mut host, _) = running_host();
    host.finish();
    assert_eq!(host.state(), HostState::Running);
}

#[test]
fn key_transitions_reach_the_input_system() {
    let (mut host, mut context) = running_host();
    with_axis(&mut context);
    assert_eq!(host.on_event(&mut context, key_event(ElementState::Pressed, 30), 2_000), HostAction::Continue);
    assert_eq!(context.input().query_axis("forward_movement"), Ok(1));
    assert_eq!(host.on_event(&mut context, key_event(ElementState::Pressed, 30), 2_001), HostAction::Continue);
    assert_eq!(context.input().query_axis("forward_movement"), Ok(1));
    assert_eq!(host.on_event(&mut context, key_event(ElementState::Released, 30), 2_002), HostAction::Continue);
    assert_eq!(context.input().query_axis("forward_movement"), Ok(0));
    assert_eq!(host.state(), HostState::Running);
}

#[test]
fn released_escape_ends_the_run() {
    let (mut host, mut context) = running_host();
    context.input().create_axis(AxisDefinition {
        name: "menu",
        bindings: vec![AxisBindingDefinition { scale: 1, binding: AxisBinding::Keyboard(KeyCode::escape()) }],
    });
    assert_eq!(
        host.on_event(&mut context, key_event(ElementState::Released, KeyCode::escape().code), 2_000),
        HostAction::Exit
    );
    assert_eq!(host.state(), HostState::ShuttingDown);
    assert_eq!(context.input().query_axis("menu"), Ok(0));
}

#[test]
fn escape_never_reaches_the_input_system() {
    for state in [ElementState::Pressed, ElementState::Released] {
        let (mut host, mut context) = running_host();
        context.input().create_axis(AxisDefinition {
            name: "menu",
            bindings: vec![
                AxisBindingDefinition { scale: 1, binding: AxisBinding::Keyboard(KeyCode::escape()) },
                AxisBindingDefinition { scale: 10, binding: AxisBinding::Keyboard(KeyCode::new(30)) },
            ],
        });
        host.on_event(&mut context, key_event(ElementState::Pressed, 30), 1_500);
        assert_eq!(context.input().query_axis("menu"), Ok(10));
        assert_eq!(host.on_event(&mut context, key_event(state, KeyCode::escape().code), 2_000), HostAction::Exit);
        assert_eq!(host.state(), HostState::ShuttingDown);
        assert_eq!(context.input().query_axis("menu"), Ok(10));
        assert_eq!(host.on_event(&mut context, HostEvent::MainEventsCleared, 3_000), HostAction::Exit);
        assert_eq!(host.on_event(&mut context, HostEvent::RedrawRequested, 3_000), HostAction::Exit);
    }
}

#[test]
fn unknown_keys_are_dropped() {
    let (mut host, mut context) = running_host();
    with_axis(&mut context);
    let event = window(WindowEvent::KeyboardInput { state: ElementState::Pressed, virtual_keycode: None });
    assert_eq!(host.on_event(&mut context, event, 2_000), HostAction::Continue);
    assert_eq!(context.input().query_axis("forward_movement"), Ok(0));
}

#[test]
fn events_taken_by_the_device_layer_are_not_dispatched() {
    let (mut host, mut context) = running_host();
    with_axis(&mut context);
    let taken = |event| HostEvent::WindowEvent { event, consumed: true };
    assert_eq!(host.on_event(&mut context, taken(WindowEvent::CloseRequested), 2_000), HostAction::Continue);
    assert_eq!(
        host.on_event(
            &mut context,
            taken(WindowEvent::KeyboardInput {
                state: ElementState::Pressed,
                virtual_keycode: Some(KeyCode::new(30)),
            }),
            2_000
        ),
        HostAction::Continue
    );
    assert_eq!(
        host.on_event(
            &mut context,
            taken(WindowEvent::KeyboardInput {
                state: ElementState::Pressed,
                virtual_keycode: Some(KeyCode::escape()),
            }),
            2_000
        ),
        HostAction::Continue
    );
    assert_eq!(
        host.on_event(&mut context, taken(WindowEvent::Resized(SurfaceSize { width: 1, height: 1 })), 2_000),
        HostAction::Continue
    );
    assert_eq!(host.state(), HostState::Running);
    assert_eq!(context.input().query_axis("forward_movement"), Ok(0));
    assert_eq!(context.device(), device());
}

#[test]
fn resize_reaches_the_device_state() {
    let (mut host, mut context) = running_host();
    let size = SurfaceSize { width: 1024, height: 768 };
    assert_eq!(host.on_event(&mut context, window(WindowEvent::Resized(size)), 2_000), HostAction::Resize(size));
    assert_eq!(context.device().size, size);
    assert_eq!(context.device().device, DeviceHandle { id: 1 });
    let scaled = SurfaceSize { width: 2048, height: 1536 };
    assert_eq!(
        host.on_event(&mut context, window(WindowEvent::ScaleFactorChanged { new_inner_size: scaled }), 2_000),
        HostAction::Resize(scaled)
    );
    assert_eq!(context.device().size, scaled);
    assert_eq!(host.state(), HostState::Running);
}

#[test]
fn frames_are_timed_from_the_start_and_from_the_frame_before() {
    let (mut host, mut context) = running_host();
    assert_eq!(
        host.on_event(&mut context, HostEvent::MainEventsCleared, 17_001_000),
        HostAction::Update(GameTime::new(17_000_000, 17_000_000))
    );
    assert_eq!(host.on_event(&mut context, HostEvent::RedrawRequested, 20_000_000), HostAction::Draw);
    assert_eq!(
        host.on_event(&mut context, HostEvent::MainEventsCleared, 50_001_999),
        HostAction::Update(GameTime::new(50_000_999, 33_000_999))
    );
    assert_eq!(
        host.on_event(&mut context, HostEvent::MainEventsCleared, 50_001_999),
        HostAction::Update(GameTime::new(50_000_999, 0))
    );
}

#[test]
fn clock_that_goes_back_gives_no_time() {
    let (mut host, mut context) = running_host();
    assert_eq!(
        host.on_event(&mut context, HostEvent::MainEventsCleared, 10),
        HostAction::Update(GameTime::new(0, 0))
    );
}

#[test]
fn other_events_change_nothing() {
    let (mut host, mut context) = running_host();
    assert_eq!(host.on_event(&mut context, HostEvent::Other, 2_000), HostAction::Continue);
    assert_eq!(host.on_event(&mut context, window(WindowEvent::Other), 2_000), HostAction::Continue);
    assert_eq!(host.state(), HostState::Running);
    assert_eq!(context.device(), device());
}

#[test]
fn game_time_keeps_its_durations() {
    let time = GameTime::new(5_000_000_000, 16_666_667);
    assert_eq!(time.game_duration(), 5_000_000_000);
    assert_eq!(time.frame_duration(), 16_666_667);
    assert_eq!(time.frame_millis(), 16_666);
    assert_eq!(GameTime::new(0, 999).frame_millis(), 0);
    assert_eq!(GameTime::new(0, 1_000).frame_millis(), 1);
    assert_eq!(GameTime::new(1, u128::MAX).frame_duration(), u128::MAX);
}

#[test]
fn device_state_records_a_new_size() {
    let mut state = device();
    state.resize(SurfaceSize { width: 0, height: 10 });
    assert_eq!(state.size, SurfaceSize { width: 0, height: 10 });
    assert_eq!(state.queue, QueueHandle { id: 2 });
    assert_eq!(state.texture_bind_group_layout, BindGroupLayoutHandle { id: 3 });
}

#[test]
fn sentinel_is_touched_by_a_different_value_only() {
    let mut sentinel = Sentinel::new(5u32);
    assert_eq!(*sentinel.get(), 5);
    assert!(!sentinel.touched());
    sentinel.set(5);
    assert!(!sentinel.touched());
    sentinel.set(6);
    assert_eq!(*sentinel.get(), 6);
    assert!(sentinel.touched());
    sentinel.set(6);
    assert!(sentinel.touched());
    sentinel.set(5);
    assert_eq!(*sentinel.get(), 5);
    assert!(sentinel.touched());
}

#[test]
fn graphics_context_marks_what_changed() {
    let mut graphics = GraphicsContext::new(800, 600, WindowMode::Windowed);
    assert_eq!(graphics.get_resolution(), Resolution { width: 800, height: 600 });
    assert_eq!(graphics.get_window_mode(), WindowMode::Windowed);
    graphics.set_resolution(800, 600);
    graphics.set_window_mode(WindowMode::Windowed);
    assert!(!graphics.resolution_changed());
    assert!(!graphics.window_mode_changed());
    graphics.set_window_mode(WindowMode::Fullscreen);
    assert!(graphics.window_mode_changed());
    assert!(!graphics.resolution_changed());
    assert_eq!(graphics.get_window_mode(), WindowMode::Fullscreen);
    graphics.set_resolution(800, 601);
    assert!(graphics.resolution_changed());
    assert_eq!(graphics.get_resolution(), Resolution { width: 800, height: 601 });
}

#[test]
fn opengl_driver_is_found_by_name() {
    let names = |list: &[&str]| list.iter().map(|name| name.to_string()).collect::<Vec<String>>();
    assert_eq!(find_sdl_gl_driver(&names(&["direct3d", "opengl", "opengles2", "opengl"])), Some(1));
    assert_eq!(find_sdl_gl_driver(&names(&["opengl"])), Some(0));
    assert_eq!(find_sdl_gl_driver(&names(&["opengles2", "software", "OpenGL"])), None);
    assert_eq!(find_sdl_gl_driver(&names(&[])), None);
}
