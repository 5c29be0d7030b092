use graphics_env::builder::Action;
use graphics_env::builder::Backend;
use graphics_env::builder::PowerPreference;
use graphics_env::builder::Reply;
use graphics_env::builder::Stage;
use graphics_env::builder::WINDOW_HEIGHT;
use graphics_env::builder::WINDOW_WIDTH;
use graphics_env::env::Environment;
use graphics_env::env::WindowId;
use graphics_env::error::EnvError;
use graphics_env::surface::PhysicalSize;
use graphics_env::surface::PresentMode;
use graphics_env::surface::SurfaceCapabilities;
use graphics_env::surface::SurfaceConfig;
use graphics_env::surface::TextureUsages;
use wgpu::CompositeAlphaMode;
use wgpu::TextureFormat;

fn survey(width: u32, height: u32) -> Reply {
    Reply::Surveyed {
        capabilities: SurfaceCapabilities {
            formats: vec![TextureFormat::Bgra8Unorm, TextureFormat::Bgra8UnormSrgb],
            alpha_modes: vec![CompositeAlphaMode::Opaque, CompositeAlphaMode::Inherit],
        },
        size: PhysicalSize { width, height },
    }
}

fn expected_config(width: u32, height: u32) -> SurfaceConfig {
    SurfaceConfig {
        usage: TextureUsages {
            copy_src: false,
            copy_dst: false,
            texture_binding: false,
            storage_binding: false,
            render_attachment: true,
        },
        format: TextureFormat::Bgra8UnormSrgb,
        width,
        height,
        present_mode: PresentMode::AutoNoVsync,
        alpha_mode: CompositeAlphaMode::Opaque,
    }
}

fn advance(stage: Stage, replies: Vec<Reply>) -> (Stage, Vec<Action>) {
    let mut stage = stage;
    let mut actions = vec![stage.action()];
    for reply in replies {
        assert!(stage.accepts(&reply));
        let (next, action) = stage.step(reply);
        stage = next;
        actions.push(action);
    }
    (stage, actions)
}

#[test]
fn window_is_asked_for_at_sixteen_hundred_by_nine_hundred() {
    assert_eq!(WINDOW_WIDTH, 1600);
    assert_eq!(WINDOW_HEIGHT, 900);
    let stage = Stage::begin();
    assert_eq!(stage, Stage::AwaitingWindow);
    assert_eq!(stage.action(), Action::CreateWindow { width: 1600, height: 900 });
}

#[test]
fn negotiation_requests_every_step_in_order() {
    let window = WindowId(7);
    let (stage, actions) = advance(
        Stage::begin(),
        vec![
            Reply::WindowCreated(window),
            Reply::InstanceCreated,
            Reply::SurfaceCreated,
            Reply::AdapterFound,
            Reply::DeviceGranted,
            survey(1600, 900),
            Reply::SurfaceConfigured,
        ],
    );
    let env = Environment { config: expected_config(1600, 900), window };
    assert_eq!(stage, Stage::Ready(env));
    assert_eq!(
        actions,
        vec![
            Action::CreateWindow { width: 1600, height: 900 },
            Action::CreateInstance { backend: Backend::Vulkan },
            Action::CreateSurface,
            Action::RequestAdapter {
                power_preference: PowerPreference::HighPerformance,
                force_fallback_adapter: false,
                compatible_with_surface: true,
            },
            Action::RequestDevice,
            Action::QuerySurface,
            Action::ConfigureSurface(expected_config(1600, 900)),
            Action::Finish(env),
        ]
    );
}

#[test]
fn configuration_takes_the_measured_size_not_the_requested_one() {
    let window = WindowId(1);
    let (stage, actions) = advance(
        Stage::AwaitingSurvey(window),
        vec![survey(3200, 1800)],
    );
    let env = Environment { config: expected_config(3200, 1800), window };
    assert_eq!(stage, Stage::AwaitingConfiguration(env));
    assert_eq!(actions[1], Action::ConfigureSurface(expected_config(3200, 1800)));
    assert_eq!(env.config.width, 3200);
    assert_eq!(env.config.height, 1800);
}

#[test]
fn configuration_follows_a_shrunken_window() {
    let (stage, _) = advance(Stage::AwaitingSurvey(WindowId(1)), vec![survey(1599, 873)]);
    match stage {
        Stage::AwaitingConfiguration(env) => {
            assert_eq!((env.config.width, env.config.height), (1599, 873));
        }
        _ => panic!("the survey settles the configuration"),
    }
}

#[test]
fn refused_window_fails_the_negotiation() {
    let (stage, actions) = advance(Stage::begin(), vec![Reply::WindowRefused]);
    assert_eq!(stage, Stage::Failed(EnvError::WindowCreationFailed));
    assert_eq!(actions[1], Action::Abort(EnvError::WindowCreationFailed));
}

#[test]
fn refused_surface_fails_the_negotiation() {
    let (stage, actions) = advance(
        Stage::begin(),
        vec![Reply::WindowCreated(WindowId(3)), Reply::InstanceCreated, Reply::SurfaceRefused],
    );
    assert_eq!(stage, Stage::Failed(EnvError::SurfaceCreationFailed));
    assert_eq!(actions[3], Action::Abort(EnvError::SurfaceCreationFailed));
}

#[test]
fn missing_adapter_fails_without_a_device_request() {
    let (stage, actions) = advance(
        Stage::begin(),
        vec![
            Reply::WindowCreated(WindowId(3)),
            Reply::InstanceCreated,
            Reply::SurfaceCreated,
            Reply::NoAdapter,
        ],
    );
    assert_eq!(stage, Stage::Failed(EnvError::NoCompatibleAdapter));
    assert_eq!(actions.len(), 5);
    assert_eq!(actions[4], Action::Abort(EnvError::NoCompatibleAdapter));
    assert!(!actions.contains(&Action::RequestDevice));
    assert!(!stage.accepts(&Reply::DeviceGranted));
    assert!(!stage.accepts(&Reply::AdapterFound));
    assert_eq!(stage.action(), Action::Abort(EnvError::NoCompatibleAdapter));
}

#[test]
fn missing_adapter_reports_the_same_error_every_time() {
    let first = Stage::AwaitingAdapter(WindowId(9)).step(Reply::NoAdapter);
    let second = Stage::AwaitingAdapter(WindowId(9)).step(Reply::NoAdapter);
    assert_eq!(first, second);
    assert_eq!(first.0, Stage::Failed(EnvError::NoCompatibleAdapter));
}

#[test]
fn refused_device_fails_the_negotiation() {
    let (stage, actions) = advance(
        Stage::begin(),
        vec![
            Reply::WindowCreated(WindowId(3)),
            Reply::InstanceCreated,
            Reply::SurfaceCreated,
            Reply::AdapterFound,
            Reply::DeviceRefused,
        ],
    );
    assert_eq!(stage, Stage::Failed(EnvError::DeviceRequestFailed));
    assert_eq!(actions[5], Action::Abort(EnvError::DeviceRequestFailed));
}

#[test]
fn replies_out_of_turn_are_not_accepted() {
    let window = WindowId(2);
    assert!(!Stage::AwaitingWindow.accepts(&Reply::InstanceCreated));
    assert!(!Stage::AwaitingWindow.accepts(&Reply::NoAdapter));
    assert!(!Stage::AwaitingInstance(window).accepts(&Reply::WindowCreated(window)));
    assert!(!Stage::AwaitingSurface(window).accepts(&Reply::AdapterFound));
    assert!(!Stage::AwaitingAdapter(window).accepts(&Reply::DeviceGranted));
    assert!(!Stage::AwaitingDevice(window).accepts(&Reply::AdapterFound));
    assert!(!Stage::AwaitingSurvey(window).accepts(&Reply::SurfaceConfigured));
    assert!(Stage::AwaitingSurvey(window).accepts(&survey(10, 10)));
}

#[test]
fn survey_without_formats_or_alpha_modes_is_not_accepted() {
    let stage = Stage::AwaitingSurvey(WindowId(2));
    let no_formats = Reply::Surveyed {
        capabilities: SurfaceCapabilities {
            formats: vec![],
            alpha_modes: vec![CompositeAlphaMode::Opaque],
        },
        size: PhysicalSize { width: 1600, height: 900 },
    };
    let no_alpha_modes = Reply::Surveyed {
        capabilities: SurfaceCapabilities {
            formats: vec![TextureFormat::Bgra8Unorm],
            alpha_modes: vec![],
        },
        size: PhysicalSize { width: 1600, height: 900 },
    };
    assert!(!stage.accepts(&no_formats));
    assert!(!stage.accepts(&no_alpha_modes));
}

#[test]
fn finished_negotiation_accepts_nothing_more() {
    let env = Environment { config: expected_config(1600, 900), window: WindowId(5) };
    let ready = Stage::Ready(env);
    assert_eq!(ready.action(), Action::Finish(env));
    assert!(!ready.accepts(&Reply::SurfaceConfigured));
    assert!(!ready.accepts(&Reply::WindowCreated(WindowId(5))));
    let failed = Stage::Failed(EnvError::DeviceRequestFailed);
    assert!(!failed.accepts(&Reply::DeviceGranted));
    assert!(!failed.accepts(&Reply::WindowRefused));
}

#[test]
fn environment_is_settled_from_the_survey() {
    let capabilities = SurfaceCapabilities {
        formats: vec![TextureFormat::Rgba8Unorm, TextureFormat::Rgba8UnormSrgb],
        alpha_modes: vec![CompositeAlphaMode::PostMultiplied],
    };
    let env = Environment::new(
        WindowId(11),
        &capabilities,
        PhysicalSize { width: 800, height: 600 },
    );
    assert_eq!(env.window, WindowId(11));
    assert_eq!(env.config.format, TextureFormat::Rgba8UnormSrgb);
    assert_eq!(env.config.alpha_mode, CompositeAlphaMode::PostMultiplied);
    assert_eq!(env.config.present_mode, PresentMode::AutoNoVsync);
    assert_eq!((env.config.width, env.config.height), (800, 600));
    assert!(env.config.usage.render_attachment);
    assert!(!env.config.usage.copy_src);
}
