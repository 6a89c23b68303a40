use mandala::{Action, ContextState, Gestalt, GestaltConfig, Gpu, GpuError, Outcome, Resource, Step};

fn config() -> GestaltConfig {
    GestaltConfig { visible: false, enable_validation: true, portability: false }
}

/// Drives a context with a native layer that answers each step from a
/// script, and records the steps it was asked to perform.
fn drive(
    ctx: &mut Gestalt<u32>,
    mut answer: impl FnMut(Step) -> Outcome<u32>,
) -> (Result<(), (Vec<Resource>, GpuError)>, Vec<Step>) {
    let mut performed = Vec::new();
    let mut action = ctx.init();
    loop {
        match action {
            Action::Perform(step) => {
                performed.push(step);
                action = ctx.advance(answer(step));
            }
            Action::Ready => return (Ok(()), performed),
            Action::Abort { release, error } => return (Err((release, error)), performed),
        }
    }
}

fn healthy(devices: usize) -> impl FnMut(Step) -> Outcome<u32> {
    move |step| match step {
        Step::CreateWindow => Outcome::Window(7),
        Step::EnumerateDevices => Outcome::Devices(devices),
        _ => Outcome::Created,
    }
}

#[test]
fn init_with_three_devices_is_ready() {
    let mut ctx = Gestalt::new(config());
    assert_eq!(ctx.state(), ContextState::Uninitialized);
    let (result, performed) = drive(&mut ctx, healthy(3));
    assert!(result.is_ok());
    assert_eq!(
        performed,
        vec![
            Step::CreateWindow,
            Step::CreateInstance,
            Step::AttachMessenger,
            Step::CreateSurface,
            Step::EnumerateDevices
        ]
    );
    assert_eq!(ctx.state(), ContextState::Ready);
    assert_eq!(ctx.window(), Ok(&7));
    assert_eq!(ctx.failure(), None);
}

#[test]
fn init_with_no_devices_fails() {
    let mut ctx = Gestalt::new(config());
    let (result, _) = drive(&mut ctx, healthy(0));
    let (release, error) = result.unwrap_err();
    assert_eq!(error, GpuError::NoDevicesFoundError);
    assert_eq!(
        release,
        vec![Resource::Surface, Resource::Messenger, Resource::Instance, Resource::Window]
    );
    assert_eq!(ctx.state(), ContextState::Destroyed);
    assert_eq!(ctx.failure(), Some(GpuError::NoDevicesFoundError));
    assert_eq!(ctx.window(), Err(GpuError::ContextDestroyed));
}

#[test]
fn missing_layer_stops_before_messenger_and_surface() {
    let mut ctx = Gestalt::new(config());
    let (result, performed) = drive(&mut ctx, |step| match step {
        Step::CreateWindow => Outcome::Window(1),
        Step::CreateInstance => Outcome::Failed,
        Step::EnumerateDevices => Outcome::Devices(3),
        _ => Outcome::Created,
    });
    let (release, error) = result.unwrap_err();
    assert_eq!(error, GpuError::InstanceCreationError);
    assert_eq!(release, vec![Resource::Window]);
    assert_eq!(performed, vec![Step::CreateWindow, Step::CreateInstance]);
    assert!(!performed.contains(&Step::AttachMessenger));
    assert!(!performed.contains(&Step::CreateSurface));
    assert_eq!(ctx.state(), ContextState::Destroyed);
}

#[test]
fn each_step_failure_has_its_error() {
    let cases = [
        (Step::CreateWindow, GpuError::PlatformWindowError, vec![]),
        (Step::CreateInstance, GpuError::InstanceCreationError, vec![Resource::Window]),
        (
            Step::AttachMessenger,
            GpuError::MessengerCreationError,
            vec![Resource::Instance, Resource::Window],
        ),
        (
            Step::CreateSurface,
            GpuError::SurfaceCreationError,
            vec![Resource::Messenger, Resource::Instance, Resource::Window],
        ),
    ];
    for (failing, expected, expected_release) in cases {
        let mut ctx = Gestalt::new(config());
        let mut answer = healthy(2);
        let (result, _) = drive(&mut ctx, |step| {
            if step == failing {
                Outcome::Failed
            } else {
                answer(step)
            }
        });
        let (release, error) = result.unwrap_err();
        assert_eq!(error, expected);
        assert_eq!(release, expected_release);
        assert_eq!(ctx.state(), ContextState::Destroyed);
    }
}

#[test]
fn unavailable_handles_at_surface() {
    let mut ctx = Gestalt::new(config());
    let mut answer = healthy(2);
    let (result, performed) = drive(&mut ctx, |step| {
        if step == Step::CreateSurface {
            Outcome::HandlesUnavailable
        } else {
            answer(step)
        }
    });
    let (release, error) = result.unwrap_err();
    assert_eq!(error, GpuError::SurfaceCreationError);
    assert_eq!(release, vec![Resource::Messenger, Resource::Instance, Resource::Window]);
    assert!(!performed.contains(&Step::EnumerateDevices));
}

#[test]
fn unavailable_handles_at_instance() {
    let mut ctx = Gestalt::new(config());
    let mut answer = healthy(2);
    let (result, performed) = drive(&mut ctx, |step| {
        if step == Step::CreateInstance {
            Outcome::HandlesUnavailable
        } else {
            answer(step)
        }
    });
    let (release, error) = result.unwrap_err();
    assert_eq!(error, GpuError::HandleUnavailable);
    assert_eq!(release, vec![Resource::Window]);
    assert_eq!(performed, vec![Step::CreateWindow, Step::CreateInstance]);
}

#[test]
fn pending_steps_carry_their_data() {
    let portable = GestaltConfig { visible: true, enable_validation: false, portability: true };
    let mut ctx: Gestalt<u32> = Gestalt::new(portable);
    assert!(matches!(ctx.init(), Action::Perform(Step::CreateWindow)));
    assert!(matches!(ctx.advance(Outcome::Window(3)), Action::Perform(Step::CreateInstance)));
    let plan = ctx.instance_plan_for(vec!["VK_KHR_surface".to_string()]);
    assert_eq!(
        plan.extensions,
        vec![
            "VK_KHR_surface",
            "VK_EXT_debug_utils",
            "VK_KHR_portability_enumeration",
            "VK_KHR_get_physical_device_properties2"
        ]
    );
    assert!(plan.layers.is_empty());
    assert_eq!(plan.application_name, "Mandala");
    assert_eq!(plan.api_version, 0x403000);
    assert!(matches!(ctx.advance(Outcome::Created), Action::Perform(Step::AttachMessenger)));
    assert_eq!(ctx.messenger_masks(), (0x1110, 0x7));
}

#[test]
fn unexpected_outcome_fails_the_step() {
    let mut ctx = Gestalt::new(config());
    let (result, _) = drive(&mut ctx, |_| Outcome::Created);
    let (release, error) = result.unwrap_err();
    assert_eq!(error, GpuError::PlatformWindowError);
    assert!(release.is_empty());
}

#[test]
fn destroy_twice_releases_once() {
    let mut ctx = Gestalt::new(config());
    let (result, _) = drive(&mut ctx, healthy(1));
    assert!(result.is_ok());
    let first = ctx.destroy();
    assert_eq!(first.len(), 4);
    assert_eq!(ctx.state(), ContextState::Destroyed);
    let second = ctx.destroy();
    assert!(second.is_empty());
    assert_eq!(ctx.state(), ContextState::Destroyed);
}

#[test]
fn destroy_releases_surface_and_messenger_before_instance() {
    let mut ctx = Gestalt::new(config());
    let (result, _) = drive(&mut ctx, healthy(3));
    assert!(result.is_ok());
    let creation = [Resource::Window, Resource::Instance, Resource::Messenger, Resource::Surface];
    let released = ctx.destroy();
    let mut reversed = creation.to_vec();
    reversed.reverse();
    assert_eq!(released, reversed);
    let at = |r: Resource| released.iter().position(|x| *x == r).unwrap();
    assert!(at(Resource::Surface) < at(Resource::Instance));
    assert!(at(Resource::Messenger) < at(Resource::Instance));
    assert_eq!(ctx.window(), Err(GpuError::ContextDestroyed));
}

#[test]
fn window_before_ready_is_unavailable() {
    let mut ctx: Gestalt<u32> = Gestalt::new(config());
    assert_eq!(ctx.window(), Err(GpuError::HandleUnavailable));
    let first = ctx.init();
    assert!(matches!(first, Action::Perform(Step::CreateWindow)));
    assert_eq!(ctx.state(), ContextState::Initializing);
    let next = ctx.advance(Outcome::Window(5));
    assert!(matches!(next, Action::Perform(Step::CreateInstance)));
    assert_eq!(ctx.window(), Err(GpuError::HandleUnavailable));
    let release = ctx.destroy();
    assert_eq!(release, vec![Resource::Window]);
}

#[test]
fn destroy_before_init_releases_nothing() {
    let mut ctx: Gestalt<u32> = Gestalt::new(config());
    assert!(ctx.destroy().is_empty());
    assert_eq!(ctx.state(), ContextState::Destroyed);
    assert_eq!(ctx.config(), config());
}

#[test]
fn gpu_is_the_same_context() {
    let mut gpu: Gpu<u32> = Gpu::new(config());
    let (result, _) = drive(&mut gpu, healthy(2));
    assert!(result.is_ok());
    assert_eq!(gpu.window(), Ok(&7));
}
