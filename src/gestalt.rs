use crate::diagnostics::{messenger_severity_mask, messenger_type_mask};
use crate::error::{GpuError, GpuResult};
use crate::instance::{
    added_extensions, enabled_layers, instance_plan, packed_version, texts, InstancePlan,
};
use vstd::prelude::*;

verus! {

/// The life cycle of a rendering context. `Uninitialized` is the only start
/// state and `Destroyed` is terminal.
#[derive(Debug, Clone, Copy, PartialEq, Eq, Structural)]
pub enum ContextState {
    Uninitialized,
    Initializing,
    Ready,
    Destroyed,
}

/// The native resources that a context owns.
#[derive(Debug, Clone, Copy, PartialEq, Eq, Structural)]
pub enum Resource {
    Window,
    Instance,
    Messenger,
    Surface,
}

/// The steps of initialization, in the order they are taken.
#[derive(Debug, Clone, Copy, PartialEq, Eq, Structural)]
pub enum Step {
    CreateWindow,
    CreateInstance,
    AttachMessenger,
    CreateSurface,
    EnumerateDevices,
}

/// How a context is brought up: whether its window is shown, whether the
/// validation layer is enabled, and whether the portability extensions that
/// some platforms need are requested.
#[derive(Debug, Clone, Copy, PartialEq, Eq, Structural)]
pub struct GestaltConfig {
    pub visible: bool,
    pub enable_validation: bool,
    pub portability: bool,
}

/// What the native layer reports after performing a step.
#[derive(Debug, Clone, Copy)]
pub enum Outcome<W> {
    /// The window was created; it is handed to the context.
    Window(W),
    /// The instance, messenger or surface was created.
    Created,
    /// Enumeration found this many physical devices.
    Devices(usize),
    /// The window's native handles were not available for the step.
    HandlesUnavailable,
    /// The native call for the step failed.
    Failed,
}

/// What the native layer is asked to do next.
#[derive(Debug, Clone)]
pub enum Action {
    /// Perform this step and report its outcome.
    Perform(Step),
    /// Initialization is complete.
    Ready,
    /// Initialization failed: release these resources, in this order, and
    /// report the error.
    Abort { release: Vec<Resource>, error: GpuError },
}

/// The mathematical form of an [`Action`].
pub enum ActionView {
    Perform(Step),
    Ready,
    Abort { release: Seq<Resource>, error: GpuError },
}

impl View for Action {
    type V = ActionView;

    open spec fn view(&self) -> ActionView {
        match self {
            Action::Perform(s) => ActionView::Perform(*s),
            Action::Ready => ActionView::Ready,
            Action::Abort { release, error } => ActionView::Abort { release: release@, error: *error },
        }
    }
}

/// The model of a context: its state, how many resources of the creation
/// order are alive, its window, its configuration and the failure that ended
/// its initialization, if any.
pub struct GestaltView<W> {
    pub state: ContextState,
    pub created: nat,
    pub window: Option<W>,
    pub config: GestaltConfig,
    pub failure: Option<GpuError>,
}

/// The order in which resources are created.
pub open spec fn creation_order() -> Seq<Resource> {
    seq![Resource::Window, Resource::Instance, Resource::Messenger, Resource::Surface]
}

/// The order in which a fully built context releases its resources.
pub open spec fn release_order() -> Seq<Resource> {
    seq![Resource::Surface, Resource::Messenger, Resource::Instance, Resource::Window]
}

/// The resources alive after the first `n` creation steps.
pub open spec fn live(n: nat) -> Seq<Resource> {
    creation_order().take(n as int)
}

/// The resources to release, in order, when `n` of them are alive.
pub open spec fn release_plan(n: nat) -> Seq<Resource> {
    release_order().skip(4 - n)
}

/// The step taken once `n` resources have been created.
pub open spec fn step_at(n: nat) -> Step {
    if n == 0 {
        Step::CreateWindow
    } else if n == 1 {
        Step::CreateInstance
    } else if n == 2 {
        Step::AttachMessenger
    } else if n == 3 {
        Step::CreateSurface
    } else {
        Step::EnumerateDevices
    }
}

/// The error that a failed step reports.
pub open spec fn step_error(s: Step) -> GpuError {
    match s {
        Step::CreateWindow => GpuError::PlatformWindowError,
        Step::CreateInstance => GpuError::InstanceCreationError,
        Step::AttachMessenger => GpuError::MessengerCreationError,
        Step::CreateSurface => GpuError::SurfaceCreationError,
        Step::EnumerateDevices => GpuError::NoDevicesFoundError,
    }
}

/// Whether an outcome is the success of a step.
pub open spec fn succeeds<W>(s: Step, o: Outcome<W>) -> bool {
    match s {
        Step::CreateWindow => o is Window,
        Step::EnumerateDevices => o is Devices && o->Devices_0 > 0,
        _ => o is Created,
    }
}

/// The error that ends initialization when a step does not succeed.
/// Unavailable window handles are reported as such, except at the surface
/// step, where they are one way for the surface to fail.
pub open spec fn failure_error<W>(s: Step, o: Outcome<W>) -> GpuError {
    if o is HandlesUnavailable && s != Step::CreateSurface {
        GpuError::HandleUnavailable
    } else {
        step_error(s)
    }
}

impl<W> GestaltView<W> {
    /// The relation between the state and the live resources.
    pub open spec fn wf(self) -> bool {
        &&& self.created <= 4
        &&& match self.state {
            ContextState::Uninitialized => self.created == 0 && self.window is None
                && self.failure is None,
            ContextState::Initializing => (self.window is Some <==> self.created >= 1)
                && self.failure is None,
            ContextState::Ready => self.created == 4 && self.window is Some && self.failure is None,
            ContextState::Destroyed => self.created == 0 && self.window is None,
        }
    }

    /// The context after reporting outcome `o` of the pending step.
    pub open spec fn next(self, o: Outcome<W>) -> GestaltView<W> {
        let s = step_at(self.created);
        if succeeds(s, o) {
            if self.created < 4 {
                GestaltView {
                    created: self.created + 1,
                    window: if s is CreateWindow {
                        Some(o->Window_0)
                    } else {
                        self.window
                    },
                    ..self
                }
            } else {
                GestaltView { state: ContextState::Ready, ..self }
            }
        } else {
            GestaltView {
                state: ContextState::Destroyed,
                created: 0,
                window: None,
                failure: Some(failure_error(s, o)),
                ..self
            }
        }
    }

    /// The action asked for after reporting outcome `o` of the pending step.
    pub open spec fn next_action(self, o: Outcome<W>) -> ActionView {
        let s = step_at(self.created);
        if succeeds(s, o) {
            if self.created < 4 {
                ActionView::Perform(step_at(self.created + 1))
            } else {
                ActionView::Ready
            }
        } else {
            ActionView::Abort { release: release_plan(self.created), error: failure_error(s, o) }
        }
    }

    /// The context after a teardown.
    pub open spec fn destroyed(self) -> GestaltView<W> {
        GestaltView { state: ContextState::Destroyed, created: 0, window: None, ..self }
    }
}

/// A rendering context: the owner of a window, a graphics instance, a
/// diagnostics messenger and a presentation surface. It decides which native
/// step comes next and what to release; the native layer performs the steps
/// and reports their outcomes.
pub struct Gestalt<W> {
    config: GestaltConfig,
    state: ContextState,
    created: usize,
    window: Option<W>,
    failure: Option<GpuError>,
}

/// The same context under its other name.
pub type Gpu<W> = Gestalt<W>;

impl<W> View for Gestalt<W> {
    type V = GestaltView<W>;

    closed spec fn view(&self) -> GestaltView<W> {
        GestaltView {
            state: self.state,
            created: self.created as nat,
            window: self.window,
            config: self.config,
            failure: self.failure,
        }
    }
}

fn release_list(created: usize) -> (r: Vec<Resource>)
    requires
        created <= 4,
    ensures
        r@ == release_plan(created as nat),
{
    let r = if created == 0 {
        Vec::new()
    } else if created == 1 {
        vec![Resource::Window]
    } else if created == 2 {
        vec![Resource::Instance, Resource::Window]
    } else if created == 3 {
        vec![Resource::Messenger, Resource::Instance, Resource::Window]
    } else {
        vec![Resource::Surface, Resource::Messenger, Resource::Instance, Resource::Window]
    };
    assert(r@ =~= release_plan(created as nat));
    r
}

fn step_for(created: usize) -> (r: Step)
    ensures
        r == step_at(created as nat),
{
    if created == 0 {
        Step::CreateWindow
    } else if created == 1 {
        Step::CreateInstance
    } else if created == 2 {
        Step::AttachMessenger
    } else if created == 3 {
        Step::CreateSurface
    } else {
        Step::EnumerateDevices
    }
}

impl<W> Gestalt<W> {
    /// A context that has not started initialization.
    pub fn new(config: GestaltConfig) -> (r: Gestalt<W>)
        ensures
            r@.wf(),
            r@.state == ContextState::Uninitialized,
            r@.config == config,
    {
        Gestalt { config, state: ContextState::Uninitialized, created: 0, window: None, failure: None }
    }

    /// Starts initialization: the context becomes `Initializing` and asks
    /// for its window.
    pub fn init(&mut self) -> (r: Action)
        requires
            old(self)@.wf(),
            old(self)@.state == ContextState::Uninitialized,
        ensures
            final(self)@ == (GestaltView { state: ContextState::Initializing, ..old(self)@ }),
            final(self)@.wf(),
            r@ == ActionView::Perform(Step::CreateWindow),
    {
        self.state = ContextState::Initializing;
        Action::Perform(Step::CreateWindow)
    }

    /// Takes the outcome of the pending step. A success moves on to the next
    /// step or to `Ready`; anything else ends in `Destroyed`, with the live
    /// resources to release in reverse order of creation.
    pub fn advance(&mut self, outcome: Outcome<W>) -> (r: Action)
        requires
            old(self)@.wf(),
            old(self)@.state == ContextState::Initializing,
        ensures
            final(self)@ == old(self)@.next(outcome),
            final(self)@.wf(),
            r@ == old(self)@.next_action(outcome),
    {
        let step = step_for(self.created);
        let ok = match step {
            Step::CreateWindow => matches!(outcome, Outcome::Window(_)),
            Step::EnumerateDevices => match outcome {
                Outcome::Devices(n) => n > 0,
                _ => false,
            },
            _ => matches!(outcome, Outcome::Created),
        };
        if ok {
            if self.created < 4 {
                if let Outcome::Window(w) = outcome {
                    self.window = Some(w);
                }
                self.created = self.created + 1;
                Action::Perform(step_for(self.created))
            } else {
                self.state = ContextState::Ready;
                Action::Ready
            }
        } else {
            let handles_missing = matches!(outcome, Outcome::HandlesUnavailable);
            let error = if handles_missing && step != Step::CreateSurface {
                GpuError::HandleUnavailable
            } else {
                match step {
                    Step::CreateWindow => GpuError::PlatformWindowError,
                    Step::CreateInstance => GpuError::InstanceCreationError,
                    Step::AttachMessenger => GpuError::MessengerCreationError,
                    Step::CreateSurface => GpuError::SurfaceCreationError,
                    Step::EnumerateDevices => GpuError::NoDevicesFoundError,
                }
            };
            let release = release_list(self.created);
            self.state = ContextState::Destroyed;
            self.created = 0;
            self.window = None;
            self.failure = Some(error);
            Action::Abort { release, error }
        }
    }

    /// Tears the context down and returns the resources to release, in
    /// reverse order of creation. On a destroyed context it changes nothing
    /// and releases nothing.
    pub fn destroy(&mut self) -> (r: Vec<Resource>)
        requires
            old(self)@.wf(),
        ensures
            r@ == release_plan(old(self)@.created),
            final(self)@ == old(self)@.destroyed(),
            final(self)@.wf(),
    {
        let release = release_list(self.created);
        self.state = ContextState::Destroyed;
        self.created = 0;
        self.window = None;
        release
    }

    /// The window of a `Ready` context.
    pub fn window(&self) -> (r: GpuResult<&W>)
        requires
            self@.wf(),
        ensures
            self@.state == ContextState::Ready ==> r is Ok && *r->Ok_0 == self@.window->Some_0,
            self@.state == ContextState::Destroyed ==> r == Err::<&W, GpuError>(
                GpuError::ContextDestroyed,
            ),
            self@.state == ContextState::Uninitialized || self@.state == ContextState::Initializing
                ==> r == Err::<&W, GpuError>(GpuError::HandleUnavailable),
    {
        match self.state {
            ContextState::Ready => match &self.window {
                Some(w) => Ok(w),
                None => Err(GpuError::HandleUnavailable),
            },
            ContextState::Destroyed => Err(GpuError::ContextDestroyed),
            _ => Err(GpuError::HandleUnavailable),
        }
    }

    /// What the instance is created from, at the instance step: the
    /// platform's required extensions followed by those the configuration
    /// adds, the validation layer where it is enabled, and the application's
    /// identity and API version.
    pub fn instance_plan_for(&self, required: Vec<String>) -> (r: InstancePlan)
        requires
            self@.wf(),
            self@.state == ContextState::Initializing,
            step_at(self@.created) == Step::CreateInstance,
        ensures
            texts(r.extensions@) == texts(required@) + added_extensions(self@.config.portability),
            texts(r.layers@) == enabled_layers(self@.config.enable_validation),
            r.application_name@ == "Mandala"@,
            r.engine_name@ == "Mandala"@,
            r.application_version == 0,
            r.engine_version == 0,
            r.api_version == packed_version(0, 1, 3, 0),
    {
        instance_plan(&self.config, required)
    }

    /// The severity and category masks the messenger is registered with, at
    /// the messenger step: error, warning and info; general, validation and
    /// performance.
    pub fn messenger_masks(&self) -> (r: (u32, u32))
        requires
            self@.wf(),
            self@.state == ContextState::Initializing,
            step_at(self@.created) == Step::AttachMessenger,
        ensures
            r == (0x1110u32, 0x7u32),
    {
        (messenger_severity_mask(), messenger_type_mask())
    }

    /// The current state.
    pub fn state(&self) -> (r: ContextState)
        ensures
            r == self@.state,
    {
        self.state
    }

    /// The configuration the context was made with.
    pub fn config(&self) -> (r: GestaltConfig)
        ensures
            r == self@.config,
    {
        self.config
    }

    /// The error that ended initialization, if it failed.
    pub fn failure(&self) -> (r: Option<GpuError>)
        ensures
            r == self@.failure,
    {
        self.failure
    }
}


/// A successful initialization leaves the context `Ready` with a window:
/// the `Ready` action is asked for exactly when the context becomes `Ready`,
/// and then a window is held.
pub proof fn lemma_success_is_ready<W>(pre: GestaltView<W>, o: Outcome<W>)
    requires
        pre.wf(),
        pre.state == ContextState::Initializing,
    ensures
        pre.next(o).wf(),
        pre.next_action(o) is Ready <==> pre.next(o).state == ContextState::Ready,
        pre.next(o).state == ContextState::Ready ==> pre.next(o).window is Some,
{
}

/// When device enumeration finds no device, initialization fails with
/// `NoDevicesFoundError`, releases every resource it made, and the context
/// ends `Destroyed`, never `Ready`.
pub proof fn lemma_no_devices_fails<W>(pre: GestaltView<W>)
    requires
        pre.wf(),
        pre.state == ContextState::Initializing,
        step_at(pre.created) == Step::EnumerateDevices,
    ensures
        pre.next(Outcome::Devices(0)).state == ContextState::Destroyed,
        pre.next(Outcome::Devices(0)).failure == Some(GpuError::NoDevicesFoundError),
        pre.next_action(Outcome::Devices(0)) == (ActionView::Abort {
            release: release_order(),
            error: GpuError::NoDevicesFoundError,
        }),
{
    assert(release_plan(pre.created) =~= release_order());
}

/// Tearing down twice is the same as tearing down once: the second teardown
/// releases nothing, and no resource is released twice over both.
pub proof fn lemma_destroy_idempotent<W>(pre: GestaltView<W>)
    requires
        pre.wf(),
    ensures
        pre.destroyed().destroyed() == pre.destroyed(),
        release_plan(pre.destroyed().created).len() == 0,
        (release_plan(pre.created) + release_plan(pre.destroyed().created)).no_duplicates(),
{
    let p = release_plan(pre.created);
    assert(release_plan(0) =~= Seq::<Resource>::empty());
    assert(p + release_plan(0) =~= p);
    assert(release_order().no_duplicates());
    assert forall|i: int, j: int| 0 <= i < p.len() && 0 <= j < p.len() && i != j implies p[i]
        != p[j] by {
        let k = 4 - pre.created;
        assert(p[i] == release_order()[i + k]);
        assert(p[j] == release_order()[j + k]);
    }
}

/// Resources are released in reverse order of creation, whatever step
/// initialization reached; so the surface and the messenger go before the
/// instance, and nothing outlives the instance it depends on.
pub proof fn lemma_release_reverses_creation(n: nat)
    requires
        n <= 4,
    ensures
        release_plan(n).len() == n,
        forall|i: int| 0 <= i < n ==> #[trigger] release_plan(n)[i] == live(n)[n - 1 - i],
        n == 4 ==> release_plan(n) == seq![
            Resource::Surface,
            Resource::Messenger,
            Resource::Instance,
            Resource::Window,
        ],
{
    assert(release_order() =~= seq![
        Resource::Surface,
        Resource::Messenger,
        Resource::Instance,
        Resource::Window,
    ]);
    assert(release_plan(4) =~= release_order());
}

} // verus!
