//! The order of the work: which system runs in which phase of the life of
//! the renderer, and after which.

use vstd::prelude::*;

verus! {

/// The kinds of events that are queued from one frame to the next.
#[derive(Debug, Clone, Copy, PartialEq, Eq, Hash, Structural)]
pub enum EventKind {
    MenuResize,
    MouseMotion,
    Key,
    MouseInput,
    WindowResize,
    ShaderRecompile,
    MaterialPush,
    MaterialPop,
    SpherePush,
    SpherePop,
    AabbPush,
    AabbPop,
    TrianglePush,
    TrianglePop,
}

/// One unit of work.
#[derive(Debug, Clone, Copy, PartialEq, Eq, Hash, Structural)]
pub enum System {
    /// Sets up the queue of one kind of event.
    EventInit(EventKind),
    /// Drops the events of one kind that are older than a frame.
    EventUpdate(EventKind),
    RendererViewportInit,
    SpectrumBindingInit,
    CameraResponseBindingInit,
    ObjectBindingInit,
    ScreenBindingInit,
    RenderProfilerInit,
    MaterialTexturesInit,
    MaterialPipelinesInit,
    PathtracePassInit,
    FinalPassInit,
    FpsCounterInit,
    MenuInit,
    ObjectsInit,
    CameraInit,
    HandleKeyboardInput,
    HandleMouseInput,
    InputControl,
    CameraUpdate,
    MenuUpdate,
    ObjectsUpdate,
    ObjectBindingUpdate,
    ScreenBindingUpdate,
    RecompileShaders,
    MaterialDraw,
    PathtracePassUpdate,
    FinalPassUpdate,
    InputUpdate,
    TimeUpdate,
    ProfilerPostRender,
    FpsCounterUpdate,
    CameraOnResize,
    MaterialTexturesOnResize,
    PathtracePassOnResize,
    FinalPassOnResize,
}

/// The phases of the life of the renderer.
#[derive(Debug, Clone, Copy, PartialEq, Eq, Hash, Structural)]
pub enum Phase {
    OnInitEventSetup,
    OnInitRenderSetup,
    OnInitAppSetup,
    OnRedrawPreFrame,
    OnRedrawRender,
    OnRedrawPostFrame,
    OnRedrawEventUpdate,
    OnResize,
}

/// Index of the first `system` in `systems`, or their number where it is not
/// among them.
pub open spec fn spec_index_of(systems: Seq<System>, system: System) -> int
    decreases systems.len(),
{
    if systems.len() == 0 {
        0
    } else if systems.first() == system {
        0
    } else {
        1 + spec_index_of(systems.drop_first(), system)
    }
}

/// Whether `first` runs in `systems`, and before `second` if that runs too.
pub open spec fn spec_runs_before(systems: Seq<System>, first: System, second: System) -> bool {
    spec_index_of(systems, first) < systems.len() && spec_index_of(systems, first) < spec_index_of(
        systems,
        second,
    )
}

pub open spec fn spec_on_init_event_setup() -> Seq<System> {
    seq![
        System::EventInit(EventKind::MenuResize),
        System::EventInit(EventKind::MouseMotion),
        System::EventInit(EventKind::Key),
        System::EventInit(EventKind::MouseInput),
    ]
}

pub open spec fn spec_on_init_render_setup() -> Seq<System> {
    seq![
        System::RendererViewportInit,
        System::SpectrumBindingInit,
        System::CameraResponseBindingInit,
        System::ObjectBindingInit,
        System::ScreenBindingInit,
        System::RenderProfilerInit,
        System::MaterialTexturesInit,
        System::MaterialPipelinesInit,
        System::PathtracePassInit,
        System::FinalPassInit,
    ]
}

pub open spec fn spec_on_init_app_setup() -> Seq<System> {
    seq![System::FpsCounterInit, System::MenuInit, System::ObjectsInit, System::CameraInit]
}

pub open spec fn spec_on_redraw_pre_frame() -> Seq<System> {
    seq![
        System::HandleKeyboardInput,
        System::HandleMouseInput,
        System::InputControl,
        System::CameraUpdate,
    ]
}

pub open spec fn spec_on_redraw_render() -> Seq<System> {
    seq![
        System::MenuUpdate,
        System::ObjectBindingUpdate,
        System::ScreenBindingUpdate,
        System::MaterialDraw,
        System::PathtracePassUpdate,
        System::FinalPassUpdate,
    ]
}

pub open spec fn spec_on_redraw_post_frame() -> Seq<System> {
    seq![
        System::InputUpdate,
        System::TimeUpdate,
        System::ProfilerPostRender,
        System::FpsCounterUpdate,
    ]
}

pub open spec fn spec_on_redraw_event_update() -> Seq<System> {
    seq![
        System::EventUpdate(EventKind::MenuResize),
        System::EventUpdate(EventKind::MouseMotion),
        System::EventUpdate(EventKind::Key),
        System::EventUpdate(EventKind::MouseInput),
    ]
}

pub open spec fn spec_on_resize() -> Seq<System> {
    seq![
        System::CameraOnResize,
        System::MaterialTexturesOnResize,
        System::PathtracePassOnResize,
        System::FinalPassOnResize,
    ]
}

/// The systems of every phase, each list in the order in which it runs.
#[derive(Debug)]
pub struct Schedules {
    pub on_init_event_setup: Vec<System>,
    pub on_init_render_setup: Vec<System>,
    pub on_init_app_setup: Vec<System>,
    pub on_redraw_pre_frame: Vec<System>,
    pub on_redraw_render: Vec<System>,
    pub on_redraw_post_frame: Vec<System>,
    pub on_redraw_event_update: Vec<System>,
    pub on_resize: Vec<System>,
}

impl Schedules {
    /// Whether these are the schedules of the renderer.
    pub open spec fn spec_standard(&self) -> bool {
        &&& self.on_init_event_setup@ == spec_on_init_event_setup()
        &&& self.on_init_render_setup@ == spec_on_init_render_setup()
        &&& self.on_init_app_setup@ == spec_on_init_app_setup()
        &&& self.on_redraw_pre_frame@ == spec_on_redraw_pre_frame()
        &&& self.on_redraw_render@ == spec_on_redraw_render()
        &&& self.on_redraw_post_frame@ == spec_on_redraw_post_frame()
        &&& self.on_redraw_event_update@ == spec_on_redraw_event_update()
        &&& self.on_resize@ == spec_on_resize()
    }

    /// The systems of `phase`.
    pub open spec fn spec_of(&self, phase: Phase) -> Seq<System> {
        match phase {
            Phase::OnInitEventSetup => self.on_init_event_setup@,
            Phase::OnInitRenderSetup => self.on_init_render_setup@,
            Phase::OnInitAppSetup => self.on_init_app_setup@,
            Phase::OnRedrawPreFrame => self.on_redraw_pre_frame@,
            Phase::OnRedrawRender => self.on_redraw_render@,
            Phase::OnRedrawPostFrame => self.on_redraw_post_frame@,
            Phase::OnRedrawEventUpdate => self.on_redraw_event_update@,
            Phase::OnResize => self.on_resize@,
        }
    }

    /// The systems of `phase`, in the order in which they run.
    pub fn of(&self, phase: Phase) -> (systems: &Vec<System>)
        ensures
            systems@ == self.spec_of(phase),
    {
        match phase {
            Phase::OnInitEventSetup => &self.on_init_event_setup,
            Phase::OnInitRenderSetup => &self.on_init_render_setup,
            Phase::OnInitAppSetup => &self.on_init_app_setup,
            Phase::OnRedrawPreFrame => &self.on_redraw_pre_frame,
            Phase::OnRedrawRender => &self.on_redraw_render,
            Phase::OnRedrawPostFrame => &self.on_redraw_post_frame,
            Phase::OnRedrawEventUpdate => &self.on_redraw_event_update,
            Phase::OnResize => &self.on_resize,
        }
    }
}

impl Default for Schedules {
    /// The schedules of the renderer. Within a phase a system runs after
    /// what it depends on: input before control, a pass after the pass whose
    /// image it reads, the frame time average after everything else.
    fn default() -> (schedules: Self)
        ensures
            schedules.spec_standard(),
    {
        let on_init_event_setup = vec![
            System::EventInit(EventKind::MenuResize),
            System::EventInit(EventKind::MouseMotion),
            System::EventInit(EventKind::Key),
            System::EventInit(EventKind::MouseInput),
        ];
        let on_init_render_setup = vec![
            System::RendererViewportInit,
            System::SpectrumBindingInit,
            System::CameraResponseBindingInit,
            System::ObjectBindingInit,
            System::ScreenBindingInit,
            System::RenderProfilerInit,
            System::MaterialTexturesInit,
            System::MaterialPipelinesInit,
            System::PathtracePassInit,
            System::FinalPassInit,
        ];
        let on_init_app_setup = vec![
            System::FpsCounterInit,
            System::MenuInit,
            System::ObjectsInit,
            System::CameraInit,
        ];
        let on_redraw_pre_frame = vec![
            System::HandleKeyboardInput,
            System::HandleMouseInput,
            System::InputControl,
            System::CameraUpdate,
        ];
        let on_redraw_render = vec![
            System::MenuUpdate,
            System::ObjectBindingUpdate,
            System::ScreenBindingUpdate,
            System::MaterialDraw,
            System::PathtracePassUpdate,
            System::FinalPassUpdate,
        ];
        let on_redraw_post_frame = vec![
            System::InputUpdate,
            System::TimeUpdate,
            System::ProfilerPostRender,
            System::FpsCounterUpdate,
        ];
        let on_redraw_event_update = vec![
            System::EventUpdate(EventKind::MenuResize),
            System::EventUpdate(EventKind::MouseMotion),
            System::EventUpdate(EventKind::Key),
            System::EventUpdate(EventKind::MouseInput),
        ];
        let on_resize = vec![
            System::CameraOnResize,
            System::MaterialTexturesOnResize,
            System::PathtracePassOnResize,
            System::FinalPassOnResize,
        ];
        Schedules {
            on_init_event_setup,
            on_init_render_setup,
            on_init_app_setup,
            on_redraw_pre_frame,
            on_redraw_render,
            on_redraw_post_frame,
            on_redraw_event_update,
            on_resize,
        }
    }
}

/// In every phase a pass runs after the pass whose image it reads: the
/// images of the path tracer are made, drawn and resized before the final
/// pass binds or draws them.
pub proof fn lemma_upstream_first()
    ensures
        spec_runs_before(
            spec_on_init_render_setup(),
            System::PathtracePassInit,
            System::FinalPassInit,
        ),
        spec_runs_before(
            spec_on_init_render_setup(),
            System::RenderProfilerInit,
            System::PathtracePassInit,
        ),
        spec_runs_before(
            spec_on_redraw_render(),
            System::PathtracePassUpdate,
            System::FinalPassUpdate,
        ),
        spec_runs_before(
            spec_on_resize(),
            System::PathtracePassOnResize,
            System::FinalPassOnResize,
        ),
        spec_runs_before(
            spec_on_redraw_post_frame(),
            System::TimeUpdate,
            System::ProfilerPostRender,
        ),
{
    assert(spec_on_init_render_setup().len() == 10);
    assert(spec_on_redraw_render().len() == 6);
    assert(spec_on_resize().len() == 4);
    assert(spec_on_redraw_post_frame().len() == 4);
    lemma_index(spec_on_init_render_setup(), System::PathtracePassInit, 8);
    lemma_index(spec_on_init_render_setup(), System::FinalPassInit, 9);
    lemma_index(spec_on_init_render_setup(), System::RenderProfilerInit, 5);
    lemma_index(spec_on_redraw_render(), System::PathtracePassUpdate, 4);
    lemma_index(spec_on_redraw_render(), System::FinalPassUpdate, 5);
    lemma_index(spec_on_resize(), System::PathtracePassOnResize, 2);
    lemma_index(spec_on_resize(), System::FinalPassOnResize, 3);
    lemma_index(spec_on_redraw_post_frame(), System::TimeUpdate, 1);
    lemma_index(spec_on_redraw_post_frame(), System::ProfilerPostRender, 2);
}

/// A system that stands at `index` and nowhere before it has that index.
pub proof fn lemma_index(systems: Seq<System>, system: System, index: int)
    requires
        0 <= index < systems.len(),
        systems[index] == system,
        forall|i: int| 0 <= i < index ==> systems[i] != system,
    ensures
        spec_index_of(systems, system) == index,
    decreases systems.len(),
{
    if index > 0 {
        assert(systems.first() == systems[0]);
        assert forall|i: int| 0 <= i < index - 1 implies systems.drop_first()[i] != system by {
            assert(systems.drop_first()[i] == systems[i + 1]);
        }
        lemma_index(systems.drop_first(), system, index - 1);
    }
}

/// The schedules of a renderer that is driven by one runner: three at
/// startup, six per frame.
#[derive(Debug)]
pub struct ScheduleRunner {
    init_render: Vec<System>,
    init_main: Vec<System>,
    init_event: Vec<System>,
    pre_update_render: Vec<System>,
    update_render: Vec<System>,
    post_update_render: Vec<System>,
    update_main: Vec<System>,
    post_update_main: Vec<System>,
    update_event: Vec<System>,
}

/// The kinds of events of a renderer that is driven by one runner.
pub open spec fn spec_runner_events() -> Seq<EventKind> {
    seq![
        EventKind::WindowResize,
        EventKind::ShaderRecompile,
        EventKind::MaterialPush,
        EventKind::MaterialPop,
        EventKind::SpherePush,
        EventKind::SpherePop,
        EventKind::AabbPush,
        EventKind::AabbPop,
        EventKind::TrianglePush,
        EventKind::TrianglePop,
    ]
}

/// What runs at startup, in order: the application, the renderer, the events.
pub open spec fn spec_startup() -> Seq<System> {
    seq![
        System::FpsCounterInit,
        System::MenuInit,
        System::ObjectsInit,
        System::ObjectBindingInit,
        System::CameraInit,
        System::ScreenBindingInit,
        System::RenderProfilerInit,
        System::PathtracePassInit,
        System::FinalPassInit,
    ] + spec_runner_events().map_values(|kind: EventKind| System::EventInit(kind))
}

/// What runs per frame, in order: the application, the events, the renderer.
pub open spec fn spec_update() -> Seq<System> {
    seq![
        System::MenuUpdate,
        System::ObjectsUpdate,
        System::ObjectBindingUpdate,
        System::CameraUpdate,
        System::ScreenBindingUpdate,
        System::InputUpdate,
        System::TimeUpdate,
    ] + spec_runner_events().map_values(|kind: EventKind| System::EventUpdate(kind)) + seq![
        System::RecompileShaders,
        System::PathtracePassUpdate,
        System::FinalPassUpdate,
    ]
}

/// The kinds of events of a renderer that is driven by one runner.
pub fn runner_events() -> (kinds: Vec<EventKind>)
    ensures
        kinds@ == spec_runner_events(),
{
    vec![
        EventKind::WindowResize,
        EventKind::ShaderRecompile,
        EventKind::MaterialPush,
        EventKind::MaterialPop,
        EventKind::SpherePush,
        EventKind::SpherePop,
        EventKind::AabbPush,
        EventKind::AabbPop,
        EventKind::TrianglePush,
        EventKind::TrianglePop,
    ]
}

/// Puts `systems` behind `all`.
fn append(all: &mut Vec<System>, systems: &Vec<System>)
    ensures
        final(all)@ == old(all)@ + systems@,
{
    let mut i: usize = 0;
    while i < systems.len()
        invariant
            i <= systems.len(),
            all@ == old(all)@ + systems@.take(i as int),
        decreases systems.len() - i,
    {
        all.push(systems[i]);
        i = i + 1;
        assert(all@ =~= old(all)@ + systems@.take(i as int));
    }
    assert(systems@.take(systems@.len() as int) =~= systems@);
}

impl ScheduleRunner {
    /// The systems of the three startup schedules, in the order of
    /// [`ScheduleRunner::startup`].
    pub closed spec fn spec_startup_systems(&self) -> Seq<System> {
        self.init_main@ + self.init_render@ + self.init_event@
    }

    /// The systems of the six schedules of a frame, in the order of
    /// [`ScheduleRunner::update`].
    pub closed spec fn spec_update_systems(&self) -> Seq<System> {
        self.update_main@ + self.post_update_main@ + self.update_event@ + self.pre_update_render@
            + self.update_render@ + self.post_update_render@
    }

    /// What runs at startup, in order: the schedules of the application, of
    /// the renderer and of the events.
    pub fn startup(&self) -> (systems: Vec<System>)
        ensures
            systems@ == self.spec_startup_systems(),
    {
        let mut systems: Vec<System> = Vec::new();
        append(&mut systems, &self.init_main);
        append(&mut systems, &self.init_render);
        append(&mut systems, &self.init_event);
        assert(systems@ =~= self.spec_startup_systems());
        systems
    }

    /// What runs per frame, in order: the application and what follows it,
    /// the events, then the renderer with what precedes and follows it.
    pub fn update(&self) -> (systems: Vec<System>)
        ensures
            systems@ == self.spec_update_systems(),
    {
        let mut systems: Vec<System> = Vec::new();
        append(&mut systems, &self.update_main);
        append(&mut systems, &self.post_update_main);
        append(&mut systems, &self.update_event);
        append(&mut systems, &self.pre_update_render);
        append(&mut systems, &self.update_render);
        append(&mut systems, &self.post_update_render);
        assert(systems@ =~= self.spec_update_systems());
        systems
    }
}

impl Default for ScheduleRunner {
    /// The schedules of the renderer.
    fn default() -> (runner: Self)
        ensures
            runner.spec_startup_systems() == spec_startup(),
            runner.spec_update_systems() == spec_update(),
    {
        let kinds = runner_events();
        let mut init_event: Vec<System> = Vec::new();
        let mut update_event: Vec<System> = Vec::new();
        let mut i: usize = 0;
        while i < kinds.len()
            invariant
                i <= kinds.len(),
                init_event@ == kinds@.take(i as int).map_values(
                    |kind: EventKind| System::EventInit(kind),
                ),
                update_event@ == kinds@.take(i as int).map_values(
                    |kind: EventKind| System::EventUpdate(kind),
                ),
            decreases kinds.len() - i,
        {
            init_event.push(System::EventInit(kinds[i]));
            update_event.push(System::EventUpdate(kinds[i]));
            i = i + 1;
            assert(init_event@ =~= kinds@.take(i as int).map_values(
                |kind: EventKind| System::EventInit(kind),
            ));
            assert(update_event@ =~= kinds@.take(i as int).map_values(
                |kind: EventKind| System::EventUpdate(kind),
            ));
        }
        assert(kinds@.take(kinds@.len() as int) =~= kinds@);
        let runner = ScheduleRunner {
            init_main: vec![
                System::FpsCounterInit,
                System::MenuInit,
                System::ObjectsInit,
                System::ObjectBindingInit,
                System::CameraInit,
                System::ScreenBindingInit,
            ],
            init_render: vec![
                System::RenderProfilerInit,
                System::PathtracePassInit,
                System::FinalPassInit,
            ],
            init_event,
            pre_update_render: vec![System::RecompileShaders],
            update_render: vec![System::PathtracePassUpdate, System::FinalPassUpdate],
            post_update_render: Vec::new(),
            update_main: vec![
                System::MenuUpdate,
                System::ObjectsUpdate,
                System::ObjectBindingUpdate,
                System::CameraUpdate,
                System::ScreenBindingUpdate,
            ],
            post_update_main: vec![System::InputUpdate, System::TimeUpdate],
            update_event,
        };
        assert(runner.spec_startup_systems() =~= spec_startup());
        assert(runner.spec_update_systems() =~= spec_update());
        runner
    }
}

} // verus!
