//! The frame orchestrator: what the renderer does on each event of the
//! window, and in which order a frame is acquired, recorded, submitted and
//! presented.

use vstd::prelude::*;
use crate::render::{spec_well_formed, Command, CommandEncoder};
use crate::schedule::Phase;

verus! {

/// Why no image could be acquired from the swapchain.
#[derive(Debug, Clone, Copy, PartialEq, Eq, Structural)]
pub enum SurfaceError {
    Timeout,
    Outdated,
    Lost,
    OutOfMemory,
    Other,
}

/// What is done about the attempt to acquire an image.
#[derive(Debug, Clone, Copy, PartialEq, Eq, Structural)]
pub enum AcquireOutcome {
    /// The image is there: the frame is drawn.
    Draw,
    /// The surface is configured anew, and this frame is not drawn.
    Reconfigure,
    /// This frame is not drawn.
    Skip,
    /// The application ends.
    Exit,
}

/// What is done about the result of acquiring an image: a surface that is
/// lost, outdated or otherwise unusable for the moment is configured anew, a
/// timeout skips the frame, and without memory the application ends.
pub open spec fn spec_classify(result: Result<(), SurfaceError>) -> AcquireOutcome {
    match result {
        Ok(()) => AcquireOutcome::Draw,
        Err(SurfaceError::Lost) | Err(SurfaceError::Outdated) | Err(SurfaceError::Other) =>
            AcquireOutcome::Reconfigure,
        Err(SurfaceError::Timeout) => AcquireOutcome::Skip,
        Err(SurfaceError::OutOfMemory) => AcquireOutcome::Exit,
    }
}

/// What is done about the result of acquiring an image.
pub fn classify(result: Result<(), SurfaceError>) -> (outcome: AcquireOutcome)
    ensures
        outcome == spec_classify(result),
{
    match result {
        Ok(()) => AcquireOutcome::Draw,
        Err(SurfaceError::Lost) => AcquireOutcome::Reconfigure,
        Err(SurfaceError::Outdated) => AcquireOutcome::Reconfigure,
        Err(SurfaceError::Other) => AcquireOutcome::Reconfigure,
        Err(SurfaceError::Timeout) => AcquireOutcome::Skip,
        Err(SurfaceError::OutOfMemory) => AcquireOutcome::Exit,
    }
}

/// The one frame in flight: the encoder that every pass records into, in
/// turn, for the image that was acquired.
#[derive(Debug)]
pub struct FrameRecord {
    pub encoder: CommandEncoder,
}

/// Where the application stands.
#[derive(Debug, Clone, Copy, PartialEq, Eq, Structural)]
pub enum AppState {
    /// No window yet.
    Uninit,
    /// Between two frames.
    Idle,
    /// A frame was begun and waits for its image.
    AwaitingImage,
    /// The frame is being recorded.
    Recording,
    /// The application has ended.
    Exited,
}

/// An event of the window.
#[derive(Debug, Clone, Copy, PartialEq, Eq, Structural)]
pub enum WindowEvent {
    KeyboardInput,
    MouseInput,
    MouseWheel,
    CloseRequested,
    Resized { width: u32, height: u32 },
    RedrawRequested,
    Other,
}

/// Something for the event loop to do.
#[derive(Debug, Clone, Copy, PartialEq, Eq, Structural)]
pub enum Action {
    /// Makes the window and the surface.
    CreateWindow,
    /// Runs the systems of a phase.
    RunSchedule(Phase),
    /// Lets the user interface see the event.
    ForwardToUi,
    /// Queues the key event for the input systems.
    SendKeyEvent,
    /// Queues the mouse button event for the input systems.
    SendMouseInput,
    /// Queues the mouse motion for the input systems.
    SendMouseMotion,
    /// Takes the new size of the window to the surface.
    ResizeSurface { width: u32, height: u32 },
    /// Asks for the next frame.
    RequestRedraw,
    /// Acquires the image of the frame from the swapchain.
    AcquireImage,
    /// Configures the surface anew.
    ReconfigureSurface,
    /// Warns that the surface timed out.
    WarnTimeout,
    /// Begins the frame of the user interface.
    BeginUi,
    /// Lets the user interface finish and record its drawing.
    CompositeUi,
    /// Tells the window that the frame is about to be presented.
    PrePresentNotify,
    /// Submits the recorded commands, once.
    Submit,
    /// Presents the image.
    Present,
    /// Ends the event loop.
    Exit,
}

/// What has to be done at the start of the application.
pub open spec fn spec_startup_actions() -> Seq<Action> {
    seq![
        Action::CreateWindow,
        Action::RunSchedule(Phase::OnInitEventSetup),
        Action::RunSchedule(Phase::OnInitRenderSetup),
        Action::RunSchedule(Phase::OnInitAppSetup),
    ]
}

/// What has to be done once the image of a frame is there, up to the point
/// where the frame is recorded.
pub open spec fn spec_record_actions() -> Seq<Action> {
    seq![
        Action::RunSchedule(Phase::OnRedrawPreFrame),
        Action::BeginUi,
        Action::RunSchedule(Phase::OnRedrawRender),
        Action::CompositeUi,
        Action::PrePresentNotify,
    ]
}

/// What has to be done with a recorded frame.
pub open spec fn spec_finish_actions() -> Seq<Action> {
    seq![
        Action::Submit,
        Action::Present,
        Action::RunSchedule(Phase::OnRedrawPostFrame),
        Action::RunSchedule(Phase::OnRedrawEventUpdate),
    ]
}

/// What a window event leads to: the state, whether a resize by the menu is
/// pending, and the actions.
pub struct Step {
    pub state: AppState,
    pub menu_resized: bool,
    pub actions: Seq<Action>,
}

/// What the event `event` leads to in `state`. An event of another window
/// and an event before the window exists lead to nothing. Closing ends the
/// application whenever it comes. Everything else is taken between two
/// frames only: input is queued, a resize goes to the surface and to
/// everything sized by it, and a redraw begins a frame, after the resize
/// that the menu asked for where it did.
pub open spec fn spec_window_event(
    state: AppState,
    menu_resized: bool,
    event: WindowEvent,
    own_window: bool,
) -> Step {
    if !own_window || state == AppState::Uninit || state == AppState::Exited {
        Step { state, menu_resized, actions: seq![] }
    } else if event == WindowEvent::CloseRequested {
        Step { state: AppState::Exited, menu_resized, actions: seq![Action::ForwardToUi, Action::Exit] }
    } else if state != AppState::Idle {
        Step { state, menu_resized, actions: seq![Action::ForwardToUi] }
    } else {
        match event {
            WindowEvent::KeyboardInput => Step {
                state,
                menu_resized,
                actions: seq![Action::ForwardToUi, Action::SendKeyEvent],
            },
            WindowEvent::MouseInput => Step {
                state,
                menu_resized,
                actions: seq![Action::ForwardToUi, Action::SendMouseInput],
            },
            WindowEvent::Resized { width, height } => Step {
                state,
                menu_resized,
                actions: seq![
                    Action::ForwardToUi,
                    Action::ResizeSurface { width, height },
                    Action::RunSchedule(Phase::OnResize),
                ],
            },
            WindowEvent::RedrawRequested => Step {
                state: AppState::AwaitingImage,
                menu_resized: false,
                actions: if menu_resized {
                    seq![
                        Action::ForwardToUi,
                        Action::RequestRedraw,
                        Action::RunSchedule(Phase::OnResize),
                        Action::AcquireImage,
                    ]
                } else {
                    seq![Action::ForwardToUi, Action::RequestRedraw, Action::AcquireImage]
                },
            },
            _ => Step { state, menu_resized, actions: seq![Action::ForwardToUi] },
        }
    }
}

/// The state after an attempt to acquire an image.
pub open spec fn spec_after_acquire(result: Result<(), SurfaceError>) -> AppState {
    match spec_classify(result) {
        AcquireOutcome::Draw => AppState::Recording,
        AcquireOutcome::Exit => AppState::Exited,
        _ => AppState::Idle,
    }
}

/// The actions after an attempt to acquire an image.
pub open spec fn spec_acquire_actions(result: Result<(), SurfaceError>) -> Seq<Action> {
    match spec_classify(result) {
        AcquireOutcome::Draw => spec_record_actions(),
        AcquireOutcome::Reconfigure => seq![Action::ReconfigureSurface],
        AcquireOutcome::Skip => seq![Action::WarnTimeout],
        AcquireOutcome::Exit => seq![Action::Exit],
    }
}

/// A recorded frame as it is handed over for submission.
#[derive(Debug)]
pub struct FrameEnd {
    /// The commands of the frame, in the order they were recorded in.
    pub commands: Vec<Command>,
    /// What the event loop does with them and afterwards.
    pub actions: Vec<Action>,
}

/// The application: one window, one frame at a time.
#[derive(Debug)]
pub struct App {
    state: AppState,
    menu_resized: bool,
}

impl App {
    pub closed spec fn spec_state(&self) -> AppState {
        self.state
    }

    /// Whether the menu has asked for a resize that no frame has taken yet.
    pub closed spec fn spec_menu_resized(&self) -> bool {
        self.menu_resized
    }

    /// The application before its window exists.
    pub fn new() -> (app: Self)
        ensures
            app.spec_state() == AppState::Uninit,
            !app.spec_menu_resized(),
    {
        App { state: AppState::Uninit, menu_resized: false }
    }

    /// Where the application stands.
    #[verifier::when_used_as_spec(spec_state)]
    pub fn state(&self) -> (state: AppState)
        ensures
            state == self.spec_state(),
    {
        self.state
    }

    /// Whether the window does not exist yet.
    pub fn is_uninit(&self) -> (uninit: bool)
        ensures
            uninit == (self.spec_state() == AppState::Uninit),
    {
        match self.state {
            AppState::Uninit => true,
            _ => false,
        }
    }

    /// The event loop is running: the window is made and the startup
    /// schedules run, once.
    pub fn resumed(&mut self) -> (actions: Vec<Action>)
        ensures
            final(self).spec_menu_resized() == old(self).spec_menu_resized(),
            old(self).spec_state() == AppState::Uninit ==> final(self).spec_state()
                == AppState::Idle && actions@ == spec_startup_actions(),
            old(self).spec_state() != AppState::Uninit
                ==> final(self).spec_state() == old(self).spec_state()
                    && actions@ == Seq::<Action>::empty(),
    {
        if self.is_uninit() {
            self.state = AppState::Idle;
            vec![
                Action::CreateWindow,
                Action::RunSchedule(Phase::OnInitEventSetup),
                Action::RunSchedule(Phase::OnInitRenderSetup),
                Action::RunSchedule(Phase::OnInitAppSetup),
            ]
        } else {
            Vec::new()
        }
    }

    /// The mouse has moved: the motion is queued once the window exists.
    pub fn device_event(&self) -> (actions: Vec<Action>)
        ensures
            actions@ == (if self.spec_state() == AppState::Uninit || self.spec_state()
                == AppState::Exited {
                Seq::<Action>::empty()
            } else {
                seq![Action::SendMouseMotion]
            }),
    {
        match self.state {
            AppState::Uninit => Vec::new(),
            AppState::Exited => Vec::new(),
            _ => vec![Action::SendMouseMotion],
        }
    }

    /// The menu has changed the viewport: the next frame begins with a resize.
    pub fn raise_menu_resize(&mut self)
        ensures
            final(self).spec_state() == old(self).spec_state(),
            final(self).spec_menu_resized(),
    {
        self.menu_resized = true;
    }

    /// Takes an event of a window, `own_window` saying whether it is the
    /// window of the application.
    pub fn window_event(&mut self, event: WindowEvent, own_window: bool) -> (actions: Vec<Action>)
        ensures
            final(self).spec_state() == spec_window_event(
                old(self).spec_state(),
                old(self).spec_menu_resized(),
                event,
                own_window,
            ).state,
            final(self).spec_menu_resized() == spec_window_event(
                old(self).spec_state(),
                old(self).spec_menu_resized(),
                event,
                own_window,
            ).menu_resized,
            actions@ == spec_window_event(
                old(self).spec_state(),
                old(self).spec_menu_resized(),
                event,
                own_window,
            ).actions,
    {
        if !own_window {
            return Vec::new();
        }
        match self.state {
            AppState::Uninit => {
                return Vec::new();
            },
            AppState::Exited => {
                return Vec::new();
            },
            _ => {},
        }
        match event {
            WindowEvent::CloseRequested => {
                self.state = AppState::Exited;
                return vec![Action::ForwardToUi, Action::Exit];
            },
            _ => {},
        }
        match self.state {
            AppState::Idle => {},
            _ => {
                return vec![Action::ForwardToUi];
            },
        }
        match event {
            WindowEvent::KeyboardInput => vec![Action::ForwardToUi, Action::SendKeyEvent],
            WindowEvent::MouseInput => vec![Action::ForwardToUi, Action::SendMouseInput],
            WindowEvent::Resized { width, height } => vec![
                Action::ForwardToUi,
                Action::ResizeSurface { width, height },
                Action::RunSchedule(Phase::OnResize),
            ],
            WindowEvent::RedrawRequested => {
                let menu_resized = self.menu_resized;
                self.state = AppState::AwaitingImage;
                self.menu_resized = false;
                if menu_resized {
                    vec![
                        Action::ForwardToUi,
                        Action::RequestRedraw,
                        Action::RunSchedule(Phase::OnResize),
                        Action::AcquireImage,
                    ]
                } else {
                    vec![Action::ForwardToUi, Action::RequestRedraw, Action::AcquireImage]
                }
            },
            _ => vec![Action::ForwardToUi],
        }
    }

    /// Takes the result of acquiring the image of the frame that was begun.
    /// With the image the frame is recorded: its record is made, the only
    /// one there is, and handed out for the passes. Without it the frame is
    /// over before it was drawn.
    pub fn acquired(&mut self, result: Result<(), SurfaceError>) -> (begun: (
        Option<FrameRecord>,
        Vec<Action>,
    ))
        requires
            old(self).spec_state() == AppState::AwaitingImage,
        ensures
            final(self).spec_state() == spec_after_acquire(result),
            final(self).spec_menu_resized() == old(self).spec_menu_resized(),
            begun.1@ == spec_acquire_actions(result),
            begun.0 is Some <==> result is Ok,
            begun.0 matches Some(frame) ==> frame.encoder@ == Seq::<Command>::empty()
                && frame.encoder.spec_complete(),
    {
        match classify(result) {
            AcquireOutcome::Draw => {
                self.state = AppState::Recording;
                (
                    Some(FrameRecord { encoder: CommandEncoder::new() }),
                    vec![
                        Action::RunSchedule(Phase::OnRedrawPreFrame),
                        Action::BeginUi,
                        Action::RunSchedule(Phase::OnRedrawRender),
                        Action::CompositeUi,
                        Action::PrePresentNotify,
                    ],
                )
            },
            AcquireOutcome::Reconfigure => {
                self.state = AppState::Idle;
                (None, vec![Action::ReconfigureSurface])
            },
            AcquireOutcome::Skip => {
                self.state = AppState::Idle;
                (None, vec![Action::WarnTimeout])
            },
            AcquireOutcome::Exit => {
                self.state = AppState::Exited;
                (None, vec![Action::Exit])
            },
        }
    }

    /// Takes the record of the frame back, with every pass in it ended, and
    /// ends the frame: its commands are submitted once, the image is
    /// presented, and what follows a frame runs.
    pub fn finish_frame(&mut self, frame: FrameRecord) -> (end: FrameEnd)
        requires
            old(self).spec_state() == AppState::Recording,
            frame.encoder.spec_complete(),
        ensures
            spec_well_formed(end.commands@),
            final(self).spec_state() == AppState::Idle,
            final(self).spec_menu_resized() == old(self).spec_menu_resized(),
            end.commands@ == frame.encoder@,
            end.actions@ == spec_finish_actions(),
    {
        self.state = AppState::Idle;
        FrameEnd {
            commands: frame.encoder.finish(),
            actions: vec![
                Action::Submit,
                Action::Present,
                Action::RunSchedule(Phase::OnRedrawPostFrame),
                Action::RunSchedule(Phase::OnRedrawEventUpdate),
            ],
        }
    }
}

/// A frame is recorded only between its image and its submission: the state
/// in which a record exists is entered by acquiring an image and by nothing
/// else, and no window event leads into or out of it but closing.
pub proof fn lemma_one_frame_at_a_time(
    state: AppState,
    menu_resized: bool,
    event: WindowEvent,
    own_window: bool,
)
    ensures
        spec_window_event(state, menu_resized, event, own_window).state == AppState::Recording
            ==> state == AppState::Recording,
        state == AppState::Recording ==> spec_window_event(
            state,
            menu_resized,
            event,
            own_window,
        ).state == AppState::Recording || spec_window_event(
            state,
            menu_resized,
            event,
            own_window,
        ).state == AppState::Exited,
        spec_window_event(state, menu_resized, event, own_window).state == AppState::AwaitingImage
            ==> state == AppState::AwaitingImage || (state == AppState::Idle && event
            == WindowEvent::RedrawRequested),
{
}

} // verus!
