//! Device resources: textures, buffers, binding sets, shaders, timestamp queries.

use vstd::prelude::*;

pub mod binding;
pub mod buffer;
pub mod preprocess;
pub mod shader;
pub mod stream;
pub mod texture;
pub mod timestamp;

use texture::Extent3d;

verus! {

/// What a render pass draws into.
#[derive(Debug, Clone, Copy, PartialEq, Eq, Structural)]
pub enum RenderTarget {
    /// The image acquired from the swapchain for this frame.
    Surface,
    /// A texture of the renderer.
    Texture(u64),
}

/// What happens to a render target when a pass begins.
#[derive(Debug, Clone, Copy, PartialEq, Eq, Structural)]
pub enum LoadOp {
    /// The target keeps what it holds.
    Load,
    /// The target is cleared to the color of these channels, in thousandths.
    Clear { red: u16, green: u16, blue: u16, alpha: u16 },
}

/// One step of the work recorded for a frame.
#[derive(Debug, Clone, Copy, PartialEq, Eq, Structural)]
pub enum Command {
    WriteTimestamp { query_set: u64, index: u32 },
    ResolveQuerySet { query_set: u64, first: u32, count: u32, destination: u64, offset: u64 },
    CopyBufferToBuffer {
        source: u64,
        source_offset: u64,
        destination: u64,
        destination_offset: u64,
        size: u64,
    },
    CopyTextureToTexture { source: u64, destination: u64, extent: Extent3d },
    BeginComputePass,
    BeginRenderPass { target: RenderTarget, load: LoadOp },
    SetBindGroup { index: u32, bind_group: u64 },
    SetPipeline { pipeline: u64 },
    DispatchWorkgroups { x: u32, y: u32, z: u32 },
    Draw { first_vertex: u32, vertex_count: u32, first_instance: u32, instance_count: u32 },
    EndPass,
}

/// Where a recording stands: outside any pass, or inside a compute or a
/// render pass, with or without a pipeline set in it.
#[derive(Debug, Clone, Copy, PartialEq, Eq, Structural)]
pub enum EncoderState {
    Outside,
    Compute { pipeline: bool },
    Render { pipeline: bool },
}

/// The state that `command` leads to from `state`; `None` where the command
/// has no place there. Copies, resolves and timestamps stand outside passes.
/// A pass begins outside any pass and ends inside one. Bind groups and the
/// pipeline are set inside a pass; a dispatch stands in a compute pass and a
/// draw in a render pass, each behind the pipeline.
pub open spec fn spec_step(state: EncoderState, command: Command) -> Option<EncoderState> {
    match (state, command) {
        (EncoderState::Outside, Command::WriteTimestamp { .. }) => Some(EncoderState::Outside),
        (EncoderState::Outside, Command::ResolveQuerySet { .. }) => Some(EncoderState::Outside),
        (EncoderState::Outside, Command::CopyBufferToBuffer { .. }) => Some(EncoderState::Outside),
        (EncoderState::Outside, Command::CopyTextureToTexture { .. }) => Some(
            EncoderState::Outside,
        ),
        (EncoderState::Outside, Command::BeginComputePass) => Some(
            EncoderState::Compute { pipeline: false },
        ),
        (EncoderState::Outside, Command::BeginRenderPass { .. }) => Some(
            EncoderState::Render { pipeline: false },
        ),
        (EncoderState::Compute { pipeline }, Command::SetBindGroup { .. }) => Some(
            EncoderState::Compute { pipeline },
        ),
        (EncoderState::Compute { .. }, Command::SetPipeline { .. }) => Some(
            EncoderState::Compute { pipeline: true },
        ),
        (EncoderState::Compute { pipeline: true }, Command::DispatchWorkgroups { .. }) => Some(
            EncoderState::Compute { pipeline: true },
        ),
        (EncoderState::Compute { .. }, Command::EndPass) => Some(EncoderState::Outside),
        (EncoderState::Render { pipeline }, Command::SetBindGroup { .. }) => Some(
            EncoderState::Render { pipeline },
        ),
        (EncoderState::Render { .. }, Command::SetPipeline { .. }) => Some(
            EncoderState::Render { pipeline: true },
        ),
        (EncoderState::Render { pipeline: true }, Command::Draw { .. }) => Some(
            EncoderState::Render { pipeline: true },
        ),
        (EncoderState::Render { .. }, Command::EndPass) => Some(EncoderState::Outside),
        _ => None,
    }
}

/// The state that `commands` lead to from `state`, one after the other;
/// `None` where one of them has no place where it stands.
pub open spec fn spec_run(state: EncoderState, commands: Seq<Command>) -> Option<EncoderState>
    decreases commands.len(),
{
    if commands.len() == 0 {
        Some(state)
    } else {
        match spec_run(state, commands.drop_last()) {
            Some(before) => spec_step(before, commands.last()),
            None => None,
        }
    }
}

/// Whether `commands` are a whole recording: every command stands where it
/// has a place, and every pass that begins ends.
pub open spec fn spec_well_formed(commands: Seq<Command>) -> bool {
    spec_run(EncoderState::Outside, commands) == Some(EncoderState::Outside)
}

/// Commands that lead from one state to a second, followed by commands that
/// lead from the second to a third, lead from the first to the third.
pub proof fn lemma_run_append(state: EncoderState, first: Seq<Command>, second: Seq<Command>)
    ensures
        spec_run(state, first + second) == (match spec_run(state, first) {
            Some(between) => spec_run(between, second),
            None => None,
        }),
    decreases second.len(),
{
    if second.len() == 0 {
        assert(first + second =~= first);
    } else {
        assert((first + second).drop_last() =~= first + second.drop_last());
        assert((first + second).last() == second.last());
        lemma_run_append(state, first, second.drop_last());
    }
}

/// A recording with one more command leads to where that command leads
/// from where the recording led.
pub proof fn lemma_run_push(state: EncoderState, commands: Seq<Command>, command: Command)
    ensures
        spec_run(state, commands.push(command)) == (match spec_run(state, commands) {
            Some(before) => spec_step(before, command),
            None => None,
        }),
{
    assert(commands.push(command).drop_last() =~= commands);
}

/// One whole recording behind another is a whole recording.
pub proof fn lemma_well_formed_append(first: Seq<Command>, second: Seq<Command>)
    requires
        spec_well_formed(first),
        spec_well_formed(second),
    ensures
        spec_well_formed(first + second),
{
    lemma_run_append(EncoderState::Outside, first, second);
}

/// The state that `command` leads to from `state`.
pub fn step(state: EncoderState, command: Command) -> (next: Option<EncoderState>)
    ensures
        next == spec_step(state, command),
{
    match state {
        EncoderState::Outside => match command {
            Command::WriteTimestamp { .. } => Some(EncoderState::Outside),
            Command::ResolveQuerySet { .. } => Some(EncoderState::Outside),
            Command::CopyBufferToBuffer { .. } => Some(EncoderState::Outside),
            Command::CopyTextureToTexture { .. } => Some(EncoderState::Outside),
            Command::BeginComputePass => Some(EncoderState::Compute { pipeline: false }),
            Command::BeginRenderPass { .. } => Some(EncoderState::Render { pipeline: false }),
            _ => None,
        },
        EncoderState::Compute { pipeline } => match command {
            Command::SetBindGroup { .. } => Some(EncoderState::Compute { pipeline }),
            Command::SetPipeline { .. } => Some(EncoderState::Compute { pipeline: true }),
            Command::DispatchWorkgroups { .. } => if pipeline {
                Some(EncoderState::Compute { pipeline: true })
            } else {
                None
            },
            Command::EndPass => Some(EncoderState::Outside),
            _ => None,
        },
        EncoderState::Render { pipeline } => match command {
            Command::SetBindGroup { .. } => Some(EncoderState::Render { pipeline }),
            Command::SetPipeline { .. } => Some(EncoderState::Render { pipeline: true }),
            Command::Draw { .. } => if pipeline {
                Some(EncoderState::Render { pipeline: true })
            } else {
                None
            },
            Command::EndPass => Some(EncoderState::Outside),
            _ => None,
        },
    }
}

/// Records the work of a frame, in the order in which the device is to do
/// it. Only a command that has a place where the recording stands is taken.
#[derive(Debug)]
pub struct CommandEncoder {
    commands: Vec<Command>,
    state: EncoderState,
}

impl View for CommandEncoder {
    type V = Seq<Command>;

    closed spec fn view(&self) -> Seq<Command> {
        self.commands@
    }
}

impl CommandEncoder {
    /// Where the recording stands.
    pub closed spec fn spec_state(&self) -> EncoderState {
        self.state
    }

    /// The state is the one that the recorded commands lead to.
    pub open spec fn wf(&self) -> bool {
        spec_run(EncoderState::Outside, self@) == Some(self.spec_state())
    }

    /// Whether the recording is well formed and stands outside any pass.
    pub open spec fn spec_complete(&self) -> bool {
        self.wf() && self.spec_state() == EncoderState::Outside
    }

    /// An encoder that has recorded nothing.
    pub fn new() -> (encoder: Self)
        ensures
            encoder@ == Seq::<Command>::empty(),
            encoder.spec_complete(),
    {
        CommandEncoder { commands: Vec::new(), state: EncoderState::Outside }
    }

    /// Records `command` behind what was recorded before.
    pub fn record(&mut self, command: Command)
        requires
            old(self).wf(),
            spec_step(old(self).spec_state(), command) is Some,
        ensures
            final(self).wf(),
            final(self)@ == old(self)@.push(command),
            Some(final(self).spec_state()) == spec_step(old(self).spec_state(), command),
    {
        let ghost before = self.commands@;
        match step(self.state, command) {
            Some(next) => {
                self.state = next;
            },
            None => {},
        }
        self.commands.push(command);
        assert(self.commands@.drop_last() =~= before);
    }

    /// Records `command` where it has a place, and refuses it where it has
    /// none. Returns whether it was recorded.
    pub fn try_record(&mut self, command: Command) -> (recorded: bool)
        requires
            old(self).wf(),
        ensures
            final(self).wf(),
            recorded == (spec_step(old(self).spec_state(), command) is Some),
            recorded ==> final(self)@ == old(self)@.push(command) && Some(
                final(self).spec_state(),
            ) == spec_step(old(self).spec_state(), command),
            !recorded ==> *final(self) == *old(self),
    {
        match step(self.state, command) {
            Some(_) => {
                self.record(command);
                true
            },
            None => false,
        }
    }

    /// Where the recording stands.
    #[verifier::when_used_as_spec(spec_state)]
    pub fn state(&self) -> (state: EncoderState)
        ensures
            state == self.spec_state(),
    {
        self.state
    }

    /// What was recorded, in order.
    pub fn commands(&self) -> (commands: &Vec<Command>)
        ensures
            commands@ == self@,
    {
        &self.commands
    }

    /// Ends a recording that stands outside any pass and hands out the
    /// commands for submission.
    pub fn finish(self) -> (commands: Vec<Command>)
        requires
            self.spec_complete(),
        ensures
            commands@ == self@,
            spec_well_formed(commands@),
    {
        self.commands
    }
}

/// Numbers the resources that are created on one device.
///
/// Every resource gets an identity that no other resource of the same context
/// ever had; a backend keeps the device object under that identity.
pub struct GpuContext {
    next_id: u64,
    float32_filterable: bool,
}

impl GpuContext {
    /// The identity that the next created resource gets.
    pub closed spec fn next_id(&self) -> u64 {
        self.next_id
    }

    /// Whether the device can filter 32-bit float textures.
    pub closed spec fn spec_float32_filterable(&self) -> bool {
        self.float32_filterable
    }

    /// Whether `count` more resources can be created.
    pub open spec fn has_room(&self, count: nat) -> bool {
        self.next_id() + count <= u64::MAX
    }

    /// Whether a resource with identity `id` was created in this context.
    pub open spec fn issued(&self, id: u64) -> bool {
        id < self.next_id()
    }

    /// A context that has created nothing yet.
    pub fn new(float32_filterable: bool) -> (gpu: Self)
        ensures
            gpu.next_id() == 0,
            gpu.spec_float32_filterable() == float32_filterable,
    {
        GpuContext { next_id: 0, float32_filterable }
    }

    /// Hands out a fresh identity.
    pub fn allocate(&mut self) -> (id: u64)
        requires
            old(self).has_room(1),
        ensures
            id == old(self).next_id(),
            final(self).next_id() == old(self).next_id() + 1,
            final(self).spec_float32_filterable() == old(self).spec_float32_filterable(),
    {
        let id: u64 = self.next_id;
        self.next_id = self.next_id + 1;
        id
    }

    /// How many resources were created so far, which is the identity that
    /// the next one gets.
    pub fn created(&self) -> (count: u64)
        ensures
            count == self.next_id(),
    {
        self.next_id
    }

    /// How many further resources can be created.
    pub fn remaining(&self) -> (left: u64)
        ensures
            left == u64::MAX - self.next_id(),
    {
        u64::MAX - self.next_id
    }

    /// Whether the device can filter 32-bit float textures.
    #[verifier::when_used_as_spec(spec_float32_filterable)]
    pub fn float32_filterable(&self) -> (yes: bool)
        ensures
            yes == self.spec_float32_filterable(),
    {
        self.float32_filterable
    }
}

} // verus!
