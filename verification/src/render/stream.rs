//! A recording taken apart: the commands that stand alone, and the passes
//! with what stands inside them.

use vstd::prelude::*;
use super::{
    lemma_run_push, spec_run, spec_step, spec_well_formed, step, Command, EncoderState, LoadOp,
    RenderTarget,
};

verus! {

/// The kind of a pass, with what a render pass draws into.
#[derive(Debug, Clone, Copy, PartialEq, Eq, Structural)]
pub enum PassKind {
    Compute,
    Render { target: RenderTarget, load: LoadOp },
}

/// A pass: its kind and the commands between its begin and its end.
#[derive(Debug)]
pub struct Pass {
    pub kind: PassKind,
    pub commands: Vec<Command>,
}

/// One part of a recording.
#[derive(Debug)]
pub enum Segment {
    /// A command that stands outside any pass.
    Single(Command),
    /// A whole pass.
    Pass(Pass),
}

/// The command that begins a pass of `kind`.
pub open spec fn spec_begin(kind: PassKind) -> Command {
    match kind {
        PassKind::Compute => Command::BeginComputePass,
        PassKind::Render { target, load } => Command::BeginRenderPass { target, load },
    }
}

/// The commands that a segment stands for.
pub open spec fn spec_segment_commands(segment: Segment) -> Seq<Command> {
    match segment {
        Segment::Single(command) => seq![command],
        Segment::Pass(pass) => seq![spec_begin(pass.kind)] + pass.commands@ + seq![Command::EndPass],
    }
}

/// The commands that `segments` stand for, one segment after the other.
pub open spec fn spec_flatten(segments: Seq<Segment>) -> Seq<Command>
    decreases segments.len(),
{
    if segments.len() == 0 {
        Seq::<Command>::empty()
    } else {
        spec_flatten(segments.drop_last()) + spec_segment_commands(segments.last())
    }
}

/// The commands of a pass that is begun and not ended, or none.
pub open spec fn spec_begun(open: Option<Pass>) -> Seq<Command> {
    match open {
        Some(pass) => seq![spec_begin(pass.kind)] + pass.commands@,
        None => Seq::<Command>::empty(),
    }
}

/// Where a recording stands right behind the begin of a pass of `kind`.
pub open spec fn spec_inside(kind: PassKind) -> EncoderState {
    match kind {
        PassKind::Compute => EncoderState::Compute { pipeline: false },
        PassKind::Render { .. } => EncoderState::Render { pipeline: false },
    }
}

/// Whether a recording that stands at `state` has the pass `open` begun and
/// has come to `state` by the commands inside it.
pub open spec fn spec_stands_in(state: EncoderState, open: Option<Pass>) -> bool {
    match open {
        None => state == EncoderState::Outside,
        Some(pass) => state != EncoderState::Outside && spec_run(
            spec_inside(pass.kind),
            pass.commands@,
        ) == Some(state),
    }
}

/// Whether a segment is sound: a single command has its place outside any
/// pass, and every command of a pass has its place inside that pass, so a
/// compute pass holds bind groups, pipelines and dispatches behind a
/// pipeline, and a render pass holds bind groups, pipelines and draws behind
/// a pipeline.
pub open spec fn spec_sound(segment: Segment) -> bool {
    match segment {
        Segment::Single(command) => spec_step(EncoderState::Outside, command) == Some(
            EncoderState::Outside,
        ),
        Segment::Pass(pass) => spec_run(spec_inside(pass.kind), pass.commands@) matches Some(
            state,
        ) && state != EncoderState::Outside,
    }
}

/// A recording that has failed stays failed whatever follows.
pub proof fn lemma_failed_stays_failed(commands: Seq<Command>, upto: int)
    requires
        0 <= upto <= commands.len(),
        spec_run(EncoderState::Outside, commands.take(upto)) is None,
    ensures
        spec_run(EncoderState::Outside, commands) is None,
    decreases commands.len() - upto,
{
    if upto == commands.len() {
        assert(commands.take(upto) =~= commands);
    } else {
        assert(commands.take(upto + 1) =~= commands.take(upto).push(commands[upto]));
        lemma_run_push(EncoderState::Outside, commands.take(upto), commands[upto]);
        lemma_failed_stays_failed(commands, upto + 1);
    }
}

/// Takes a recording apart. A recording that is whole gives its segments in
/// order, which stand for exactly its commands; any other gives `None`.
pub fn segments(commands: &[Command]) -> (parts: Option<Vec<Segment>>)
    ensures
        parts is Some <==> spec_well_formed(commands@),
        parts matches Some(segments) ==> spec_flatten(segments@) == commands@,
        parts matches Some(segments) ==> forall|k: int|
            0 <= k < segments@.len() ==> spec_sound(#[trigger] segments@[k]),
{
    let mut parts: Vec<Segment> = Vec::new();
    let mut open: Option<Pass> = None;
    let mut state = EncoderState::Outside;
    let mut i: usize = 0;
    assert(commands@.take(0) =~= Seq::<Command>::empty());
    while i < commands.len()
        invariant
            i <= commands@.len(),
            spec_run(EncoderState::Outside, commands@.take(i as int)) == Some(state),
            spec_stands_in(state, open),
            spec_flatten(parts@) + spec_begun(open) == commands@.take(i as int),
            forall|k: int| 0 <= k < parts@.len() ==> spec_sound(#[trigger] parts@[k]),
        decreases commands.len() - i,
    {
        let command = commands[i];
        proof {
            assert(commands@.take(i + 1) =~= commands@.take(i as int).push(command));
            lemma_run_push(EncoderState::Outside, commands@.take(i as int), command);
        }
        let next = match step(state, command) {
            Some(next) => next,
            None => {
                proof {
                    lemma_failed_stays_failed(commands@, i + 1);
                }
                return None;
            },
        };
        let ghost flat = spec_flatten(parts@);
        let ghost begun = spec_begun(open);
        match open {
            None => match command {
                Command::BeginComputePass => {
                    open = Some(Pass { kind: PassKind::Compute, commands: Vec::new() });
                    assert(spec_begun(open) =~= seq![command]);
                },
                Command::BeginRenderPass { target, load } => {
                    open = Some(
                        Pass { kind: PassKind::Render { target, load }, commands: Vec::new() },
                    );
                    assert(spec_begun(open) =~= seq![command]);
                },
                _ => {
                    let ghost before = parts@;
                    parts.push(Segment::Single(command));
                    assert(parts@.drop_last() =~= before);
                    assert(spec_flatten(parts@) =~= flat + seq![command]);
                    open = None;
                },
            },
            Some(pass) => match command {
                Command::EndPass => {
                    let ghost before = parts@;
                    parts.push(Segment::Pass(pass));
                    assert(parts@.drop_last() =~= before);
                    assert(spec_flatten(parts@) =~= flat + (begun + seq![command]));
                    open = None;
                },
                _ => {
                    let mut pass = pass;
                    proof {
                        lemma_run_push(spec_inside(pass.kind), pass.commands@, command);
                    }
                    pass.commands.push(command);
                    open = Some(pass);
                    assert(spec_begun(open) =~= begun + seq![command]);
                },
            },
        }
        assert(spec_flatten(parts@) + spec_begun(open) =~= (flat + begun).push(command));
        state = next;
        i = i + 1;
    }
    assert(commands@.take(commands@.len() as int) =~= commands@);
    match open {
        None => {
            assert(spec_flatten(parts@) + spec_begun(open) =~= spec_flatten(parts@));
            Some(parts)
        },
        Some(_) => None,
    }
}

} // verus!
