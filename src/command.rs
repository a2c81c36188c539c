//! One step of an operation on the panel: a DSI command, or a pause.

use vstd::prelude::*;

verus! {

/// A command for the DSI host, or a pause between two commands.
#[derive(Clone, Debug, PartialEq, Eq)]
pub enum Step {
    /// DCS short write with one parameter byte.
    ShortWrite { reg: u8, data: u8 },
    /// DCS long write with a parameter buffer.
    LongWrite { cmd: u8, buf: Vec<u8> },
    /// DCS short read of `len` bytes.
    Read { cmd: u8, len: usize },
    /// Wait for at least `ms` milliseconds.
    Delay { ms: u32 },
}

/// The mathematical value of a [`Step`].
pub enum StepModel {
    ShortWrite { reg: u8, data: u8 },
    LongWrite { cmd: u8, buf: Seq<u8> },
    Read { cmd: u8, len: nat },
    Delay { ms: u32 },
}

impl View for Step {
    type V = StepModel;

    open spec fn view(&self) -> StepModel {
        match self {
            Step::ShortWrite { reg, data } => StepModel::ShortWrite { reg: *reg, data: *data },
            Step::LongWrite { cmd, buf } => StepModel::LongWrite { cmd: *cmd, buf: buf@ },
            Step::Read { cmd, len } => StepModel::Read { cmd: *cmd, len: *len as nat },
            Step::Delay { ms } => StepModel::Delay { ms: *ms },
        }
    }
}

impl StepModel {
    /// Whether this step goes over the DSI link (every step but a pause).
    pub open spec fn is_transfer(self) -> bool {
        !(self is Delay)
    }
}

/// The models of a sequence of steps.
pub open spec fn models(s: Seq<Step>) -> Seq<StepModel> {
    Seq::new(s.len(), |i: int| s[i]@)
}

/// Pushing a step pushes its model.
pub proof fn lemma_models_push(s: Seq<Step>, x: Step)
    ensures
        models(s.push(x)) == models(s).push(x@),
{
    assert(models(s.push(x)) =~= models(s).push(x@));
}

/// Appends `x` to `v`.
pub fn push_step(v: &mut Vec<Step>, x: Step)
    ensures
        models(final(v)@) == models(old(v)@).push(x@),
{
    proof {
        lemma_models_push(old(v)@, x);
    }
    v.push(x);
}

/// The model of a short write of `data` to `reg`.
pub open spec fn short_model(reg: u8, data: u8) -> StepModel {
    StepModel::ShortWrite { reg, data }
}

/// The model of a long write of `buf` to `cmd`.
pub open spec fn long_model(cmd: u8, buf: Seq<u8>) -> StepModel {
    StepModel::LongWrite { cmd, buf }
}

/// The model of a read of `len` bytes from `cmd`.
pub open spec fn read_model(cmd: u8, len: nat) -> StepModel {
    StepModel::Read { cmd, len }
}

/// The model of a pause of `ms` milliseconds.
pub open spec fn delay_model(ms: u32) -> StepModel {
    StepModel::Delay { ms }
}

/// Appends a short write of `data` to `reg`.
pub fn push_short(v: &mut Vec<Step>, reg: u8, data: u8)
    ensures
        models(final(v)@) == models(old(v)@).push(short_model(reg, data)),
{
    push_step(v, Step::ShortWrite { reg, data });
}

/// Appends a long write of `buf` to `cmd`.
pub fn push_long(v: &mut Vec<Step>, cmd: u8, buf: Vec<u8>)
    ensures
        models(final(v)@) == models(old(v)@).push(long_model(cmd, buf@)),
{
    push_step(v, Step::LongWrite { cmd, buf });
}

/// Appends a read of `len` bytes from `cmd`.
pub fn push_read(v: &mut Vec<Step>, cmd: u8, len: usize)
    ensures
        models(final(v)@) == models(old(v)@).push(read_model(cmd, len as nat)),
{
    push_step(v, Step::Read { cmd, len });
}

/// Appends a pause of `ms` milliseconds.
pub fn push_delay(v: &mut Vec<Step>, ms: u32)
    ensures
        models(final(v)@) == models(old(v)@).push(delay_model(ms)),
{
    push_step(v, Step::Delay { ms });
}

} // verus!
