//! The order in which the probe is driven to paint a region.
//!
//! Painting takes turns between the host and the target: the host writes the
//! subroutine, points the program counter at it, lets the core run until the
//! subroutine halts it, paints over the subroutine and puts the program counter
//! back. The `Painter` decides what comes next; its caller talks to the probe
//! and reports what came of it.
//!
//! The core is expected to be halted when painting starts, and is halted when
//! it has ended.

use vstd::prelude::*;
use crate::paint::{
    canary_fill,
    paint_subroutine,
    paint_subroutine_spec,
    painted_by,
    lemma_subroutine_words,
    region_error,
    CANARY_VALUE,
    PAINT_SUBROUTINE_LENGTH,
};

verus! {

/// What the probe is to do next.
#[derive(Clone, Copy, Debug, PartialEq, Eq)]
pub enum Command {
    /// Write `bytes` to the target's memory, from `address` on.
    WriteBytes { address: u32, bytes: [u8; PAINT_SUBROUTINE_LENGTH] },
    /// Read the program counter.
    ReadPc,
    /// Set the program counter to `value`.
    WritePc { value: u32 },
    /// Let the core run.
    Run,
    /// Wait until the core has halted, for no longer than the caller's timeout.
    WaitForHalt,
}

/// What a `Command` stands for.
pub enum CommandView {
    WriteBytes { address: nat, bytes: Seq<u8> },
    ReadPc,
    WritePc { value: nat },
    Run,
    WaitForHalt,
}

impl View for Command {
    type V = CommandView;

    open spec fn view(&self) -> CommandView {
        match *self {
            Command::WriteBytes { address, bytes } => CommandView::WriteBytes {
                address: address as nat,
                bytes: bytes@,
            },
            Command::ReadPc => CommandView::ReadPc,
            Command::WritePc { value } => CommandView::WritePc { value: value as nat },
            Command::Run => CommandView::Run,
            Command::WaitForHalt => CommandView::WaitForHalt,
        }
    }
}

/// What came of a command.
#[derive(Clone, Copy, Debug, PartialEq, Eq)]
pub enum Reply {
    /// The probe did what it was asked, and there is nothing to hand back.
    Done,
    /// The probe read this value.
    Value(u32),
    /// The probe failed, or the timeout ran out.
    Failed,
}

/// How far painting has come. Each phase but the last two has one command.
#[derive(Clone, Copy, Debug, PartialEq, Eq)]
pub enum Phase {
    /// The subroutine is written to the start of the region.
    WriteSubroutine,
    /// The program counter is read, to be put back later.
    SavePc,
    /// The program counter is pointed at the subroutine.
    RedirectPc,
    /// The core is let run.
    Run,
    /// The subroutine runs, until its breakpoint halts the core.
    WaitForHalt,
    /// The subroutine, which has painted all but its own bytes, is painted over.
    OverwriteSubroutine,
    /// The program counter is put back.
    RestorePc,
    /// Something failed after the program counter was redirected: it is put back, so that
    /// it does not stay pointed at the subroutine.
    Recover,
    /// The region is painted.
    Painted,
    /// Painting failed. What the region holds is not known.
    Failed,
}

/// The state of a `Painter`.
pub struct PaintState {
    /// Start of the region.
    pub start: nat,
    /// Size of the region, in bytes.
    pub size: nat,
    pub phase: Phase,
    /// The program counter as it was read in phase `SavePc`; 0 until then.
    pub previous_pc: nat,
}

/// Whether `reply` says that `command` was carried out.
pub open spec fn fulfils(reply: Reply, command: CommandView) -> bool {
    match command {
        CommandView::ReadPc => reply is Value,
        _ => reply is Done,
    }
}

impl PaintState {
    /// The region can be painted, and all numbers are addresses.
    pub open spec fn wf(self) -> bool {
        &&& region_error(self.start as int, self.size as int) is None
        &&& self.start + self.size <= u32::MAX
        &&& self.previous_pc <= u32::MAX
    }

    /// The state in which painting of `size` bytes from `start` on begins.
    pub open spec fn initial(start: nat, size: nat) -> PaintState {
        PaintState { start, size, phase: Phase::WriteSubroutine, previous_pc: 0 }
    }

    /// Painting has ended, well or not.
    pub open spec fn ended(self) -> bool {
        self.phase is Painted || self.phase is Failed
    }

    /// The command of this phase; none once painting has ended.
    ///
    /// The subroutine is placed at the start of the region and told to paint from its own end
    /// up to the end of the region, so that it does not overwrite itself while it runs.
    pub open spec fn command(self) -> Option<CommandView> {
        match self.phase {
            Phase::WriteSubroutine => Some(
                CommandView::WriteBytes {
                    address: self.start,
                    bytes: paint_subroutine_spec(
                        self.start + PAINT_SUBROUTINE_LENGTH,
                        self.size - PAINT_SUBROUTINE_LENGTH,
                    ),
                },
            ),
            Phase::SavePc => Some(CommandView::ReadPc),
            Phase::RedirectPc => Some(CommandView::WritePc { value: self.start }),
            Phase::Run => Some(CommandView::Run),
            Phase::WaitForHalt => Some(CommandView::WaitForHalt),
            Phase::OverwriteSubroutine => Some(
                CommandView::WriteBytes { address: self.start, bytes: canary_fill() },
            ),
            Phase::RestorePc => Some(CommandView::WritePc { value: self.previous_pc }),
            Phase::Recover => Some(CommandView::WritePc { value: self.previous_pc }),
            Phase::Painted => None,
            Phase::Failed => None,
        }
    }

    /// This state, in another phase.
    pub open spec fn at(self, phase: Phase) -> PaintState {
        PaintState { phase, ..self }
    }

    /// The state after `reply` has come to the command of this phase.
    ///
    /// A reply that fulfils the command leads to the next phase. Any other reply ends
    /// painting: at once while the program counter is as it was found, and else after it has
    /// been put back. Nothing is tried twice.
    pub open spec fn advance(self, reply: Reply) -> PaintState {
        match self.phase {
            Phase::WriteSubroutine => if reply is Done {
                self.at(Phase::SavePc)
            } else {
                self.at(Phase::Failed)
            },
            Phase::SavePc => match reply {
                Reply::Value(pc) => PaintState {
                    phase: Phase::RedirectPc,
                    previous_pc: pc as nat,
                    ..self
                },
                _ => self.at(Phase::Failed),
            },
            Phase::RedirectPc => if reply is Done {
                self.at(Phase::Run)
            } else {
                self.at(Phase::Recover)
            },
            Phase::Run => if reply is Done {
                self.at(Phase::WaitForHalt)
            } else {
                self.at(Phase::Recover)
            },
            Phase::WaitForHalt => if reply is Done {
                self.at(Phase::OverwriteSubroutine)
            } else {
                self.at(Phase::Recover)
            },
            Phase::OverwriteSubroutine => if reply is Done {
                self.at(Phase::RestorePc)
            } else {
                self.at(Phase::Recover)
            },
            Phase::RestorePc => if reply is Done {
                self.at(Phase::Painted)
            } else {
                self.at(Phase::Failed)
            },
            Phase::Recover => self.at(Phase::Failed),
            Phase::Painted => self,
            Phase::Failed => self,
        }
    }

    /// The most commands that are still to come.
    pub open spec fn remaining(self) -> nat {
        match self.phase {
            Phase::WriteSubroutine => 7,
            Phase::SavePc => 6,
            Phase::RedirectPc => 5,
            Phase::Run => 4,
            Phase::WaitForHalt => 3,
            Phase::OverwriteSubroutine => 2,
            Phase::RestorePc => 1,
            Phase::Recover => 1,
            Phase::Painted => 0,
            Phase::Failed => 0,
        }
    }

    /// The command of this phase is one between pointing the program counter at the
    /// subroutine and putting it back: the program counter is, or may be, pointed at the
    /// subroutine.
    pub open spec fn pc_redirected(self) -> bool {
        self.phase is RedirectPc || self.phase is Run || self.phase is WaitForHalt
            || self.phase is OverwriteSubroutine
    }

    /// Painting has failed, or is about to, once the program counter is put back.
    pub open spec fn failing(self) -> bool {
        self.phase is Recover || self.phase is Failed
    }
}

/// Paints a region of the target's memory: decides, command by command, what the probe is
/// to do.
#[derive(Clone, Copy, Debug)]
pub struct Painter {
    start: u32,
    size: u32,
    phase: Phase,
    previous_pc: u32,
}

impl View for Painter {
    type V = PaintState;

    closed spec fn view(&self) -> PaintState {
        PaintState {
            start: self.start as nat,
            size: self.size as nat,
            phase: self.phase,
            previous_pc: self.previous_pc as nat,
        }
    }
}

/// Begins to write `CANARY_VALUE` to the `size` bytes from `start` on.
///
/// Both `start` and `size` need to be 4-byte-aligned, and the painting subroutine has to fit
/// inside the region.
pub fn paint_stack(start: u32, size: u32) -> (painter: Painter)
    requires
        region_error(start as int, size as int) is None,
        start + size <= u32::MAX,
    ensures
        painter@ == PaintState::initial(start as nat, size as nat),
        painter@.wf(),
{
    Painter { start, size, phase: Phase::WriteSubroutine, previous_pc: 0 }
}

impl Painter {
    #[verifier::type_invariant]
    spec fn inv(self) -> bool {
        self@.wf()
    }

    /// How far painting has come.
    pub fn phase(&self) -> (phase: Phase)
        ensures
            phase == self@.phase,
            self@.wf(),
    {
        proof {
            use_type_invariant(self);
        }
        self.phase
    }

    /// What the probe is to do next; `None` once painting has ended.
    pub fn command(&self) -> (command: Option<Command>)
        ensures
            match command {
                Some(command) => self@.command() == Some(command@),
                None => self@.command() is None,
            },
    {
        proof {
            use_type_invariant(self);
        }
        match self.phase {
            Phase::WriteSubroutine => {
                let length: u32 = PAINT_SUBROUTINE_LENGTH as u32;
                let bytes = paint_subroutine(self.start + length, self.size - length);
                Some(Command::WriteBytes { address: self.start, bytes })
            },
            Phase::SavePc => Some(Command::ReadPc),
            Phase::RedirectPc => Some(Command::WritePc { value: self.start }),
            Phase::Run => Some(Command::Run),
            Phase::WaitForHalt => Some(Command::WaitForHalt),
            Phase::OverwriteSubroutine => {
                let bytes: [u8; PAINT_SUBROUTINE_LENGTH] = [CANARY_VALUE;PAINT_SUBROUTINE_LENGTH];
                assert(bytes@ =~= canary_fill());
                Some(Command::WriteBytes { address: self.start, bytes })
            },
            Phase::RestorePc => Some(Command::WritePc { value: self.previous_pc }),
            Phase::Recover => Some(Command::WritePc { value: self.previous_pc }),
            Phase::Painted => None,
            Phase::Failed => None,
        }
    }

    /// Takes in what came of the last command.
    pub fn advance(self, reply: Reply) -> (next: Painter)
        ensures
            next@ == self@.advance(reply),
            next@.wf(),
    {
        proof {
            use_type_invariant(&self);
        }
        let Painter { start, size, phase, previous_pc } = self;
        let done = match reply {
            Reply::Done => true,
            _ => false,
        };
        match phase {
            Phase::WriteSubroutine => Painter {
                start,
                size,
                phase: if done { Phase::SavePc } else { Phase::Failed },
                previous_pc,
            },
            Phase::SavePc => match reply {
                Reply::Value(pc) => Painter { start, size, phase: Phase::RedirectPc, previous_pc: pc },
                _ => Painter { start, size, phase: Phase::Failed, previous_pc },
            },
            Phase::RedirectPc => Painter {
                start,
                size,
                phase: if done { Phase::Run } else { Phase::Recover },
                previous_pc,
            },
            Phase::Run => Painter {
                start,
                size,
                phase: if done { Phase::WaitForHalt } else { Phase::Recover },
                previous_pc,
            },
            Phase::WaitForHalt => Painter {
                start,
                size,
                phase: if done { Phase::OverwriteSubroutine } else { Phase::Recover },
                previous_pc,
            },
            Phase::OverwriteSubroutine => Painter {
                start,
                size,
                phase: if done { Phase::RestorePc } else { Phase::Recover },
                previous_pc,
            },
            Phase::RestorePc => Painter {
                start,
                size,
                phase: if done { Phase::Painted } else { Phase::Failed },
                previous_pc,
            },
            Phase::Recover => Painter { start, size, phase: Phase::Failed, previous_pc },
            Phase::Painted => Painter { start, size, phase: Phase::Painted, previous_pc },
            Phase::Failed => Painter { start, size, phase: Phase::Failed, previous_pc },
        }
    }
}

/// Where nothing fails, painting takes seven commands: write the subroutine, read the
/// program counter, point it at the subroutine, run, wait for the halt, paint over the
/// subroutine, put the program counter back to what was read. Then the region is painted.
pub proof fn lemma_undisturbed_run(start: nat, size: nat, pc: u32)
    requires
        PaintState::initial(start, size).wf(),
    ensures
        ({
            let s0 = PaintState::initial(start, size);
            let s1 = s0.advance(Reply::Done);
            let s2 = s1.advance(Reply::Value(pc));
            let s3 = s2.advance(Reply::Done);
            let s4 = s3.advance(Reply::Done);
            let s5 = s4.advance(Reply::Done);
            let s6 = s5.advance(Reply::Done);
            let s7 = s6.advance(Reply::Done);
            &&& s0.command() == Some(
                CommandView::WriteBytes {
                    address: start,
                    bytes: paint_subroutine_spec(
                        start + PAINT_SUBROUTINE_LENGTH,
                        size - PAINT_SUBROUTINE_LENGTH,
                    ),
                },
            )
            &&& s1.command() == Some(CommandView::ReadPc)
            &&& s2.command() == Some(CommandView::WritePc { value: start })
            &&& s3.command() == Some(CommandView::Run)
            &&& s4.command() == Some(CommandView::WaitForHalt)
            &&& s5.command() == Some(
                CommandView::WriteBytes { address: start, bytes: canary_fill() },
            )
            &&& s6.command() == Some(CommandView::WritePc { value: pc as nat })
            &&& s7.phase is Painted
            &&& s7.command() is None
        }),
{
}

/// A reply that does not fulfil its command makes painting fail: at once where the program
/// counter is as it was found, and else after one more command, which puts it back to what
/// was read.
pub proof fn lemma_failure_restores_pc(state: PaintState, reply: Reply, last: Reply)
    requires
        !state.ended(),
        !fulfils(reply, state.command()->Some_0),
    ensures
        state.advance(reply).failing(),
        state.pc_redirected() ==> {
            &&& state.advance(reply).command() == Some(
                CommandView::WritePc { value: state.previous_pc },
            )
            &&& state.advance(reply).advance(last).phase is Failed
        },
        !state.pc_redirected() ==> state.advance(reply).phase is Failed,
{
}

/// Once painting fails it does not recover: the region is painted only where every command
/// was fulfilled.
pub proof fn lemma_failure_is_final(state: PaintState, reply: Reply)
    requires
        state.failing(),
    ensures
        state.advance(reply).phase is Failed,
        !state.ended() ==> state.command() == Some(
            CommandView::WritePc { value: state.previous_pc },
        ),
{
}

/// Painting ends: every reply brings the end nearer, and there is a command exactly as
/// long as the end has not come. Once it has, no reply changes anything.
pub proof fn lemma_painting_ends(state: PaintState, reply: Reply)
    ensures
        state.command() is None <==> state.ended(),
        state.ended() <==> state.remaining() == 0,
        !state.ended() ==> state.advance(reply).remaining() < state.remaining(),
        state.ended() ==> state.advance(reply) == state,
        state.advance(reply).start == state.start,
        state.advance(reply).size == state.size,
        state.wf() ==> state.advance(reply).wf(),
{
}

/// What the subroutine stores to and what is painted over afterwards are apart, and
/// together they are the region: each of its `size` bytes is painted once, and no other.
pub proof fn lemma_region_is_covered(start: nat, size: nat)
    requires
        PaintState::initial(start, size).wf(),
    ensures
        ({
            let state = PaintState::initial(start, size);
            let subroutine = state.command()->Some_0->WriteBytes_bytes;
            let by_target = painted_by(subroutine);
            let by_host = Set::new(
                |address: int| start <= address < start + PAINT_SUBROUTINE_LENGTH,
            );
            &&& by_target.disjoint(by_host)
            &&& by_target.union(by_host) == Set::new(
                |address: int| start <= address < start + size,
            )
        }),
{
    lemma_subroutine_words(start + PAINT_SUBROUTINE_LENGTH, size - PAINT_SUBROUTINE_LENGTH);
    let state = PaintState::initial(start, size);
    let subroutine = state.command()->Some_0->WriteBytes_bytes;
    let by_target = painted_by(subroutine);
    let by_host = Set::new(|address: int| start <= address < start + PAINT_SUBROUTINE_LENGTH);
    assert(by_target.union(by_host) =~= Set::new(|address: int| start <= address < start + size));
}

} // verus!
