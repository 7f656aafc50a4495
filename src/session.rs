//! The debug session side: what a probe and a connection look like, the
//! direct memory read, and the halt/resume discipline around a write.
//!
//! A write to target RAM happens with the core halted. If the core was
//! running, it is halted first and resumed afterwards, also when the write
//! failed; a failed resume is reported beside, not instead of, the write's own
//! outcome. The caller performs each core command that `HaltedWrite` asks for
//! and reports whether it succeeded.
use vstd::prelude::*;
use crate::codec::{decode, decode_spec, TypedValue, VarType};

verus! {

/// A debug probe seen on the host.
#[derive(Debug, Clone)]
pub struct ProbeInfo {
    pub name: String,
    pub vendor_id: u16,
    pub product_id: u16,
    pub serial_number: Option<String>,
    pub probe_type: String,
}

/// The target a session is attached to.
#[derive(Debug, Clone)]
pub struct SessionInfo {
    pub target_name: String,
    pub connected: bool,
    pub chip_id: Option<String>,
}

impl SessionInfo {
    /// The description of a live session on the target `target_name`; the
    /// target's name also serves as its chip identifier.
    pub fn attached_to(target_name: String) -> (r: SessionInfo)
        ensures
            r.target_name@ == target_name@,
            r.connected,
            r.chip_id matches Some(c) && c@ == target_name@,
    {
        let chip = target_name.clone();
        SessionInfo { target_name, connected: true, chip_id: Some(chip) }
    }
}

/// Why an operation on the target failed.
#[derive(Debug, Clone, Copy, PartialEq, Eq, Structural)]
pub enum TargetError {
    /// No session is active: connect first.
    NoActiveSession,
    /// The probe index names no probe that is present.
    InvalidProbeIndex,
    /// The type tag is not one of the supported types.
    UnsupportedType,
    /// Reading target memory failed.
    ReadFailed,
    /// The core did not halt in time.
    HaltTimeout,
    /// Writing target memory failed; some probe and target combinations
    /// cannot write RAM while debugging.
    WriteUnsupported,
    /// The write succeeded but the core could not be resumed.
    ResumeFailed,
    /// The write failed and then the core could not be resumed either.
    WriteUnsupportedAndResumeFailed,
}

/// Accepts `probe_index` when it names one of `probe_count` probes.
pub fn check_probe_index(probe_index: usize, probe_count: usize) -> (r: Result<(), TargetError>)
    ensures
        r is Ok <==> probe_index < probe_count,
        r is Err ==> r == Err::<(), TargetError>(TargetError::InvalidProbeIndex),
{
    if probe_index < probe_count {
        Ok(())
    } else {
        Err(TargetError::InvalidProbeIndex)
    }
}

/// The value that a direct read of a `ty` gave: the decoded bytes, or
/// `ReadFailed` when the read failed or came back short.
pub fn decode_read(ty: VarType, read: Option<Vec<u8>>) -> (r: Result<TypedValue, TargetError>)
    ensures
        (read matches Some(b) && b@.len() >= ty.spec_width()) ==> r == Ok::<TypedValue, TargetError>(
            decode_spec(ty, read->Some_0@),
        ),
        !(read matches Some(b) && b@.len() >= ty.spec_width()) ==> r == Err::<TypedValue, TargetError>(
            TargetError::ReadFailed,
        ),
{
    match read {
        Some(b) => match decode(ty, b.as_slice()) {
            Some(v) => Ok(v),
            None => Err(TargetError::ReadFailed),
        },
        None => Err(TargetError::ReadFailed),
    }
}

/// The core command a halted write needs next.
#[derive(Debug, Clone, Copy, PartialEq, Eq, Structural)]
pub enum CoreStep {
    /// Halt the core, with a bounded wait.
    Halt,
    /// Perform the memory write.
    Write,
    /// Resume the core.
    Resume,
    /// Nothing more; read `outcome`.
    Done,
}

#[derive(Debug, Clone, Copy, PartialEq, Eq, Structural)]
pub enum WritePhase {
    Halting,
    Writing,
    Resuming,
    Finished,
}

/// What a halted write in progress is, abstractly.
pub ghost struct HaltedWriteModel {
    /// The core was running when the write began.
    pub was_running: bool,
    pub phase: WritePhase,
    pub halt_failed: bool,
    pub write_failed: bool,
    pub resume_failed: bool,
    /// Whether the core is halted, given the commands that succeeded.
    pub core_halted: bool,
}

impl HaltedWriteModel {
    pub open spec fn wf(self) -> bool {
        &&& self.phase is Halting ==> self.was_running && !self.core_halted && !self.halt_failed
            && !self.write_failed && !self.resume_failed
        &&& self.phase is Writing ==> self.core_halted && !self.halt_failed && !self.write_failed
            && !self.resume_failed
        &&& self.phase is Resuming ==> self.was_running && self.core_halted && !self.halt_failed
            && !self.resume_failed
        &&& self.halt_failed ==> self.phase is Finished && !self.write_failed
            && !self.resume_failed
        &&& self.resume_failed ==> self.was_running
        &&& (self.phase is Finished && !self.resume_failed) ==> self.core_halted
            == !self.was_running
        &&& (self.phase is Finished && self.resume_failed) ==> self.core_halted
    }

    /// The state in which a write begins on a core observed as `halted`.
    pub open spec fn initial(halted: bool) -> HaltedWriteModel {
        HaltedWriteModel {
            was_running: !halted,
            phase: if halted { WritePhase::Writing } else { WritePhase::Halting },
            halt_failed: false,
            write_failed: false,
            resume_failed: false,
            core_halted: halted,
        }
    }

    /// The state after the halt command succeeded (`ok`) or timed out.
    pub open spec fn after_halt(self, ok: bool) -> HaltedWriteModel {
        HaltedWriteModel {
            phase: if ok { WritePhase::Writing } else { WritePhase::Finished },
            halt_failed: !ok,
            core_halted: ok,
            ..self
        }
    }

    /// The state after the memory write succeeded (`ok`) or failed.
    pub open spec fn after_write(self, ok: bool) -> HaltedWriteModel {
        HaltedWriteModel {
            phase: if self.was_running { WritePhase::Resuming } else { WritePhase::Finished },
            write_failed: !ok,
            ..self
        }
    }

    /// The state after the resume command succeeded (`ok`) or failed.
    pub open spec fn after_resume(self, ok: bool) -> HaltedWriteModel {
        HaltedWriteModel {
            phase: WritePhase::Finished,
            resume_failed: !ok,
            core_halted: !ok,
            ..self
        }
    }

    /// The result a finished write reports.
    pub open spec fn spec_outcome(self) -> Result<(), TargetError> {
        if self.halt_failed {
            Err(TargetError::HaltTimeout)
        } else if self.write_failed && self.resume_failed {
            Err(TargetError::WriteUnsupportedAndResumeFailed)
        } else if self.write_failed {
            Err(TargetError::WriteUnsupported)
        } else if self.resume_failed {
            Err(TargetError::ResumeFailed)
        } else {
            Ok(())
        }
    }
}

/// One write to target memory under the halt/resume discipline.
pub struct HaltedWrite {
    was_running: bool,
    phase: WritePhase,
    halt_failed: bool,
    write_failed: bool,
    resume_failed: bool,
    core_halted: Ghost<bool>,
}

impl View for HaltedWrite {
    type V = HaltedWriteModel;

    closed spec fn view(&self) -> HaltedWriteModel {
        HaltedWriteModel {
            was_running: self.was_running,
            phase: self.phase,
            halt_failed: self.halt_failed,
            write_failed: self.write_failed,
            resume_failed: self.resume_failed,
            core_halted: self.core_halted@,
        }
    }
}

impl HaltedWrite {
    /// Starts a write on a core whose observed state is `halted`.
    pub fn begin(halted: bool) -> (r: HaltedWrite)
        ensures
            r@.wf(),
            r@ == HaltedWriteModel::initial(halted),
    {
        HaltedWrite {
            was_running: !halted,
            phase: if halted { WritePhase::Writing } else { WritePhase::Halting },
            halt_failed: false,
            write_failed: false,
            resume_failed: false,
            core_halted: Ghost(halted),
        }
    }

    /// The command to perform next.
    pub fn next_step(&self) -> (r: CoreStep)
        ensures
            r == match self@.phase {
                WritePhase::Halting => CoreStep::Halt,
                WritePhase::Writing => CoreStep::Write,
                WritePhase::Resuming => CoreStep::Resume,
                WritePhase::Finished => CoreStep::Done,
            },
    {
        match self.phase {
            WritePhase::Halting => CoreStep::Halt,
            WritePhase::Writing => CoreStep::Write,
            WritePhase::Resuming => CoreStep::Resume,
            WritePhase::Finished => CoreStep::Done,
        }
    }

    /// Takes whether the halt succeeded in time; without it nothing is
    /// written.
    pub fn on_halt(&mut self, ok: bool)
        requires
            old(self)@.wf(),
            old(self)@.phase is Halting,
        ensures
            final(self)@.wf(),
            final(self)@ == old(self)@.after_halt(ok),
    {
        if ok {
            self.phase = WritePhase::Writing;
        } else {
            self.halt_failed = true;
            self.phase = WritePhase::Finished;
        }
        self.core_halted = Ghost(ok);
    }

    /// Takes whether the write succeeded. A core that was running is resumed
    /// next either way.
    pub fn on_write(&mut self, ok: bool)
        requires
            old(self)@.wf(),
            old(self)@.phase is Writing,
        ensures
            final(self)@.wf(),
            final(self)@ == old(self)@.after_write(ok),
    {
        self.write_failed = !ok;
        self.phase = if self.was_running { WritePhase::Resuming } else { WritePhase::Finished };
    }

    /// Takes whether the core resumed.
    pub fn on_resume(&mut self, ok: bool)
        requires
            old(self)@.wf(),
            old(self)@.phase is Resuming,
        ensures
            final(self)@.wf(),
            final(self)@ == old(self)@.after_resume(ok),
    {
        self.resume_failed = !ok;
        self.phase = WritePhase::Finished;
        self.core_halted = Ghost(!ok);
    }

    /// The result of a finished write: a failed halt, a failed write, a
    /// failed resume, or both of the last two, each reported as itself.
    pub fn outcome(&self) -> (r: Result<(), TargetError>)
        requires
            self@.phase is Finished,
        ensures
            r == self@.spec_outcome(),
    {
        if self.halt_failed {
            Err(TargetError::HaltTimeout)
        } else if self.write_failed && self.resume_failed {
            Err(TargetError::WriteUnsupportedAndResumeFailed)
        } else if self.write_failed {
            Err(TargetError::WriteUnsupported)
        } else if self.resume_failed {
            Err(TargetError::ResumeFailed)
        } else {
            Ok(())
        }
    }
}

/// The state in which a write ends that began on a core observed as
/// `halted`, when the halt, the write and the resume (each only if the write
/// asks for it) succeed as `halt_ok`, `write_ok` and `resume_ok` say.
pub open spec fn finished_write(halted: bool, halt_ok: bool, write_ok: bool, resume_ok: bool) -> HaltedWriteModel {
    let s0 = HaltedWriteModel::initial(halted);
    let s1 = if s0.phase is Halting { s0.after_halt(halt_ok) } else { s0 };
    let s2 = if s1.phase is Writing { s1.after_write(write_ok) } else { s1 };
    if s2.phase is Resuming { s2.after_resume(resume_ok) } else { s2 }
}

/// A write issued while the core runs leaves it running again afterwards,
/// whether the write succeeded or failed; a write issued while the core is
/// halted leaves it halted. The only exception is a resume that itself
/// failed, and that is never reported as success. The write is performed
/// only with the core halted, and succeeds exactly when every command it
/// needed did.
pub proof fn lemma_write_restores_core_state(halted: bool, halt_ok: bool, write_ok: bool, resume_ok: bool)
    ensures
        ({
            let e = finished_write(halted, halt_ok, write_ok, resume_ok);
            &&& e.phase is Finished
            &&& e.wf()
            &&& !halted && resume_ok ==> !e.core_halted
            &&& halted ==> e.core_halted
            &&& !halted && !resume_ok && halt_ok ==> e.spec_outcome() is Err
            &&& e.spec_outcome() is Ok <==> ((halted || halt_ok) && write_ok && (halted || resume_ok))
        }),
        HaltedWriteModel::initial(halted).phase is Writing ==> HaltedWriteModel::initial(
            halted,
        ).core_halted,
        (!halted && halt_ok) ==> HaltedWriteModel::initial(halted).after_halt(halt_ok).phase is Writing
            && HaltedWriteModel::initial(halted).after_halt(halt_ok).core_halted,
{
}

} // verus!
