use vstd::prelude::*;

use crate::command::CommandBuffer;
use crate::error::EngineError;
use crate::resource::HostBuffer;

verus! {

/// What the host knows of one submission's completion signal.
#[derive(Debug, Clone, Copy, PartialEq, Eq, Structural)]
pub enum FenceState {
    Pending,
    Signaled,
    Lost,
}

/// What the driver reported after the host blocked on a fence.
#[derive(Debug, Clone, Copy, PartialEq, Eq, Structural)]
pub enum WaitOutcome {
    Completed,
    TimedOut,
    DeviceLost,
}

/// The completion signal of one submitted command buffer.
#[derive(Debug, Clone, Copy, PartialEq, Eq, Structural)]
pub struct Fence {
    pub queue_family: u32,
    pub state: FenceState,
}

/// Submits `cmd`: the returned fence is pending until waited on.
pub fn submit(cmd: CommandBuffer) -> (f: Fence)
    requires
        cmd.wf(),
    ensures
        f.state == FenceState::Pending,
        f.queue_family == cmd.queue_family,
{
    Fence { queue_family: cmd.queue_family, state: FenceState::Pending }
}

/// The state after a wait and its result. A signaled fence returns at once
/// whatever `outcome` says; a lost device stays lost; a pending fence takes
/// the driver's outcome, and a timeout leaves it pending.
pub open spec fn wait_spec(s: FenceState, outcome: WaitOutcome) -> (FenceState, Result<(), EngineError>) {
    match s {
        FenceState::Signaled => (FenceState::Signaled, Ok(())),
        FenceState::Lost => (FenceState::Lost, Err(EngineError::DeviceLost)),
        FenceState::Pending => match outcome {
            WaitOutcome::Completed => (FenceState::Signaled, Ok(())),
            WaitOutcome::TimedOut => (FenceState::Pending, Err(EngineError::TimeoutExceeded)),
            WaitOutcome::DeviceLost => (FenceState::Lost, Err(EngineError::DeviceLost)),
        },
    }
}

/// The state after a readback and the bytes it yields: it waits first, then
/// copies out the first `n` bytes of the buffer's memory.
pub open spec fn readback_spec(s: FenceState, outcome: WaitOutcome, memory: Seq<u8>, n: nat) -> (FenceState, Result<Seq<u8>, EngineError>) {
    let (t, w) = wait_spec(s, outcome);
    match w {
        Ok(_) => (t, Ok(memory.subrange(0, n as int))),
        Err(e) => (t, Err(e)),
    }
}

impl Fence {
    /// Whether waiting on this fence has to block on the driver; where it
    /// does not, the outcome handed to `wait_and_block` is not looked at.
    pub fn needs_block(&self) -> (r: bool)
        ensures
            r == (self.state == FenceState::Pending),
    {
        self.state == FenceState::Pending
    }

    /// Waits for the fence, given what the driver reported where the host had
    /// to block.
    pub fn wait_and_block(&mut self, outcome: WaitOutcome) -> (r: Result<(), EngineError>)
        ensures
            final(self).queue_family == old(self).queue_family,
            (final(self).state, r) == wait_spec(old(self).state, outcome),
    {
        match self.state {
            FenceState::Signaled => Ok(()),
            FenceState::Lost => Err(EngineError::DeviceLost),
            FenceState::Pending => match outcome {
                WaitOutcome::Completed => {
                    self.state = FenceState::Signaled;
                    Ok(())
                },
                WaitOutcome::TimedOut => Err(EngineError::TimeoutExceeded),
                WaitOutcome::DeviceLost => {
                    self.state = FenceState::Lost;
                    Err(EngineError::DeviceLost)
                },
            },
        }
    }

    /// Waits for the fence, then copies the buffer's `byte_len` bytes out of
    /// its mapped memory to the host.
    pub fn readback(&mut self, outcome: WaitOutcome, buffer: &HostBuffer, memory: &Vec<u8>) -> (r: Result<Vec<u8>, EngineError>)
        requires
            buffer.byte_len <= memory@.len(),
        ensures
            final(self).queue_family == old(self).queue_family,
            ({
                let (t, res) = readback_spec(old(self).state, outcome, memory@, buffer.byte_len as nat);
                &&& final(self).state == t
                &&& match res {
                    Ok(bytes) => r matches Ok(v) && v@ == bytes,
                    Err(e) => r == Err::<Vec<u8>, EngineError>(e),
                }
            }),
    {
        match self.wait_and_block(outcome) {
            Err(e) => Err(e),
            Ok(()) => {
                let n = buffer.byte_len;
                let mut out: Vec<u8> = Vec::with_capacity(n);
                let mut i: usize = 0;
                while i < n
                    invariant
                        n <= memory@.len(),
                        i <= n,
                        out@ == memory@.subrange(0, i as int),
                    decreases n - i,
                {
                    out.push(memory[i]);
                    proof {
                        assert(memory@.subrange(0, i as int + 1) =~= memory@.subrange(0, i as int).push(memory@[i as int]));
                    }
                    i = i + 1;
                }
                Ok(out)
            },
        }
    }
}

/// A fence that has signaled stays signaled, and waiting on it again
/// succeeds at once whatever the driver would report.
pub proof fn lemma_wait_idempotent(s: FenceState, first: WaitOutcome, second: WaitOutcome)
    requires
        wait_spec(s, first).1 is Ok,
    ensures
        wait_spec(s, first).0 == FenceState::Signaled,
        wait_spec(wait_spec(s, first).0, second) == (FenceState::Signaled, Ok::<(), EngineError>(())),
{
}

/// Reading back without waiting first yields the same bytes, and leaves the
/// fence in the same state, as waiting first and reading back afterwards.
pub proof fn lemma_readback_waits(s: FenceState, outcome: WaitOutcome, later: WaitOutcome, memory: Seq<u8>, n: nat)
    requires
        wait_spec(s, outcome).1 is Ok,
    ensures
        readback_spec(s, outcome, memory, n) == readback_spec(wait_spec(s, outcome).0, later, memory, n),
{
}

} // verus!
