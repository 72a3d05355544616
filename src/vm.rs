//! The call stack: the frames of the contract invocations in flight, the depth
//! limit, and the nonces that tell repeated invocations apart.
use crate::error::{Error, ExecutableError, Result};
use crate::runtime::payment_id::{payment_id_bytes, PaymentId};
use crate::runtime::utils::copy_bytes;
use vstd::prelude::*;

verus! {

/// The deepest nesting of contract invocations.
pub const MAX_FRAMES: usize = 64;

/// One contract invocation in flight: the callee, its bytecode and its nonce.
pub struct Frame {
    contract_id: Vec<u8>,
    bytecode: Vec<u8>,
    nonce: u64,
}

/// What a frame holds, as plain values.
pub struct FrameView {
    pub contract_id: Seq<u8>,
    pub bytecode: Seq<u8>,
    pub nonce: u64,
}

impl View for Frame {
    type V = FrameView;

    closed spec fn view(&self) -> FrameView {
        FrameView { contract_id: self.contract_id@, bytecode: self.bytecode@, nonce: self.nonce }
    }
}


/// The bytes of the payment identifier of a contract's invocation.
pub fn create_payment_id(contract_id: Vec<u8>, nonce: u64) -> (r: Vec<u8>)
    ensures
        r@ == payment_id_bytes(contract_id@, nonce),
{
    PaymentId::new(contract_id, nonce).as_bytes()
}

impl Frame {
    pub fn new(contract_id: Vec<u8>, bytecode: Vec<u8>, nonce: u64) -> (r: Self)
        ensures
            r@ == (FrameView { contract_id: contract_id@, bytecode: bytecode@, nonce }),
    {
        Frame { contract_id, bytecode, nonce }
    }

    pub fn contract_id(&self) -> (r: Vec<u8>)
        ensures
            r@ == self@.contract_id,
    {
        copy_bytes(self.contract_id.as_slice())
    }

    pub fn bytecode(&self) -> (r: &Vec<u8>)
        ensures
            r@ == self@.bytecode,
    {
        &self.bytecode
    }

    pub fn nonce(&self) -> (r: u64)
        ensures
            r == self@.nonce,
    {
        self.nonce
    }

    /// The identifier under which payments to this invocation are registered.
    pub fn payment_id(&self) -> (r: Vec<u8>)
        ensures
            r@ == payment_id_bytes(self@.contract_id, self@.nonce),
    {
        create_payment_id(copy_bytes(self.contract_id.as_slice()), self.nonce)
    }
}

/// The call stack of one top-level invocation, with the settings every frame
/// runs under.
pub struct Vm {
    frames: Vec<Frame>,
    first_frame: Frame,
    memory: (u32, u32),
    fuel_limit: u64,
    nonce: u64,
}

impl Vm {
    /// The frames pushed so far, oldest first.
    pub closed spec fn frames(&self) -> Seq<FrameView> {
        self.frames@.map_values(|f: Frame| f@)
    }

    /// The frame of the top-level invocation, always present.
    pub closed spec fn first_frame(&self) -> FrameView {
        self.first_frame@
    }

    /// The last nonce handed out.
    pub closed spec fn spec_nonce(&self) -> u64 {
        self.nonce
    }

    pub closed spec fn settings(&self) -> ((u32, u32), u64) {
        (self.memory, self.fuel_limit)
    }

    /// The frame that runs now: the last pushed, or the first frame.
    pub open spec fn spec_top(&self) -> FrameView {
        if self.frames().len() == 0 {
            self.first_frame()
        } else {
            self.frames().last()
        }
    }

    /// The top-level invocation is on the stack with no nested frame yet.
    pub fn new(contract_id: Vec<u8>, bytecode: Vec<u8>, memory: (u32, u32), fuel_limit: u64) -> (r:
        Self)
        ensures
            r.frames() == Seq::<FrameView>::empty(),
            r.first_frame() == (FrameView { contract_id: contract_id@, bytecode: bytecode@, nonce: 0 }),
            r.spec_nonce() == 0,
            r.settings() == (memory, fuel_limit),
    {
        let r = Vm {
            frames: Vec::new(),
            first_frame: Frame::new(contract_id, bytecode, 0),
            memory,
            fuel_limit,
            nonce: 0,
        };
        assert(r.frames() =~= Seq::<FrameView>::empty());
        r
    }

    /// The initial and maximum page counts of every frame's linear memory.
    pub fn memory(&self) -> (r: (u32, u32))
        ensures
            r == self.settings().0,
    {
        self.memory
    }

    /// The fuel every frame may burn.
    pub fn fuel_limit(&self) -> (r: u64)
        ensures
            r == self.settings().1,
    {
        self.fuel_limit
    }

    /// The number of pushed frames.
    pub fn depth(&self) -> (r: usize)
        ensures
            r == self.frames().len(),
    {
        self.frames.len()
    }

    /// Getting the frame at the top of the call stack.
    pub fn top_frame(&self) -> (r: &Frame)
        ensures
            r@ == self.spec_top(),
    {
        if self.frames.len() == 0 {
            &self.first_frame
        } else {
            &self.frames[self.frames.len() - 1]
        }
    }

    /// Whether a fresh nonce is left to hand out.
    pub fn has_fresh_nonce(&self) -> (r: bool)
        ensures
            r == (self.spec_nonce() < u64::MAX),
    {
        self.nonce < u64::MAX
    }

    /// A fresh nonce: one more than the last.
    pub fn get_nonce(&mut self) -> (r: u64)
        requires
            old(self).spec_nonce() < u64::MAX,
        ensures
            r == old(self).spec_nonce() + 1,
            final(self).spec_nonce() == r,
            final(self).frames() == old(self).frames(),
            final(self).first_frame() == old(self).first_frame(),
            final(self).settings() == old(self).settings(),
    {
        self.nonce = self.nonce + 1;
        self.nonce
    }

    /// The contract that called the running one: the frame below the top, or
    /// nothing while the top-level invocation runs.
    pub fn get_caller_current_frame(&self) -> (r: Vec<u8>)
        ensures
            self.frames().len() == 0 ==> r@ == Seq::<u8>::empty(),
            self.frames().len() == 1 ==> r@ == self.first_frame().contract_id,
            self.frames().len() >= 2 ==> r@ == self.frames()[self.frames().len() - 2].contract_id,
    {
        let len = self.frames.len();
        if len == 0 {
            Vec::new()
        } else if len == 1 {
            self.first_frame.contract_id()
        } else {
            self.frames[len - 2].contract_id()
        }
    }

    /// Pushes a frame, unless the stack is full: then nothing changes and the
    /// call fails with `StackOverflow`.
    pub fn push_frame(&mut self, frame: Frame) -> (r: Result<()>)
        ensures
            old(self).frames().len() < MAX_FRAMES ==> r is Ok && final(self).frames() == old(
                self,
            ).frames().push(frame@),
            old(self).frames().len() >= MAX_FRAMES ==> r == Err::<(), Error>(
                Error::Executable(ExecutableError::StackOverflow),
            ) && final(self).frames() == old(self).frames(),
            final(self).frames() == step(old(self).frames(), StackEvent::Push(frame@)),
            final(self).first_frame() == old(self).first_frame(),
            final(self).spec_nonce() == old(self).spec_nonce(),
            final(self).settings() == old(self).settings(),
    {
        if self.frames.len() >= MAX_FRAMES {
            return Err(Error::Executable(ExecutableError::StackOverflow));
        }
        self.frames.push(frame);
        assert(self.frames() =~= old(self).frames().push(frame@));
        Ok(())
    }

    /// Ends a call: pops its frame, whatever its outcome, and hands the
    /// outcome back unchanged.
    pub fn finish_call<T>(&mut self, outcome: Result<T>) -> (r: Result<T>)
        ensures
            r == outcome,
            final(self).frames() == step(old(self).frames(), StackEvent::Pop),
            final(self).first_frame() == old(self).first_frame(),
            final(self).spec_nonce() == old(self).spec_nonce(),
            final(self).settings() == old(self).settings(),
    {
        self.pop_frame();
        outcome
    }

    /// Pops the top frame, when there is one.
    pub fn pop_frame(&mut self)
        ensures
            final(self).frames() == if old(self).frames().len() == 0 {
                old(self).frames()
            } else {
                old(self).frames().drop_last()
            },
            final(self).frames() == step(old(self).frames(), StackEvent::Pop),
            final(self).first_frame() == old(self).first_frame(),
            final(self).spec_nonce() == old(self).spec_nonce(),
            final(self).settings() == old(self).settings(),
    {
        if self.frames.len() > 0 {
            let _ = self.frames.pop();
            assert(self.frames() =~= old(self).frames().drop_last());
        }
    }
}

/// One change a call makes to the stack: the frame pushed when it starts, or
/// the pop when it returns. A push that the depth limit refuses changes
/// nothing and is followed by no pop, so it leaves no event.
pub enum StackEvent {
    Push(FrameView),
    Pop,
}

/// What one event does to the frames, as `push_frame` and `pop_frame` do it.
pub open spec fn step(frames: Seq<FrameView>, event: StackEvent) -> Seq<FrameView> {
    match event {
        StackEvent::Push(f) => if frames.len() < MAX_FRAMES {
            frames.push(f)
        } else {
            frames
        },
        StackEvent::Pop => if frames.len() == 0 {
            frames
        } else {
            frames.drop_last()
        },
    }
}

/// The frames after `events`, from `frames`.
pub open spec fn replay(frames: Seq<FrameView>, events: Seq<StackEvent>) -> Seq<FrameView>
    decreases events.len(),
{
    if events.len() == 0 {
        frames
    } else {
        step(replay(frames, events.drop_last()), events.last())
    }
}

/// Pushes minus pops.
pub open spec fn depth_change(events: Seq<StackEvent>) -> int
    decreases events.len(),
{
    if events.len() == 0 {
        0
    } else {
        depth_change(events.drop_last()) + match events.last() {
            StackEvent::Push(_) => 1int,
            StackEvent::Pop => -1int,
        }
    }
}

/// The events of nested calls that start from `frames`: every pop returns
/// from a call pushed before it, and every recorded push was accepted.
pub open spec fn nested(frames: Seq<FrameView>, events: Seq<StackEvent>) -> bool {
    forall|i: int|
        0 <= i <= events.len() ==> 0 <= #[trigger] depth_change(events.subrange(0, i))
            && frames.len() + depth_change(events.subrange(0, i)) <= MAX_FRAMES
}

proof fn lemma_replay_keeps_base(frames: Seq<FrameView>, events: Seq<StackEvent>)
    requires
        nested(frames, events),
    ensures
        replay(frames, events).len() == frames.len() + depth_change(events),
        replay(frames, events).subrange(0, frames.len() as int) == frames,
    decreases events.len(),
{
    assert(events.subrange(0, events.len() as int) =~= events);
    assert(depth_change(events.subrange(0, events.len() as int)) >= 0);
    if events.len() == 0 {
        assert(frames.subrange(0, frames.len() as int) =~= frames);
    } else {
        let init = events.drop_last();
        assert forall|i: int| 0 <= i <= init.len() implies 0 <= #[trigger] depth_change(
            init.subrange(0, i),
        ) && frames.len() + depth_change(init.subrange(0, i)) <= MAX_FRAMES by {
            assert(init.subrange(0, i) =~= events.subrange(0, i));
        }
        lemma_replay_keeps_base(frames, init);
        let before = replay(frames, init);
        match events.last() {
            StackEvent::Push(f) => {
                assert(before.push(f).subrange(0, frames.len() as int) =~= before.subrange(
                    0,
                    frames.len() as int,
                ));
            },
            StackEvent::Pop => {
                assert(before.drop_last().subrange(0, frames.len() as int) =~= before.subrange(
                    0,
                    frames.len() as int,
                ));
            },
        }
    }
}

/// Nested calls, each pushing its frame when it starts and popping it when it
/// returns (whether it succeeded or failed), leave the stack as they found it
/// once the outermost call has returned.
pub proof fn lemma_nested_calls_restore_stack(frames: Seq<FrameView>, events: Seq<StackEvent>)
    requires
        nested(frames, events),
        depth_change(events) == 0,
    ensures
        replay(frames, events) == frames,
{
    lemma_replay_keeps_base(frames, events);
    let after = replay(frames, events);
    assert(after =~= after.subrange(0, frames.len() as int));
}

} // verus!
