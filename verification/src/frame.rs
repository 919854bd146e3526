//! The fence values by which the CPU keeps pace with the GPU, one for each
//! frame in flight.

use vstd::prelude::*;

verus! {

/// The number of frames in flight.
pub const NUM_OF_FRAMES: usize = 2;

/// The fence value that marks the work of each frame, and the index of the
/// frame that is recorded now.
#[derive(Clone, Copy, Debug, PartialEq, Eq)]
pub struct FrameFences {
    pub fence_values: [u64; 2],
    pub current_frame: usize,
}

/// A wait for the GPU: the fence value to signal and to wait for, and the
/// fences to go on with once the wait is over.
#[derive(Clone, Copy, Debug, PartialEq, Eq)]
pub struct FrameWait {
    pub fence_value: u64,
    pub next: FrameFences,
}

/// A move to the next frame: the fence value to wait for, if the GPU has not
/// reached it yet, and the fences to go on with after that.
#[derive(Clone, Copy, Debug, PartialEq, Eq)]
pub struct FrameMove {
    pub wait_for: Option<u64>,
    pub next: FrameFences,
}

impl FrameFences {
    /// The current frame is one of the frames in flight.
    pub open spec fn wf(self) -> bool {
        self.current_frame < 2
    }

    /// The fence value of the current frame.
    pub open spec fn current_value(self) -> u64 {
        self.fence_values@[self.current_frame as int]
    }

    /// The fences at the start: every frame has the value 0. There are none
    /// for a frame index that is not in flight.
    pub fn new(current_frame: usize) -> (fences: Option<FrameFences>)
        ensures
            fences is Some == (current_frame < 2),
            fences is Some ==> fences->0.current_frame == current_frame
                && fences->0.fence_values@ == seq![0u64, 0u64],
    {
        if current_frame < NUM_OF_FRAMES {
            let fences = FrameFences { fence_values: [0, 0], current_frame };
            assert(fences.fence_values@ =~= seq![0u64, 0u64]);
            Some(fences)
        } else {
            None
        }
    }

    /// The value to signal on the queue for the work of the current frame,
    /// where the current frame is one of the frames in flight.
    pub fn fence_value(&self) -> (value: Option<u64>)
        ensures
            value == (if self.wf() {
                Some(self.current_value())
            } else {
                None::<u64>
            }),
    {
        if self.current_frame < NUM_OF_FRAMES {
            Some(self.fence_values[self.current_frame])
        } else {
            None
        }
    }

    /// Plans a wait until the GPU has done all the work of the current frame:
    /// its fence value is to be signalled and waited for, and after the wait
    /// the frame goes on with the next value. There is no such wait where the
    /// fences are not well formed or the value cannot grow.
    pub fn wait_for_gpu(&self) -> (wait: Option<FrameWait>)
        ensures
            wait is Some == (self.wf() && self.current_value() < u64::MAX),
            wait is Some ==> {
                &&& wait->0.fence_value == self.current_value()
                &&& wait->0.next.current_frame == self.current_frame
                &&& wait->0.next.fence_values@ == self.fence_values@.update(
                    self.current_frame as int,
                    (self.current_value() + 1) as u64,
                )
            },
    {
        if self.current_frame >= NUM_OF_FRAMES {
            return None;
        }
        let fence_value = self.fence_values[self.current_frame];
        if fence_value == u64::MAX {
            return None;
        }
        let mut fence_values = self.fence_values;
        fence_values[self.current_frame] = fence_value + 1;
        Some(
            FrameWait {
                fence_value,
                next: FrameFences { fence_values, current_frame: self.current_frame },
            },
        )
    }

    /// Plans the move to the frame of index `back_buffer_index`, after the
    /// fence value of the current frame was signalled. `completed_value` is
    /// the value that the fence has reached.
    ///
    /// Where the fence has not reached the value of the frame to move to, the
    /// GPU still works on that frame, and its value is to be waited for. The
    /// frame then gets the value that follows the one just signalled. There is
    /// no such move where the fences are not well formed, the index is not of
    /// a frame in flight, or the value cannot grow.
    pub fn move_to_next_frame(&self, back_buffer_index: usize, completed_value: u64) -> (moved:
        Option<FrameMove>)
        ensures
            moved is Some == (self.wf() && back_buffer_index < 2 && self.current_value()
                < u64::MAX),
            moved is Some ==> {
                &&& moved->0.wait_for == (if completed_value
                    < self.fence_values@[back_buffer_index as int] {
                    Some(self.fence_values@[back_buffer_index as int])
                } else {
                    None::<u64>
                })
                &&& moved->0.next.current_frame == back_buffer_index
                &&& moved->0.next.fence_values@ == self.fence_values@.update(
                    back_buffer_index as int,
                    (self.current_value() + 1) as u64,
                )
            },
    {
        if self.current_frame >= NUM_OF_FRAMES || back_buffer_index >= NUM_OF_FRAMES {
            return None;
        }
        let current_fence_value = self.fence_values[self.current_frame];
        if current_fence_value == u64::MAX {
            return None;
        }
        let wait_fence_value = self.fence_values[back_buffer_index];
        let wait_for = if completed_value < wait_fence_value {
            Some(wait_fence_value)
        } else {
            None
        };
        let mut fence_values = self.fence_values;
        fence_values[back_buffer_index] = current_fence_value + 1;
        Some(
            FrameMove {
                wait_for,
                next: FrameFences { fence_values, current_frame: back_buffer_index },
            },
        )
    }
}

} // verus!
