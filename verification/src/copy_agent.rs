//! Frame copy agent: per-camera extraction of rendered frames.
//!
//! One agent exists per registered camera. After the render phase finishes
//! drawing into the camera's target image, the agent submits a device copy
//! of the texture into a linear host-visible buffer of
//! `aligned_row_bytes * height` bytes, observes the asynchronous map as an
//! explicit poll (never a blocking wait), and on completion forwards the
//! buffer's full contents — padding included — down the camera's channel.
//! A failed copy or map drops the frame silently: no retry, no effect on
//! subsequent frames.

use vstd::prelude::*;
use crate::align::round_up_spec;
use crate::channel::send_bytes;
use crossbeam_channel::Sender;

verus! {

/// What the agent observes of its in-flight device copy when polled.
pub enum MapPoll {
    /// The buffer is not host-readable yet.
    Pending,
    /// The copy completed and the buffer holds the frame's bytes.
    Ready,
    /// The device reported that the copy or map failed.
    Failed,
}

/// The outside work the render phase must perform next for this agent.
pub enum CopyAction {
    /// Submit a device copy of the target image into a linear buffer of
    /// exactly this many bytes.
    SubmitCopy { buffer_bytes: usize },
    /// Read the mapped buffer and hand its bytes to `forward_frame`, then
    /// release the buffer for the next frame.
    ReadAndSend,
    /// Drop the frame: release the buffer without reading it.
    DropFrame,
    /// Nothing to do this poll.
    Wait,
}

/// The poll-driven state machine that moves one camera's frames from the
/// GPU to the camera's channel.
pub struct ImageCopier {
    pub width: u32,
    pub height: u32,
    /// The device's row-alignment: each buffer row starts at a multiple of
    /// this stride.
    pub row_alignment: u32,
    /// Whether a submitted copy is still awaiting its map notification.
    pub copy_in_flight: bool,
    /// The producer end of the camera's byte channel.
    pub sender: Sender<Vec<u8>>,
}

impl ImageCopier {
    /// The logical byte width of one frame row: four bytes per pixel.
    pub open spec fn row_bytes(&self) -> int {
        self.width as int * 4
    }

    /// The aligned row stride the copy buffer uses.
    pub open spec fn aligned_row_bytes(&self) -> int {
        round_up_spec(self.row_bytes(), self.row_alignment as int)
    }

    /// The exact size of the linear copy buffer, padding included.
    pub open spec fn buffer_bytes_spec(&self) -> int {
        self.aligned_row_bytes() * self.height as int
    }

    /// A fresh agent bound to the sender end of its camera's channel, with
    /// no copy in flight.
    pub fn new(sender: Sender<Vec<u8>>, width: u32, height: u32, row_alignment: u32) -> (agent:
        ImageCopier)
        requires
            row_alignment > 0,
        ensures
            agent.width == width,
            agent.height == height,
            agent.row_alignment == row_alignment,
            !agent.copy_in_flight,
    {
        ImageCopier { width, height, row_alignment, copy_in_flight: false, sender }
    }

    /// The copy buffer size `aligned_row_bytes * height`, or `None` when it
    /// does not fit in `usize` on this machine.
    pub fn buffer_size(&self) -> (r: Option<usize>)
        requires
            self.row_alignment > 0,
        ensures
            r matches Some(v) ==> v == self.buffer_bytes_spec(),
            r is None <==> self.buffer_bytes_spec() > usize::MAX,
    {
        let rb: u64 = self.width as u64 * 4;
        let rem: u64 = rb % self.row_alignment as u64;
        let aligned: u64 = if rem == 0 {
            rb
        } else {
            rb + (self.row_alignment as u64 - rem)
        };
        proof {
            assert(aligned == self.aligned_row_bytes());
        }
        match aligned.checked_mul(self.height as u64) {
            Some(total) => {
                if total <= usize::MAX as u64 {
                    Some(total as usize)
                } else {
                    None
                }
            },
            None => {
                proof {
                    assert(self.buffer_bytes_spec() > u64::MAX >= usize::MAX);
                }
                None
            },
        }
    }

    /// One poll step of the agent, run after the frame's render work: from
    /// the current state and the observed event to the next state and the
    /// outside action the render phase must perform. Submission and
    /// completion never block; a failed map turns into a silently dropped
    /// frame.
    pub fn step(&mut self, poll: MapPoll) -> (action: CopyAction)
        requires
            old(self).row_alignment > 0,
        ensures
            final(self).width == old(self).width,
            final(self).height == old(self).height,
            final(self).row_alignment == old(self).row_alignment,
            !old(self).copy_in_flight ==> match action {
                CopyAction::SubmitCopy { buffer_bytes } => final(self).copy_in_flight
                    && buffer_bytes == old(self).buffer_bytes_spec(),
                CopyAction::Wait => !final(self).copy_in_flight && old(self).buffer_bytes_spec()
                    > usize::MAX,
                _ => false,
            },
            old(self).copy_in_flight ==> match poll {
                MapPoll::Pending => action is Wait && final(self).copy_in_flight,
                MapPoll::Ready => action is ReadAndSend && !final(self).copy_in_flight,
                MapPoll::Failed => action is DropFrame && !final(self).copy_in_flight,
            },
    {
        if !self.copy_in_flight {
            match self.buffer_size() {
                Some(buffer_bytes) => {
                    self.copy_in_flight = true;
                    CopyAction::SubmitCopy { buffer_bytes }
                },
                None => CopyAction::Wait,
            }
        } else {
            match poll {
                MapPoll::Pending => CopyAction::Wait,
                MapPoll::Ready => {
                    self.copy_in_flight = false;
                    CopyAction::ReadAndSend
                },
                MapPoll::Failed => {
                    self.copy_in_flight = false;
                    CopyAction::DropFrame
                },
            }
        }
    }

    /// Sends one frame's raw buffer bytes — padding included — down the
    /// camera's channel. Never blocks: the channel is unbounded, and a send
    /// on a channel whose receiver was replaced or dropped discards the
    /// frame silently. Returns whether the channel accepted the payload.
    pub fn forward_frame(&self, payload: Vec<u8>) -> bool {
        send_bytes(&self.sender, payload)
    }
}

} // verus!
