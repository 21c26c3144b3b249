//! Hands the camera command of the fused state to the panning camera.

use vstd::prelude::*;
use crate::cam_pan::{CameraPanningPayload, PositionCommand};
use crate::propulsion_adapter::PropulsionAdapterOutputPayload;

verus! {

/// A cycle has no input to work with.
#[derive(Debug, Clone, Copy, PartialEq, Eq, Structural)]
pub struct MissingInput {}

/// The adapter; `cmd` is the camera position it persists.
#[derive(Debug, Clone, Copy, PartialEq, Eq)]
pub struct PannerAdapter {
    pub cmd: PositionCommand,
}

impl PannerAdapter {
    /// An adapter that looks to the front.
    pub fn new() -> (a: Self)
        ensures
            a.cmd == PositionCommand::Front,
    {
        PannerAdapter { cmd: PositionCommand::Front }
    }

    /// One cycle: the camera command of the fused state, or an error
    /// without a fused state.
    pub fn process(&self, input: Option<PropulsionAdapterOutputPayload>) -> (out: Result<
        CameraPanningPayload,
        MissingInput,
    >)
        ensures
            out == match input {
                Some(msg) => Ok::<CameraPanningPayload, MissingInput>(msg.panner_payload),
                None => Err::<CameraPanningPayload, MissingInput>(MissingInput {  }),
            },
    {
        match input {
            Some(msg) => Ok(msg.panner_payload),
            None => Err(MissingInput {  }),
        }
    }

    /// The persisted camera position as one byte.
    pub fn freeze(&self) -> (byte: u8)
        ensures
            byte == self.cmd.spec_to_u8(),
    {
        self.cmd.to_u8()
    }

    /// Restores the camera position from its byte; a byte that stands for
    /// no position is refused and changes nothing.
    pub fn thaw(&mut self, byte: u8) -> (ok: bool)
        ensures
            ok == (byte <= 2),
            ok ==> final(self).cmd == PositionCommand::spec_from_u8(byte),
            !ok ==> *final(self) == *old(self),
    {
        if byte <= 2 {
            self.cmd = PositionCommand::from_u8(byte);
            true
        } else {
            false
        }
    }
}

} // verus!
