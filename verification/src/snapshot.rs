//! The part of the arbitration state that outlives a restart, as bytes.
//!
//! A snapshot is two bytes: the emergency-stop flag (0 or 1), then the tag
//! of the loop mode.

use vstd::prelude::*;
use crate::arbitrator::Arbitrator;
use crate::propulsion_adapter::LoopState;

verus! {

/// The feedback values that are persisted.
#[derive(Debug, Clone, Copy, PartialEq, Eq, Structural)]
pub struct ArbitratorSnapshot {
    pub e_stop_trig_fdbk: bool,
    pub loop_mode_fdbk: LoopState,
}

/// Why bytes are refused as a snapshot.
#[derive(Debug, Clone, Copy, PartialEq, Eq, Structural)]
pub enum ThawError {
    /// The bytes end before the snapshot does.
    UnexpectedEnd,
    /// The byte of the flag is neither 0 nor 1.
    InvalidBooleanValue,
    /// The byte of the loop mode is the tag of no mode.
    UnexpectedVariant,
}

/// The number of bytes of a snapshot.
pub const SNAPSHOT_LEN: usize = 2;

/// The bytes of a snapshot.
pub open spec fn spec_encode(s: ArbitratorSnapshot) -> Seq<u8> {
    seq![
        if s.e_stop_trig_fdbk {
            1u8
        } else {
            0u8
        },
        s.loop_mode_fdbk.spec_tag(),
    ]
}

/// The snapshot at the head of `bytes`, or why there is none. The flag is
/// read first, then the loop mode.
pub open spec fn spec_decode(bytes: Seq<u8>) -> Result<ArbitratorSnapshot, ThawError> {
    if bytes.len() < 1 {
        Err(ThawError::UnexpectedEnd)
    } else if bytes[0] > 1 {
        Err(ThawError::InvalidBooleanValue)
    } else if bytes.len() < 2 {
        Err(ThawError::UnexpectedEnd)
    } else {
        match LoopState::spec_from_tag(bytes[1]) {
            Some(mode) => Ok(
                ArbitratorSnapshot { e_stop_trig_fdbk: bytes[0] == 1, loop_mode_fdbk: mode },
            ),
            None => Err(ThawError::UnexpectedVariant),
        }
    }
}

impl Arbitrator {
    /// The feedback values of the engine.
    pub open spec fn spec_snapshot(self) -> ArbitratorSnapshot {
        ArbitratorSnapshot {
            e_stop_trig_fdbk: self.e_stop_trig_fdbk,
            loop_mode_fdbk: self.loop_mode_fdbk,
        }
    }

    /// The engine with the feedback values of `s` and all else as it is.
    pub open spec fn spec_restored(self, s: ArbitratorSnapshot) -> Arbitrator {
        Arbitrator {
            e_stop_trig_fdbk: s.e_stop_trig_fdbk,
            loop_mode_fdbk: s.loop_mode_fdbk,
            ..self
        }
    }

    /// The feedback values of the engine.
    pub fn snapshot(&self) -> (s: ArbitratorSnapshot)
        ensures
            s == self.spec_snapshot(),
    {
        ArbitratorSnapshot {
            e_stop_trig_fdbk: self.e_stop_trig_fdbk,
            loop_mode_fdbk: self.loop_mode_fdbk,
        }
    }

    /// Writes the feedback values as bytes.
    pub fn freeze(&self) -> (bytes: Vec<u8>)
        ensures
            bytes@ == spec_encode(self.spec_snapshot()),
    {
        let mut bytes: Vec<u8> = Vec::new();
        bytes.push(
            if self.e_stop_trig_fdbk {
                1
            } else {
                0
            },
        );
        bytes.push(self.loop_mode_fdbk.tag());
        assert(bytes@ =~= spec_encode(self.spec_snapshot()));
        bytes
    }

    /// Reads the feedback values back from the head of `bytes`. Where the
    /// bytes are refused the engine is left as it is.
    pub fn thaw(&mut self, bytes: &[u8]) -> (r: Result<(), ThawError>)
        ensures
            match spec_decode(bytes@) {
                Ok(s) => r is Ok && *final(self) == old(self).spec_restored(s),
                Err(e) => r == Err::<(), ThawError>(e) && *final(self) == *old(self),
            },
    {
        if bytes.len() < 1 {
            return Err(ThawError::UnexpectedEnd);
        }
        let flag: u8 = bytes[0];
        if flag > 1 {
            return Err(ThawError::InvalidBooleanValue);
        }
        if bytes.len() < 2 {
            return Err(ThawError::UnexpectedEnd);
        }
        match LoopState::from_tag(bytes[1]) {
            Some(mode) => {
                self.e_stop_trig_fdbk = flag == 1;
                self.loop_mode_fdbk = mode;
                Ok(())
            },
            None => Err(ThawError::UnexpectedVariant),
        }
    }
}

/// Freezing and thawing gives the snapshot back: the bytes of a snapshot
/// decode to that snapshot, whatever follows them.
pub proof fn lemma_snapshot_round_trip(s: ArbitratorSnapshot, rest: Seq<u8>)
    ensures
        spec_encode(s).len() == SNAPSHOT_LEN,
        spec_decode(spec_encode(s) + rest) == Ok::<ArbitratorSnapshot, ThawError>(s),
{
    let bytes = spec_encode(s) + rest;
    assert(bytes[0] == spec_encode(s)[0]);
    assert(bytes[1] == spec_encode(s)[1]);
}

/// Bytes that decode are the bytes that encoding gives: no two byte
/// strings of the snapshot's length stand for one snapshot.
pub proof fn lemma_snapshot_bytes_canonical(bytes: Seq<u8>)
    requires
        spec_decode(bytes) is Ok,
    ensures
        spec_encode(spec_decode(bytes)->Ok_0) == bytes.take(SNAPSHOT_LEN as int),
{
    assert(spec_encode(spec_decode(bytes)->Ok_0) =~= bytes.take(SNAPSHOT_LEN as int));
}

/// An engine thawed from the bytes of another holds that engine's feedback
/// values, and keeps everything else of its own.
pub proof fn lemma_thaw_after_freeze(source: Arbitrator, target: Arbitrator)
    ensures
        spec_decode(spec_encode(source.spec_snapshot())) is Ok,
        target.spec_restored(
            spec_decode(spec_encode(source.spec_snapshot()))->Ok_0,
        ).spec_snapshot() == source.spec_snapshot(),
        target.spec_restored(source.spec_snapshot()).wf() == target.wf(),
{
    lemma_snapshot_round_trip(source.spec_snapshot(), Seq::<u8>::empty());
    assert(spec_encode(source.spec_snapshot()) + Seq::<u8>::empty() =~= spec_encode(
        source.spec_snapshot(),
    ));
}

} // verus!
