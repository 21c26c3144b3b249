//! The news for the base station.

use vstd::prelude::*;
use crate::pid::PIDControlOutputPayload;
use crate::propulsion_adapter::{LoopState, PropulsionAdapterOutputPayload};

verus! {

/// The emergency-stop flag and the loop mode, as reported.
#[derive(Debug, Clone, Copy, PartialEq, Eq, Structural)]
pub struct HeraldNewsPayload {
    pub e_stop_trig_fdbk: bool,
    pub loop_mode_fdbk: LoopState,
}

impl HeraldNewsPayload {
    /// The news that a fused state carries.
    pub fn of(fused: &PropulsionAdapterOutputPayload) -> (news: HeraldNewsPayload)
        ensures
            news.e_stop_trig_fdbk == fused.is_e_stop_triggered,
            news.loop_mode_fdbk == fused.loop_state,
    {
        HeraldNewsPayload {
            e_stop_trig_fdbk: fused.is_e_stop_triggered,
            loop_mode_fdbk: fused.loop_state,
        }
    }
}

/// Gathers the news for the base station.
#[derive(Debug, Clone, Copy, PartialEq, Eq)]
pub struct Herald {}

impl Herald {
    /// A herald.
    pub fn new() -> (h: Self) {
        Herald {  }
    }

    /// One cycle: there is news exactly when both the fused state and the
    /// lane controller's output are present, and it is that of the fused
    /// state.
    pub fn process(
        &self,
        fused: Option<PropulsionAdapterOutputPayload>,
        pid: Option<PIDControlOutputPayload>,
    ) -> (news: Option<HeraldNewsPayload>)
        ensures
            news == if fused is Some && pid is Some {
                Some(
                    HeraldNewsPayload {
                        e_stop_trig_fdbk: fused->0.is_e_stop_triggered,
                        loop_mode_fdbk: fused->0.loop_state,
                    },
                )
            } else {
                None::<HeraldNewsPayload>
            },
    {
        match (fused, pid) {
            (Some(f), Some(_)) => Some(HeraldNewsPayload::of(&f)),
            _ => None,
        }
    }
}

} // verus!
