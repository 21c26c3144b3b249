//! Decision core of a two-wheeled autonomous rover.
//!
//! Every scalar quantity (speed, compensation factor, heading error,
//! distance) is a signed fixed-point number counted in millionths, so that
//! all arithmetic is exact integer arithmetic with a stated rounding rule.

pub mod anc_pub;
pub mod arbitrator;
pub mod cam_pan;
pub mod clock;
pub mod ec_pub;
pub mod fixed;
pub mod hcsr04;
pub mod herald;
pub mod irencoder;
pub mod mtr_ctrlr;
pub mod opencv_iox2;
pub mod opencv_splitter;
pub mod panner_adapter;
pub mod pid;
pub mod powermon;
pub mod propulsion;
pub mod propulsion_adapter;
pub mod propulsion_cleaver;
pub mod register;
pub mod rotation;
pub mod rp_gpio;
pub mod snapshot;
pub mod speed_correction_summer;
pub mod speed_ctrlrs;
pub mod speed_err_adapter;
pub mod sticky;
pub mod tasks;
pub mod units;
pub mod zsrc_merger;
