//! Control core of an ATC / ATO train-protection plugin.
//!
//! Physical quantities are carried as integers: speeds in thousandths of
//! km/h, accelerations in thousandths of km/h per second, locations and
//! distances in millimetres, times in milliseconds.
#![allow(non_snake_case)]

pub mod atc_signal;
pub mod ats;
pub mod auto_brake;
pub mod bve;
pub mod notch;
pub mod settings;
pub mod speed_control;
pub mod tasc;
pub mod timer;
pub mod tims;
pub mod uline_atc;
pub mod uline_ato;
