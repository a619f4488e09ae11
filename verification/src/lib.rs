//! Brightness sequencing for four "breathing" LEDs driven by PWM, with
//! four push-buttons that reverse the LEDs, change the pace, and switch
//! between breathing and steady output.

pub mod table;
pub mod led;
pub mod controller;
