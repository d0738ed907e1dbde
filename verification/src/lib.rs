//! Verified core of a spotlight screen-region recorder for wlroots
//! compositors: the decimal text it prints, the placement of the control bar
//! off the captured region, the recorder and transcoder command lines, the
//! lockfile protocol, and the overlay's phase machine.

pub mod text;
pub mod placement;
pub mod transcode;
pub mod controls;
pub mod recorder;
pub mod audio;
pub mod numeral;
pub mod lockfile;
pub mod overlay;
pub mod session;
pub mod indicator;
