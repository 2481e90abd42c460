//! Signal analysis and correction core of a stereo re-centering effect:
//! the conversion of parameter times into sample counts, the lookahead
//! delay line and the latency it adds, the schedule of the correction ramp,
//! the classification of stereo frames for the angle estimate, and the
//! lock-free scope ring that feeds a display.
pub mod delay;
pub mod engine;
pub mod frame;
pub mod ramp;
pub mod scope;
pub mod settings;
pub mod timing;
