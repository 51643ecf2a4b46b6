//! Verified core of a 9-axis orientation tracker: wire framing of sensor
//! samples, the text line format, axis remapping between frames, sample
//! timing, the filter's per-sample decision, and the raw register decoding
//! of the two sensor chips.
pub mod frame;
pub mod text;
pub mod axes;
pub mod timing;
pub mod update_path;
pub mod register;
pub mod ak09918;
pub mod icm20600;
pub mod input;
