//! Hardware-independent core of an environment monitor: the wire protocols of
//! a CO2 sensor and a barometer, a rolling history per measured quantity, and
//! the display model that turns new samples into drawing commands.
//!
//! Nothing here touches a bus or a display. Drivers hand out the requests
//! they want performed and take the replies back; the display model returns
//! the commands to draw.

pub mod bm1383aglv;
pub mod bus;
pub mod checksum;
pub mod draw;
pub mod history;
pub mod label_text;
pub mod monitor;
pub mod reading;
pub mod scd30;
pub mod viewer;
