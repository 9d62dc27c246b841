//! A terminal resource monitor's core: what one sample of the machine holds,
//! how it is turned into display units, which cells of the screen a sample
//! paints, and when the refresh loop runs, sleeps and ends.

pub mod controller;
pub mod frame;
pub mod memory;
pub mod render;
pub mod rounding;
pub mod snapshot;
pub mod text;
pub mod usage;
