//! Typed CAN message bus for small battery-management and thermal-control
//! nodes, with the decision logic of the concurrent tasks that consume it.

pub mod adc;
pub mod cells;
pub mod codec;
pub mod control;
pub mod frame;
pub mod hdc1080;
pub mod led;
pub mod tasks;
