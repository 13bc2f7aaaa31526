//! Status LED colors.
//!
//! The LED is a common-anode RGB package driven by open-drain pins: a line
//! driven low lights its channel, a line left high keeps it dark.

use vstd::prelude::*;

verus! {

/// The state of one open-drain output line.
#[derive(Debug, Clone, Copy, PartialEq, Eq, Structural)]
pub enum PinLevel {
    Low,
    High,
}

/// The colors the status LED can show.
#[allow(dead_code)]
#[derive(Debug, Clone, Copy, PartialEq, Eq, Structural)]
pub enum Color {
    Off,
    Red,
    Green,
    Blue,
    Cyan,
    Magenta,
    Yellow,
    White,
}

impl Color {
    /// The line levels that show this color: low lights a channel.
    pub open spec fn spec_rgb(self) -> (PinLevel, PinLevel, PinLevel) {
        match self {
            Color::Off => (PinLevel::High, PinLevel::High, PinLevel::High),
            Color::Red => (PinLevel::Low, PinLevel::High, PinLevel::High),
            Color::Green => (PinLevel::High, PinLevel::Low, PinLevel::High),
            Color::Blue => (PinLevel::High, PinLevel::High, PinLevel::Low),
            Color::Cyan => (PinLevel::High, PinLevel::Low, PinLevel::Low),
            Color::Magenta => (PinLevel::Low, PinLevel::High, PinLevel::Low),
            Color::Yellow => (PinLevel::Low, PinLevel::Low, PinLevel::High),
            Color::White => (PinLevel::Low, PinLevel::Low, PinLevel::Low),
        }
    }

    pub fn into_rgb(self) -> (r: (PinLevel, PinLevel, PinLevel))
        ensures
            r == self.spec_rgb(),
    {
        match self {
            Color::Off => (PinLevel::High, PinLevel::High, PinLevel::High),
            Color::Red => (PinLevel::Low, PinLevel::High, PinLevel::High),
            Color::Green => (PinLevel::High, PinLevel::Low, PinLevel::High),
            Color::Blue => (PinLevel::High, PinLevel::High, PinLevel::Low),
            Color::Cyan => (PinLevel::High, PinLevel::Low, PinLevel::Low),
            Color::Magenta => (PinLevel::Low, PinLevel::High, PinLevel::Low),
            Color::Yellow => (PinLevel::Low, PinLevel::Low, PinLevel::High),
            Color::White => (PinLevel::Low, PinLevel::Low, PinLevel::Low),
        }
    }
}

} // verus!
