//! The stepper motor that drives a conveyor: its NEMA frame size and how it
//! is mounted to the frame.

use vstd::prelude::*;

verus! {

/// A NEMA stepper motor frame size.
#[derive(Debug, Clone, Copy, PartialEq, Eq, Structural)]
pub enum NemaFrame {
    Nema17,
    Nema23,
    Nema34,
}

impl Default for NemaFrame {
    fn default() -> (frame: Self)
        ensures
            frame == NemaFrame::Nema17,
    {
        NemaFrame::Nema17
    }
}

/// Where the motor sits relative to the drive roller.
#[derive(Debug, Clone, Copy, PartialEq, Eq, Structural)]
pub enum MotorMount {
    Underneath,
    Side,
    End,
}

impl Default for MotorMount {
    fn default() -> (mount: Self)
        ensures
            mount == MotorMount::Underneath,
    {
        MotorMount::Underneath
    }
}

/// The drive motor of a conveyor.
#[derive(Debug, Clone, Copy, PartialEq, Eq, Structural)]
pub struct MotorSpec {
    pub frame: NemaFrame,
    pub mount: MotorMount,
}

impl Default for MotorSpec {
    fn default() -> (spec: Self)
        ensures
            spec.frame == NemaFrame::Nema17,
            spec.mount == MotorMount::Underneath,
    {
        MotorSpec { frame: NemaFrame::default(), mount: MotorMount::default() }
    }
}

/// Side length in millimetres of the square face plate of a NEMA frame.
pub open spec fn face_size_mm(frame: NemaFrame) -> nat {
    match frame {
        NemaFrame::Nema17 => 42,
        NemaFrame::Nema23 => 57,
        NemaFrame::Nema34 => 86,
    }
}

/// Length in millimetres of the motor body behind the face plate.
pub open spec fn body_length_mm(frame: NemaFrame) -> nat {
    match frame {
        NemaFrame::Nema17 => 40,
        NemaFrame::Nema23 => 50,
        NemaFrame::Nema34 => 70,
    }
}

/// The face plate size of `frame`, in millimetres.
pub fn nema_face_size(frame: &NemaFrame) -> (mm: u32)
    ensures
        mm == face_size_mm(*frame),
{
    match frame {
        NemaFrame::Nema17 => 42,
        NemaFrame::Nema23 => 57,
        NemaFrame::Nema34 => 86,
    }
}

/// The body length of `frame`, in millimetres.
pub fn nema_body_length(frame: &NemaFrame) -> (mm: u32)
    ensures
        mm == body_length_mm(*frame),
{
    match frame {
        NemaFrame::Nema17 => 40,
        NemaFrame::Nema23 => 50,
        NemaFrame::Nema34 => 70,
    }
}

} // verus!
