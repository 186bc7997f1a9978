//! Capability bitmasks for movement and vision.
//!
//! Each base capability is a distinct power-of-two bit in an 8-bit mask.
//! Composite values (`none`, `any`, "everything but X") are named constants
//! computed from the base flags, so that adding a flag cannot silently
//! change a composite's meaning. A capability test is mask intersection:
//! `a & b != 0`.

use vstd::prelude::*;

verus! {

/// The empty movement mask: no capability allows passage.
pub const MOVEMENT_NONE: u8 = 0;

/// Movement on foot.
pub const MOVEMENT_WALK: u8 = 1;

/// Movement through deep water.
pub const MOVEMENT_SWIM: u8 = 2;

/// Movement through the air.
pub const MOVEMENT_FLY: u8 = 4;

/// Every movement capability at once.
pub const MOVEMENT_ANY: u8 = !MOVEMENT_NONE;

/// The empty vision mask: nothing can be seen.
pub const VISION_NONE: u8 = 0;

/// The degenerate "sight" of a blinded viewer.
pub const VISION_BLIND: u8 = 1;

/// Ordinary eyesight.
pub const VISION_NORMAL: u8 = 2;

/// Heat-based sight.
pub const VISION_INFRARED: u8 = 4;

/// Sight through obstacles.
pub const VISION_XRAY: u8 = 8;

/// Every vision capability except blindness.
pub const VISION_NOT_BLIND: u8 = !VISION_BLIND;

/// Every vision capability at once.
pub const VISION_ANY: u8 = !VISION_NONE;

/// A base movement capability; each maps to one bit of a movement mask.
#[derive(Clone, Copy, Debug, PartialEq, Eq, Structural, Hash)]
pub enum MovementType {
    Walk,
    Swim,
    Fly,
}

/// The bit a base movement capability stands for.
pub open spec fn spec_movement_bit(m: MovementType) -> u8 {
    match m {
        MovementType::Walk => MOVEMENT_WALK,
        MovementType::Swim => MOVEMENT_SWIM,
        MovementType::Fly => MOVEMENT_FLY,
    }
}

impl MovementType {
    pub fn as_u8(self) -> (r: u8)
        ensures
            r == spec_movement_bit(self),
    {
        match self {
            MovementType::Walk => MOVEMENT_WALK,
            MovementType::Swim => MOVEMENT_SWIM,
            MovementType::Fly => MOVEMENT_FLY,
        }
    }
}

/// A base vision capability; each maps to one bit of a vision mask.
#[derive(Clone, Copy, Debug, PartialEq, Eq, Structural, Hash)]
pub enum VisionType {
    Blind,
    Normal,
    Infrared,
    XRay,
}

/// The bit a base vision capability stands for.
pub open spec fn spec_vision_bit(v: VisionType) -> u8 {
    match v {
        VisionType::Blind => VISION_BLIND,
        VisionType::Normal => VISION_NORMAL,
        VisionType::Infrared => VISION_INFRARED,
        VisionType::XRay => VISION_XRAY,
    }
}

impl VisionType {
    pub fn as_u8(self) -> (r: u8)
        ensures
            r == spec_vision_bit(self),
    {
        match self {
            VisionType::Blind => VISION_BLIND,
            VisionType::Normal => VISION_NORMAL,
            VisionType::Infrared => VISION_INFRARED,
            VisionType::XRay => VISION_XRAY,
        }
    }
}

/// An actor's movement capability mask.
#[derive(Clone, Copy, Debug, PartialEq, Eq, Structural, Hash)]
pub struct Movement(pub u8);

/// An actor's vision capability mask; kept in step with the vision bits above.
#[derive(Clone, Copy, Debug, PartialEq, Eq, Structural, Hash)]
pub struct Vision(pub u8);

} // verus!
