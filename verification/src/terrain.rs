//! Tile categories and their permission tables.
//!
//! Each terrain or feature category maps to a movement mask (which movement
//! capabilities may enter a cell of this category) and a vision-penetration
//! mask (which vision capabilities see through it). Features additionally
//! have an allowed-vision mask: which vision capabilities can see the feature
//! itself, independent of what is behind it.

use vstd::prelude::*;
use crate::masks::{MOVEMENT_ANY, MOVEMENT_FLY, MOVEMENT_NONE, MOVEMENT_SWIM, VISION_ANY,
    VISION_NONE};

verus! {

/// A terrain category for one cell.
#[derive(Clone, Copy, Debug, PartialEq, Eq, Structural, Hash)]
pub enum TerrainType {
    Wall,
    Floor,
    Water,
}

/// A feature category for one cell; `Empty` is a cell with no feature.
#[derive(Clone, Copy, Debug, PartialEq, Eq, Structural, Hash)]
pub enum FeatureType {
    Empty,
    DoorOpen,
    DoorClosed,
}

/// The movement mask of a terrain category.
pub open spec fn spec_terrain_movement(t: TerrainType) -> u8 {
    match t {
        TerrainType::Wall => MOVEMENT_NONE,
        TerrainType::Floor => MOVEMENT_ANY,
        TerrainType::Water => MOVEMENT_SWIM | MOVEMENT_FLY,
    }
}

/// The vision-penetration mask of a terrain category.
pub open spec fn spec_terrain_vision(t: TerrainType) -> u8 {
    match t {
        TerrainType::Wall => VISION_NONE,
        TerrainType::Floor => VISION_ANY,
        TerrainType::Water => VISION_ANY,
    }
}

/// The movement mask of a feature category; no feature restricts nothing.
pub open spec fn spec_feature_movement(f: FeatureType) -> u8 {
    match f {
        FeatureType::Empty => MOVEMENT_ANY,
        FeatureType::DoorOpen => MOVEMENT_ANY,
        FeatureType::DoorClosed => MOVEMENT_NONE,
    }
}

/// The vision-penetration mask of a feature category.
pub open spec fn spec_feature_vision(f: FeatureType) -> u8 {
    match f {
        FeatureType::Empty => VISION_ANY,
        FeatureType::DoorOpen => VISION_ANY,
        FeatureType::DoorClosed => VISION_NONE,
    }
}

/// The allowed-vision mask of a feature: who can see the feature itself.
/// An empty cell offers nothing to see.
pub open spec fn spec_feature_allowed_vision(f: FeatureType) -> u8 {
    match f {
        FeatureType::Empty => VISION_NONE,
        FeatureType::DoorOpen => VISION_ANY,
        FeatureType::DoorClosed => VISION_ANY,
    }
}

impl TerrainType {
    pub fn allowed_movement(&self) -> (r: u8)
        ensures
            r == spec_terrain_movement(*self),
    {
        match self {
            TerrainType::Wall => MOVEMENT_NONE,
            TerrainType::Floor => MOVEMENT_ANY,
            TerrainType::Water => MOVEMENT_SWIM | MOVEMENT_FLY,
        }
    }

    pub fn vision_penetrates(&self) -> (r: u8)
        ensures
            r == spec_terrain_vision(*self),
    {
        match self {
            TerrainType::Wall => VISION_NONE,
            TerrainType::Floor => VISION_ANY,
            TerrainType::Water => VISION_ANY,
        }
    }

    /// The category a raw generator value stands for.
    pub open spec fn spec_from_u32(v: u32) -> TerrainType {
        if v % 4 == 0 {
            TerrainType::Wall
        } else if v % 4 == 3 {
            TerrainType::Water
        } else {
            TerrainType::Floor
        }
    }

    /// Decode a raw value written by a map generator into a category.
    pub fn from_u32(v: u32) -> (r: TerrainType)
        ensures
            r == TerrainType::spec_from_u32(v),
    {
        if v % 4 == 0 {
            TerrainType::Wall
        } else if v % 4 == 3 {
            TerrainType::Water
        } else {
            TerrainType::Floor
        }
    }
}

impl FeatureType {
    pub fn allowed_movement(&self) -> (r: u8)
        ensures
            r == spec_feature_movement(*self),
    {
        match self {
            FeatureType::Empty => MOVEMENT_ANY,
            FeatureType::DoorOpen => MOVEMENT_ANY,
            FeatureType::DoorClosed => MOVEMENT_NONE,
        }
    }

    pub fn vision_penetrates(&self) -> (r: u8)
        ensures
            r == spec_feature_vision(*self),
    {
        match self {
            FeatureType::Empty => VISION_ANY,
            FeatureType::DoorOpen => VISION_ANY,
            FeatureType::DoorClosed => VISION_NONE,
        }
    }

    pub fn allowed_vision(&self) -> (r: u8)
        ensures
            r == spec_feature_allowed_vision(*self),
    {
        match self {
            FeatureType::Empty => VISION_NONE,
            FeatureType::DoorOpen => VISION_ANY,
            FeatureType::DoorClosed => VISION_ANY,
        }
    }
}

} // verus!
