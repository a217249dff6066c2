//! What a floor is generated from, and the configurations that are refused.

use std::ops::Range;
use vstd::prelude::*;

verus! {

/// The clearance kept between rooms unless a configuration says otherwise.
pub const PADDING: u32 = 5;

/// How many positions are tried for one room before it is given up.
pub const MAX_TRIES: u32 = 1000;

/// The parameters of one generation. Both ranges are half-open.
#[derive(Debug, PartialEq, Eq)]
pub struct FloorConfig {
    /// Width and height of the floor, in cells.
    pub floor_dimensions: (u32, u32),
    /// The number of rooms asked for is drawn from this range.
    pub room_count_range: Range<u32>,
    /// Width and height of each room are drawn from this range.
    pub room_dims_range: Range<u32>,
    /// The clearance kept between any two rooms, in cells.
    pub padding: u32,
}

/// Why a configuration is refused. Nothing is drawn for a refused configuration.
#[derive(Clone, Copy, Debug, PartialEq, Eq, Structural)]
pub enum ConfigError {
    /// The floor has no width or no height.
    ZeroFloorDimension,
    /// The range of room counts holds no number.
    EmptyRoomCountRange,
    /// The range of room dimensions holds no number.
    EmptyRoomDimsRange,
    /// The range of room dimensions admits a room without extent.
    ZeroRoomDimension,
    /// The largest room and its clearance do not fit the floor along some axis.
    RoomTooLarge,
}

impl FloorConfig {
    /// The first reason, in the order of `ConfigError`'s variants, for which this
    /// configuration is refused; `None` for one that is accepted.
    pub open spec fn fault(&self) -> Option<ConfigError> {
        if self.floor_dimensions.0 == 0 || self.floor_dimensions.1 == 0 {
            Some(ConfigError::ZeroFloorDimension)
        } else if self.room_count_range.start >= self.room_count_range.end {
            Some(ConfigError::EmptyRoomCountRange)
        } else if self.room_dims_range.start >= self.room_dims_range.end {
            Some(ConfigError::EmptyRoomDimsRange)
        } else if self.room_dims_range.start == 0 {
            Some(ConfigError::ZeroRoomDimension)
        } else if self.room_dims_range.end - 1 + self.padding > self.floor_dimensions.0
            || self.room_dims_range.end - 1 + self.padding > self.floor_dimensions.1 {
            Some(ConfigError::RoomTooLarge)
        } else {
            None
        }
    }

    /// Whether generation accepts this configuration.
    pub open spec fn valid(&self) -> bool {
        self.fault() is None
    }

    /// Checks the configuration, without drawing anything.
    pub fn validate(&self) -> (outcome: Result<(), ConfigError>)
        ensures
            outcome is Ok <==> self.valid(),
            outcome matches Err(e) ==> self.fault() == Some(e),
    {
        if self.floor_dimensions.0 == 0 || self.floor_dimensions.1 == 0 {
            return Err(ConfigError::ZeroFloorDimension);
        }
        if self.room_count_range.start >= self.room_count_range.end {
            return Err(ConfigError::EmptyRoomCountRange);
        }
        if self.room_dims_range.start >= self.room_dims_range.end {
            return Err(ConfigError::EmptyRoomDimsRange);
        }
        if self.room_dims_range.start == 0 {
            return Err(ConfigError::ZeroRoomDimension);
        }
        let largest: u64 = (self.room_dims_range.end - 1) as u64 + self.padding as u64;
        if largest > self.floor_dimensions.0 as u64 || largest > self.floor_dimensions.1 as u64 {
            return Err(ConfigError::RoomTooLarge);
        }
        Ok(())
    }
}

impl Clone for FloorConfig {
    fn clone(&self) -> (copy: FloorConfig)
        ensures
            copy == *self,
    {
        FloorConfig {
            floor_dimensions: self.floor_dimensions,
            room_count_range: self.room_count_range.start..self.room_count_range.end,
            room_dims_range: self.room_dims_range.start..self.room_dims_range.end,
            padding: self.padding,
        }
    }
}

impl Default for FloorConfig {
    /// A 90 by 30 floor with 3 to 7 rooms of 6 to 14 cells a side, 5 cells apart.
    fn default() -> (config: FloorConfig)
        ensures
            config.floor_dimensions == (90u32, 30u32),
            config.room_count_range.start == 3,
            config.room_count_range.end == 8,
            config.room_dims_range.start == 6,
            config.room_dims_range.end == 15,
            config.padding == PADDING,
            config.valid(),
    {
        FloorConfig {
            floor_dimensions: (90, 30),
            room_count_range: 3..8,
            room_dims_range: 6..15,
            padding: PADDING,
        }
    }
}

} // verus!
