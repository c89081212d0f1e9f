//! Positions and velocities. The library only carries these values between
//! the caller and the middleware, so each `f32` component is held as its
//! IEEE-754 bit pattern (`f32::to_bits` / `f32::from_bits`).

use vstd::prelude::*;

verus! {

/// The bit pattern of `0.0f32`.
pub const F32_ZERO: u32 = 0x0000_0000;

/// The bit pattern of `1.0f32`.
pub const F32_ONE: u32 = 0x3f80_0000;

/// A 2D vector, each component as the bit pattern of an `f32`.
#[derive(Debug, Clone, Copy, PartialEq, Eq, Structural)]
pub struct Vec2Bits {
    pub x: u32,
    pub y: u32,
}

/// A 3D vector, each component as the bit pattern of an `f32`.
#[derive(Debug, Clone, Copy, PartialEq, Eq, Structural)]
pub struct Vec3Bits {
    pub x: u32,
    pub y: u32,
    pub z: u32,
}

/// The 3D attributes of a listener or an event instance.
#[derive(Debug, Clone, Copy, PartialEq, Eq, Structural)]
pub struct Attributes3d {
    pub position: Vec3Bits,
    pub velocity: Vec3Bits,
    pub forward: Vec3Bits,
    pub up: Vec3Bits,
}

/// The position and velocity of an event instance, in the plane.
#[derive(Debug, Clone, Copy, PartialEq, Eq, Structural)]
pub struct AudioPositionVelocity {
    pub position: Vec2Bits,
    pub velocity: Vec2Bits,
}

/// `v` lifted into 3D: the same x and y, and a zero third axis.
pub open spec fn lifted(v: Vec2Bits) -> Vec3Bits {
    Vec3Bits { x: v.x, y: v.y, z: F32_ZERO }
}

/// The attributes that stand for a planar position and velocity: both lifted
/// into 3D, facing +y with +z up.
pub open spec fn planar_attributes_spec(position: Vec2Bits, velocity: Vec2Bits) -> Attributes3d {
    Attributes3d {
        position: lifted(position),
        velocity: lifted(velocity),
        forward: Vec3Bits { x: F32_ZERO, y: F32_ONE, z: F32_ZERO },
        up: Vec3Bits { x: F32_ZERO, y: F32_ZERO, z: F32_ONE },
    }
}

impl Vec2Bits {
    /// The zero vector.
    pub fn zero() -> (v: Vec2Bits)
        ensures
            v == (Vec2Bits { x: F32_ZERO, y: F32_ZERO }),
    {
        Vec2Bits { x: F32_ZERO, y: F32_ZERO }
    }
}

/// The attributes handed to the middleware for a planar position and velocity.
pub fn planar_attributes(position: Vec2Bits, velocity: Vec2Bits) -> (a: Attributes3d)
    ensures
        a == planar_attributes_spec(position, velocity),
{
    Attributes3d {
        position: Vec3Bits { x: position.x, y: position.y, z: F32_ZERO },
        velocity: Vec3Bits { x: velocity.x, y: velocity.y, z: F32_ZERO },
        forward: Vec3Bits { x: F32_ZERO, y: F32_ONE, z: F32_ZERO },
        up: Vec3Bits { x: F32_ZERO, y: F32_ZERO, z: F32_ONE },
    }
}

/// The planar position and velocity of a set of attributes: their x and y.
pub fn planar_position_velocity(attributes: &Attributes3d) -> (p: AudioPositionVelocity)
    ensures
        p.position == (Vec2Bits { x: attributes.position.x, y: attributes.position.y }),
        p.velocity == (Vec2Bits { x: attributes.velocity.x, y: attributes.velocity.y }),
{
    AudioPositionVelocity {
        position: Vec2Bits { x: attributes.position.x, y: attributes.position.y },
        velocity: Vec2Bits { x: attributes.velocity.x, y: attributes.velocity.y },
    }
}

/// Reading back the attributes made for a planar position and velocity gives
/// that position and velocity.
pub proof fn lemma_planar_round_trip(position: Vec2Bits, velocity: Vec2Bits)
    ensures
        ({
            let a = planar_attributes_spec(position, velocity);
            Vec2Bits { x: a.position.x, y: a.position.y } == position && Vec2Bits {
                x: a.velocity.x,
                y: a.velocity.y,
            } == velocity
        }),
{
}

} // verus!
