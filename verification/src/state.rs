//! The snapshot of a simulation at a tick boundary: plain records, in the
//! order in which their entities were added.

use crate::util::math::Vec2;
use crate::util::scalar::Scalar;
use vstd::prelude::*;

verus! {

/// A bullet in flight.
#[derive(Clone, Debug, PartialEq)]
pub struct Bullet {
    pub id: u32,
    pub position: Vec2,
    pub velocity: Vec2,
}

/// The execution context of a tank's program. It is carried along as data;
/// nothing interprets it yet.
#[derive(Clone, Debug, PartialEq)]
pub struct VmState {
    pub pc: u32,
    pub sp: u32,
    pub stack: Vec<u32>,
    pub memory: Vec<u32>,
}

/// A tank: hull heading and turret angle are in radians.
#[derive(Clone, Debug, PartialEq)]
pub struct Tank {
    pub id: u32,
    pub position: Vec2,
    pub velocity: Vec2,
    pub angle: Scalar,
    pub turret_angle: Scalar,
    pub health: u32,
    pub vm: VmState,
    pub team_id: u32,
}

/// The whole simulation at one tick.
#[derive(Clone, Debug, PartialEq)]
pub struct SimState {
    pub time: u64,
    pub seed: u64,
    pub tanks: Vec<Tank>,
    pub bullets: Vec<Bullet>,
}

} // verus!
