//! A three-state traffic light and its fixed cycle.

use vstd::prelude::*;

verus! {

/// The three lamp states.
#[derive(Clone, Copy, Debug, PartialEq, Eq, Structural)]
pub enum TrafficLight {
    Red,
    Yellow,
    Green,
}

impl TrafficLight {
    /// How many seconds the light stays in this state.
    pub fn time(&self) -> (t: u8)
        ensures
            *self is Red ==> t == 60,
            *self is Yellow ==> t == 10,
            *self is Green ==> t == 50,
    {
        match self {
            TrafficLight::Red => 60,
            TrafficLight::Yellow => 10,
            TrafficLight::Green => 50,
        }
    }

    /// Traffic may proceed only on green.
    pub fn can_go(&self) -> (r: bool)
        ensures
            r <==> *self is Green,
    {
        match self {
            TrafficLight::Green => true,
            _ => false,
        }
    }

    /// The state that follows in the cycle red, green, yellow, red.
    pub fn next(&self) -> (n: Self)
        ensures
            *self is Red ==> n is Green,
            *self is Yellow ==> n is Red,
            *self is Green ==> n is Yellow,
    {
        match self {
            TrafficLight::Red => TrafficLight::Green,
            TrafficLight::Yellow => TrafficLight::Red,
            TrafficLight::Green => TrafficLight::Yellow,
        }
    }
}

} // verus!
