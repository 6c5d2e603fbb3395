//! Records of where each body is after a step.

use crate::body::{Body, System, BODIES_COUNT};
use vstd::prelude::*;

verus! {

/// The position of one body after one step.
#[derive(Debug, PartialEq)]
pub struct Timestamp<T> {
    /// The index of the step.
    pub time: usize,
    /// The index of the body.
    pub planet: usize,
    pub x: T,
    pub y: T,
    pub z: T,
}

impl<T: Copy> Clone for Timestamp<T> {
    fn clone(&self) -> (copy: Self)
        ensures
            copy == *self,
    {
        *self
    }
}

impl<T: Copy> Copy for Timestamp<T> {
}

/// The record of body `i` of the system `s`, labelled with step `t`.
pub open spec fn timestamp<T>(s: System<T>, t: usize, i: int) -> Timestamp<T> {
    Timestamp {
        time: t,
        planet: i as usize,
        x: s[i].position[0],
        y: s[i].position[1],
        z: s[i].position[2],
    }
}

/// The records of all bodies of the system `s`, labelled with step `t`, in
/// the order of the bodies.
pub open spec fn timestamps<T>(s: System<T>, t: usize) -> Seq<Timestamp<T>> {
    Seq::new(BODIES_COUNT as nat, |i: int| timestamp(s, t, i))
}

/// Records the position of every body, labelled with the step index `t` and
/// the body's own index.
pub fn make_timestamps<T: Copy>(bodies: &[Body<T>; BODIES_COUNT], t: usize) -> (records:
    [Timestamp<T>; BODIES_COUNT])
    ensures
        records@ == timestamps(bodies.deep_view(), t),
{
    let ghost s = bodies.deep_view();
    // Every entry is overwritten below.
    let mut records = [Timestamp {
        time: t,
        planet: 0,
        x: bodies[0].position[0],
        y: bodies[0].position[1],
        z: bodies[0].position[2],
    }; BODIES_COUNT];
    for i in 0..BODIES_COUNT
        invariant
            s == bodies.deep_view(),
            forall|p: int| 0 <= p < i ==> #[trigger] records[p] == timestamp(s, t, p),
    {
        let body = &bodies[i];
        records[i] = Timestamp {
            time: t,
            planet: i,
            x: body.position[0],
            y: body.position[1],
            z: body.position[2],
        };
    }
    assert(records@ =~= timestamps(s, t));
    records
}

} // verus!
