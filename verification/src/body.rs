//! The state of the system: five point masses.

use vstd::prelude::*;

verus! {

/// The number of bodies: the star at index 0, then four planets.
pub const BODIES_COUNT: usize = 5;

/// A point mass with a position and a velocity in three dimensions.
#[derive(Debug, PartialEq)]
pub struct Body<T> {
    pub position: [T; 3],
    pub velocity: [T; 3],
    pub mass: T,
}

impl<T: Copy> Clone for Body<T> {
    fn clone(&self) -> (copy: Self)
        ensures
            copy == *self,
    {
        *self
    }
}

impl<T: Copy> Copy for Body<T> {
}

/// The mathematical value of a [`Body`]: its two vectors as sequences.
#[verifier::ext_equal]
pub struct BodyView<T> {
    pub position: Seq<T>,
    pub velocity: Seq<T>,
    pub mass: T,
}

/// The mathematical value of the whole system, one entry for each body.
pub type System<T> = Seq<BodyView<T>>;

impl<T> View for Body<T> {
    type V = BodyView<T>;

    open spec fn view(&self) -> BodyView<T> {
        BodyView { position: self.position@, velocity: self.velocity@, mass: self.mass }
    }
}

impl<T> DeepView for Body<T> {
    type V = BodyView<T>;

    open spec fn deep_view(&self) -> BodyView<T> {
        self@
    }
}

/// A system holds five bodies, each with three coordinates of position and
/// three of velocity.
pub open spec fn well_formed<T>(s: System<T>) -> bool {
    &&& s.len() == BODIES_COUNT
    &&& forall|b: int|
        0 <= b < BODIES_COUNT ==> (#[trigger] s[b]).position.len() == 3 && s[b].velocity.len()
            == 3
}

/// The view of an array of bodies is a well-formed system that holds the
/// mass and every coordinate of every body.
pub proof fn lemma_view_well_formed<T>(bodies: [Body<T>; BODIES_COUNT])
    ensures
        well_formed(bodies.deep_view()),
        forall|b: int| 0 <= b < BODIES_COUNT ==> (#[trigger] bodies.deep_view()[b]) == bodies[b]@,
        forall|b: int, m: int|
            0 <= b < BODIES_COUNT && 0 <= m < 3 ==> (#[trigger] bodies.deep_view()[b].position[m])
                == bodies[b].position[m],
        forall|b: int, m: int|
            0 <= b < BODIES_COUNT && 0 <= m < 3 ==> (#[trigger] bodies.deep_view()[b].velocity[m])
                == bodies[b].velocity[m],
{
}

/// The view determines the bodies: two arrays with the same view are equal.
pub proof fn lemma_view_determines_bodies<T>(a: [Body<T>; BODIES_COUNT], b: [Body<T>; BODIES_COUNT])
    requires
        a.deep_view() == b.deep_view(),
    ensures
        a == b,
{
    lemma_view_well_formed(a);
    lemma_view_well_formed(b);
    assert forall|i: int| 0 <= i < BODIES_COUNT implies a[i] == b[i] by {
        assert(a.deep_view()[i] == b.deep_view()[i]);
        assert(a[i].position@ == b[i].position@);
        assert(a[i].velocity@ == b[i].velocity@);
        assert(a[i].position =~= b[i].position);
        assert(a[i].velocity =~= b[i].velocity);
    }
    assert(a =~= b);
}

} // verus!
