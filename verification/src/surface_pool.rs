//! The pool of free decode surfaces.

use std::collections::VecDeque;
use vstd::prelude::*;

use crate::Resolution;

verus! {

/// A hardware surface: its identifier and the coded resolution that it was
/// allocated at.
///
/// A surface is owned by the pool it waits in or by the picture that is
/// decoded into it. It can be moved but not copied.
#[derive(Debug, PartialEq, Eq)]
pub struct Surface {
    pub id: u32,
    pub coded_resolution: Resolution,
}

impl Surface {
    /// Describes the surface `id`, allocated at `coded_resolution`.
    pub fn new(id: u32, coded_resolution: Resolution) -> (surface: Self)
        ensures
            surface == (Surface { id, coded_resolution }),
    {
        Surface { id, coded_resolution }
    }

    /// Returns the identifier of this surface.
    pub fn id(&self) -> (id: u32)
        ensures
            id == self.id,
    {
        self.id
    }

    /// Returns the resolution that this surface was allocated at.
    pub fn coded_resolution(&self) -> (resolution: Resolution)
        ensures
            resolution == self.coded_resolution,
    {
        self.coded_resolution
    }
}

/// Whether every surface of `surfaces` was allocated at `resolution`.
pub open spec fn all_at_resolution(surfaces: Seq<Surface>, resolution: Resolution) -> bool {
    forall|i: int| 0 <= i < surfaces.len() ==> (#[trigger] surfaces[i]).coded_resolution == resolution
}

/// A pool of free surfaces, kept to reduce the number of costly surface
/// allocations.
///
/// The surfaces wait in the order in which they came in, and each of them
/// was allocated at the coded resolution of the pool.
pub struct SurfacePool {
    surfaces: VecDeque<Surface>,
    coded_resolution: Resolution,
}

impl View for SurfacePool {
    type V = Seq<Surface>;

    /// The free surfaces, the one that leaves next first.
    closed spec fn view(&self) -> Seq<Surface> {
        self.surfaces@
    }
}

impl SurfacePool {
    #[verifier::type_invariant]
    spec fn surfaces_at_pool_resolution(self) -> bool {
        all_at_resolution(self.surfaces@, self.coded_resolution)
    }

    /// The coded resolution of the pool.
    pub closed spec fn resolution(&self) -> Resolution {
        self.coded_resolution
    }

    /// Creates a new pool that owns `surfaces`.
    pub fn new(surfaces: Vec<Surface>, resolution: Resolution) -> (pool: Self)
        requires
            all_at_resolution(surfaces@, resolution),
        ensures
            pool@ == surfaces@,
            pool.resolution() == resolution,
    {
        let ghost initial = surfaces@;
        let mut queue: VecDeque<Surface> = VecDeque::new();
        for surface in iter: surfaces
            invariant
                iter.seq() == initial,
                queue@ == initial.take(iter.index() as int),
        {
            assert(initial.take(iter.index() + 1) =~= initial.take(iter.index() as int).push(
                surface,
            ));
            queue.push_back(surface);
        }
        SurfacePool { surfaces: queue, coded_resolution: resolution }
    }

    /// Retrieve the current coded resolution of the pool.
    pub fn coded_resolution(&self) -> (resolution: Resolution)
        ensures
            resolution == self.resolution(),
    {
        self.coded_resolution
    }

    /// Adds a new surface to the pool, behind those that wait in it.
    pub fn add_surface(&mut self, surface: Surface)
        requires
            surface.coded_resolution == old(self).resolution(),
        ensures
            final(self)@ == old(self)@.push(surface),
            final(self).resolution() == old(self).resolution(),
    {
        proof {
            use_type_invariant(&*self);
        }
        // The queue leaves the pool while it changes, so that the pool is
        // whole wherever a call could unwind.
        let mut queue: VecDeque<Surface> = VecDeque::new();
        std::mem::swap(&mut self.surfaces, &mut queue);
        queue.push_back(surface);
        std::mem::swap(&mut self.surfaces, &mut queue);
    }

    /// Gets a free surface from the pool: the one that has waited longest,
    /// or `None` if no surface is free.
    pub fn get_surface(&mut self) -> (r: Option<Surface>)
        ensures
            final(self).resolution() == old(self).resolution(),
            match r {
                Some(surface) => {
                    &&& old(self)@.len() > 0
                    &&& surface == old(self)@[0]
                    &&& surface.coded_resolution == old(self).resolution()
                    &&& final(self)@ == old(self)@.drop_first()
                },
                None => old(self)@.len() == 0 && final(self)@ == old(self)@,
            },
    {
        proof {
            use_type_invariant(&*self);
        }
        let mut queue: VecDeque<Surface> = VecDeque::new();
        std::mem::swap(&mut self.surfaces, &mut queue);
        let surface = queue.pop_front();
        std::mem::swap(&mut self.surfaces, &mut queue);
        surface
    }

    /// Returns the number of surfaces left.
    pub fn num_surfaces_left(&self) -> (n: usize)
        ensures
            n == self@.len(),
    {
        self.surfaces.len()
    }
}

/// What is left of the free surfaces `pool` once the first of them was
/// taken and added again.
pub open spec fn recycled(pool: Seq<Surface>) -> Seq<Surface>
    recommends
        pool.len() > 0,
{
    pool.drop_first().push(pool[0])
}

/// The free surfaces `pool` after `rounds` times taking a surface and adding
/// it again.
pub open spec fn recycled_times(pool: Seq<Surface>, rounds: nat) -> Seq<Surface>
    decreases rounds,
{
    if rounds == 0 {
        pool
    } else {
        recycled(recycled_times(pool, (rounds - 1) as nat))
    }
}

/// Taking a surface from a pool and adding it again right away leaves the
/// number of free surfaces as it was, and puts the surface behind all the
/// others.
pub proof fn lemma_get_then_add(pool: Seq<Surface>)
    requires
        pool.len() > 0,
    ensures
        recycled(pool).len() == pool.len(),
        recycled(pool).last() == pool[0],
        forall|i: int| 0 <= i < pool.len() - 1 ==> recycled(pool)[i] == pool[i + 1],
{
}

/// A surface that is added to a pool leaves it after the surfaces that were
/// there before it, and before any that is added later.
pub proof fn lemma_first_in_first_out(pool: Seq<Surface>, first: Surface, second: Surface)
    ensures
        pool.push(first).push(second).skip(pool.len() as int)[0] == first,
        pool.push(first).push(second).skip(pool.len() as int + 1)[0] == second,
{
}

/// Over repeated rounds of taking a surface and adding it again, the
/// surfaces keep their order: after `rounds` rounds, with `rounds` not above
/// the number of surfaces, the pool holds the surfaces that were not taken
/// yet, followed by those that were, each group in its old order. The round
/// after that takes the surface that was at position `rounds` at first.
pub proof fn lemma_recycling_keeps_order(pool: Seq<Surface>, rounds: nat)
    requires
        rounds <= pool.len(),
    ensures
        recycled_times(pool, rounds) == pool.skip(rounds as int) + pool.take(rounds as int),
        recycled_times(pool, rounds).len() == pool.len(),
        rounds < pool.len() ==> recycled_times(pool, rounds)[0] == pool[rounds as int],
    decreases rounds,
{
    if rounds > 0 {
        lemma_recycling_keeps_order(pool, (rounds - 1) as nat);
    }
}

} // verus!
