//! The reactive propagation engine: a struct over the dynamic fields
//! (resolution and particle array) with a fixed, ordered list of listeners,
//! each tied to the set of fields it depends on. A mutator batches its field
//! writes and then runs, in declaration order and each at most once, exactly
//! the listeners whose dependency set intersects the changed fields, so the
//! derived render buffers are never stale when an entry point returns.
//!
//! The render resources themselves are not owned here: every mutating call
//! borrows them from the caller, writes them, and hands them back.

use vstd::prelude::*;
use crate::error::Error;
use crate::particle::Particle;
use crate::units::{wrap_y, ONE};
use vstd::arithmetic::mul::{lemma_mul_nonnegative, lemma_mul_upper_bound};
use crate::update::{
    deltatime_ok, lemma_drift_bounds, magnitude_ok, particle_updated, transform_diameter,
    SpectrumEntry, DIAMETER_LIMIT, DRIFT_FACTOR, MAX_DELTATIME, MAX_MAGNITUDE,
};

verus! {

/// The resolution render resource, as the engine sees it: the last pair
/// written, and how many writes it has taken. The caller owns the actual
/// GPU-side resource and mirrors every write into it.
#[derive(Clone, Debug)]
pub struct ResolutionBuffer {
    pub width: i64,
    pub height: i64,
    pub writes: u64,
}

impl ResolutionBuffer {
    /// A fresh resource that nothing has written yet.
    pub fn new() -> (b: ResolutionBuffer)
        ensures
            b.width == 0,
            b.height == 0,
            b.writes == 0,
    {
        ResolutionBuffer { width: 0, height: 0, writes: 0 }
    }
}

/// One render descriptor per particle: a placement area (center, size and
/// the resolution to correct the aspect against) and an RGBA color.
#[derive(Clone, Copy, Debug)]
pub struct EllipseDescriptor {
    pub cx: i64,
    pub cy: i64,
    pub sx: i64,
    pub sy: i64,
    pub resx: i64,
    pub resy: i64,
    pub r: i64,
    pub g: i64,
    pub b: i64,
    pub a: i64,
}

/// The particle render resource, as the engine sees it: the last descriptor
/// sequence written, and how many writes it has taken.
#[derive(Clone, Debug)]
pub struct ParticleBuffer {
    pub descriptors: Vec<EllipseDescriptor>,
    pub writes: u64,
}

impl ParticleBuffer {
    /// A fresh resource that nothing has written yet.
    pub fn new() -> (b: ParticleBuffer)
        ensures
            b.descriptors@.len() == 0,
            b.writes == 0,
    {
        ParticleBuffer { descriptors: Vec::new(), writes: 0 }
    }
}

/// The descriptor a particle yields under a given resolution: centered at
/// the particle, sized by its diameter on both axes, aspect-corrected
/// against that resolution, colored by the particle with alpha fixed at 1.0.
pub open spec fn descriptor_for(p: Particle, resx: i64, resy: i64) -> EllipseDescriptor {
    EllipseDescriptor {
        cx: p.x,
        cy: p.y,
        sx: p.diameter,
        sy: p.diameter,
        resx: resx,
        resy: resy,
        r: p.r,
        g: p.g,
        b: p.b,
        a: ONE,
    }
}

/// Which dynamic fields a mutation batch changed.
#[derive(Clone, Copy, Debug)]
pub struct FieldChanges {
    pub resx: bool,
    pub resy: bool,
    pub particles: bool,
}

/// The resolution listener depends on {resx, resy}: it runs when the batch
/// touched either.
pub open spec fn resolution_listener_affected(c: FieldChanges) -> bool {
    c.resx || c.resy
}

/// The particle listener depends on {resx, resy, particles}: it runs when
/// the batch touched any of the three.
pub open spec fn particle_listener_affected(c: FieldChanges) -> bool {
    c.resx || c.resy || c.particles
}

/// The engine. It owns the dynamic fields; the render resources are
/// borrowed per call and never stored.
#[derive(Debug)]
pub struct Constrainer {
    pub resx: i64,
    pub resy: i64,
    pub particles: Vec<Particle>,
}

impl Constrainer {
    /// Engine invariant: every particle it holds is valid.
    pub open spec fn wf(self) -> bool {
        forall|i: int| 0 <= i < self.particles@.len() ==> (#[trigger] self.particles@[i]).valid()
    }

    /// Listener over {resx, resy}: writes the current resolution pair into
    /// the resolution resource.
    fn rebuild_resolution_buffer(&self, resolution_buffer: &mut ResolutionBuffer)
        requires
            old(resolution_buffer).writes < u64::MAX,
        ensures
            final(resolution_buffer).width == self.resx,
            final(resolution_buffer).height == self.resy,
            final(resolution_buffer).writes == old(resolution_buffer).writes + 1,
    {
        resolution_buffer.width = self.resx;
        resolution_buffer.height = self.resy;
        resolution_buffer.writes = resolution_buffer.writes + 1;
    }

    /// Listener over {resx, resy, particles}: writes one descriptor per
    /// particle, in particle order and against the current resolution, into
    /// the particle render resource.
    #[verifier::loop_isolation(false)]
    fn rebuild_particle_buffer(&self, particle_buffer: &mut ParticleBuffer)
        requires
            old(particle_buffer).writes < u64::MAX,
        ensures
            final(particle_buffer).writes == old(particle_buffer).writes + 1,
            final(particle_buffer).descriptors@.len() == self.particles@.len(),
            forall|i: int|
                0 <= i < self.particles@.len() ==> (#[trigger] final(particle_buffer).descriptors@[i]) == descriptor_for(self.particles@[i], self.resx, self.resy),
    {
        let mut buf: Vec<EllipseDescriptor> = Vec::new();
        let mut i: usize = 0;
        while i < self.particles.len()
            invariant
                i <= self.particles@.len(),
                buf@.len() == i,
                forall|k: int|
                    0 <= k < i ==> (#[trigger] buf@[k]) == descriptor_for(
                        self.particles@[k],
                        self.resx,
                        self.resy,
                    ),
            decreases self.particles@.len() - i,
        {
            let p = self.particles[i];
            buf.push(
                EllipseDescriptor {
                    cx: p.x,
                    cy: p.y,
                    sx: p.diameter,
                    sy: p.diameter,
                    resx: self.resx,
                    resy: self.resy,
                    r: p.r,
                    g: p.g,
                    b: p.b,
                    a: ONE,
                },
            );
            i = i + 1;
        }
        particle_buffer.descriptors = buf;
        particle_buffer.writes = particle_buffer.writes + 1;
    }

    /// The dispatch at the end of a mutation batch: walk the listener list
    /// in declaration order and run each listener whose dependency set
    /// intersects the changed fields, each exactly once — with no check
    /// against the old values, so a write of an unchanged value still runs
    /// its listeners.
    fn run_listeners(
        &self,
        changed: FieldChanges,
        resolution_buffer: &mut ResolutionBuffer,
        particle_buffer: &mut ParticleBuffer,
    )
        requires
            old(resolution_buffer).writes < u64::MAX,
            old(particle_buffer).writes < u64::MAX,
        ensures
            resolution_listener_affected(changed) ==> {
                &&& final(resolution_buffer).width == self.resx
                &&& final(resolution_buffer).height == self.resy
                &&& final(resolution_buffer).writes == old(resolution_buffer).writes + 1
            },
            !resolution_listener_affected(changed) ==> *final(resolution_buffer) == *old(resolution_buffer),
            particle_listener_affected(changed) ==> {
                &&& final(particle_buffer).writes == old(particle_buffer).writes + 1
                &&& final(particle_buffer).descriptors@.len() == self.particles@.len()
                &&& forall|i: int|
                    0 <= i < self.particles@.len() ==> (#[trigger] final(particle_buffer).descriptors@[i]) == descriptor_for(self.particles@[i], self.resx, self.resy)
            },
            !particle_listener_affected(changed) ==> *final(particle_buffer) == *old(particle_buffer),
    {
        if changed.resx || changed.resy {
            self.rebuild_resolution_buffer(resolution_buffer);
        }
        if changed.resx || changed.resy || changed.particles {
            self.rebuild_particle_buffer(particle_buffer);
        }
    }

    /// Builds the engine and runs every listener once (full initial
    /// propagation), so the derived resources start in step with the state.
    /// An empty particle array is rejected and writes nothing.
    pub fn new(
        resx: i64,
        resy: i64,
        particles: Vec<Particle>,
        resolution_buffer: &mut ResolutionBuffer,
        particle_buffer: &mut ParticleBuffer,
    ) -> (r: Result<Constrainer, Error>)
        requires
            forall|i: int| 0 <= i < particles@.len() ==> (#[trigger] particles@[i]).valid(),
            old(resolution_buffer).writes < u64::MAX,
            old(particle_buffer).writes < u64::MAX,
        ensures
            match r {
                Ok(c) => {
                    &&& particles@.len() > 0
                    &&& c.resx == resx
                    &&& c.resy == resy
                    &&& c.particles@ == particles@
                    &&& c.wf()
                    &&& final(resolution_buffer).width == resx
                    &&& final(resolution_buffer).height == resy
                    &&& final(resolution_buffer).writes == old(resolution_buffer).writes + 1
                    &&& final(particle_buffer).writes == old(particle_buffer).writes + 1
                    &&& final(particle_buffer).descriptors@.len() == particles@.len()
                    &&& forall|i: int|
                        0 <= i < particles@.len() ==> (#[trigger] final(particle_buffer).descriptors@[i]) == descriptor_for(particles@[i], resx, resy)
                },
                Err(e) => {
                    &&& e == Error::NoParticles
                    &&& particles@.len() == 0
                    &&& *final(resolution_buffer) == *old(resolution_buffer)
                    &&& *final(particle_buffer) == *old(particle_buffer)
                },
            },
    {
        if particles.len() == 0 {
            return Err(Error::NoParticles);
        }
        let engine = Constrainer { resx, resy, particles };
        let all = FieldChanges { resx: true, resy: true, particles: true };
        engine.run_listeners(all, resolution_buffer, particle_buffer);
        Ok(engine)
    }

    /// Mutator over {resx, resy}: writes both fields as one batch, then runs
    /// the affected listeners — both of them, since both dependency sets
    /// intersect {resx, resy}; the particle descriptors are rebuilt against
    /// the new resolution.
    pub fn set_resolution(
        &mut self,
        resx: i64,
        resy: i64,
        resolution_buffer: &mut ResolutionBuffer,
        particle_buffer: &mut ParticleBuffer,
    )
        requires
            old(self).wf(),
            old(resolution_buffer).writes < u64::MAX,
            old(particle_buffer).writes < u64::MAX,
        ensures
            final(self).resx == resx,
            final(self).resy == resy,
            final(self).particles@ == old(self).particles@,
            final(self).wf(),
            final(resolution_buffer).width == resx,
            final(resolution_buffer).height == resy,
            final(resolution_buffer).writes == old(resolution_buffer).writes + 1,
            final(particle_buffer).writes == old(particle_buffer).writes + 1,
            final(particle_buffer).descriptors@.len() == old(self).particles@.len(),
            forall|i: int|
                0 <= i < old(self).particles@.len() ==> (#[trigger] final(particle_buffer).descriptors@[i]) == descriptor_for(old(self).particles@[i], resx, resy),
    {
        self.resx = resx;
        self.resy = resy;
        let changed = FieldChanges { resx: true, resy: true, particles: false };
        self.run_listeners(changed, resolution_buffer, particle_buffer);
    }

    /// The particle update rule: one spectrum entry per particle, in order.
    /// Every particle's diameter becomes its magnitude through the clamp
    /// chain, its vertical position falls by the drift and wraps, and the
    /// particle listener then rebuilds the render buffer, as if the batch
    /// had changed {particles}. Rejected without any effect when the
    /// spectrum length does not match, the elapsed time is out of range, or
    /// any magnitude is out of range.
    #[verifier::loop_isolation(false)]
    pub fn set_particles_with_spectrum_and_deltatime(
        &mut self,
        spectrum: &Vec<SpectrumEntry>,
        deltatime: i64,
        particle_buffer: &mut ParticleBuffer,
    ) -> (r: Result<(), Error>)
        requires
            old(self).wf(),
            old(particle_buffer).writes < u64::MAX,
        ensures
            match r {
                Ok(()) => {
                    &&& spectrum@.len() == old(self).particles@.len()
                    &&& deltatime_ok(deltatime)
                    &&& forall|i: int|
                        0 <= i < spectrum@.len() ==> magnitude_ok(
                            (#[trigger] spectrum@[i]).magnitude,
                        )
                    &&& final(self).resx == old(self).resx
                    &&& final(self).resy == old(self).resy
                    &&& final(self).particles@.len() == old(self).particles@.len()
                    &&& forall|i: int|
                        0 <= i < old(self).particles@.len() ==> particle_updated(
                            old(self).particles@[i],
                            spectrum@[i].magnitude,
                            deltatime,
                            (#[trigger] final(self).particles@[i]),
                        )
                    &&& final(self).wf()
                    &&& final(particle_buffer).writes == old(particle_buffer).writes + 1
                    &&& final(particle_buffer).descriptors@.len() == old(self).particles@.len()
                    &&& forall|i: int|
                        0 <= i < old(self).particles@.len() ==> (#[trigger] final(particle_buffer).descriptors@[i]) == descriptor_for(
                            final(self).particles@[i],
                            old(self).resx,
                            old(self).resy,
                        )
                },
                Err(e) => {
                    &&& *final(self) == *old(self)
                    &&& *final(particle_buffer) == *old(particle_buffer)
                    &&& match e {
                        Error::SpectrumLengthMismatch => spectrum@.len() != old(self).particles@.len(),
                        Error::InvalidDeltatime => {
                            &&& spectrum@.len() == old(self).particles@.len()
                            &&& !deltatime_ok(deltatime)
                        },
                        Error::InvalidMagnitude => {
                            &&& spectrum@.len() == old(self).particles@.len()
                            &&& deltatime_ok(deltatime)
                            &&& exists|i: int|
                                0 <= i < spectrum@.len() && !magnitude_ok(
                                    (#[trigger] spectrum@[i]).magnitude,
                                )
                        },
                        _ => false,
                    }
                },
            },
    {
        let n = self.particles.len();
        if spectrum.len() != n {
            return Err(Error::SpectrumLengthMismatch);
        }
        if deltatime < 0 || deltatime > MAX_DELTATIME {
            return Err(Error::InvalidDeltatime);
        }
        let mut i: usize = 0;
        while i < n
            invariant
                i <= n,
                forall|k: int| 0 <= k < i ==> magnitude_ok((#[trigger] spectrum@[k]).magnitude),
            decreases n - i,
        {
            let m = spectrum[i].magnitude;
            if m < 0 || m > MAX_MAGNITUDE {
                return Err(Error::InvalidMagnitude);
            }
            i = i + 1;
        }
        i = 0;
        while i < n
            invariant
                i <= n,
                self.particles@.len() == n,
                self.resx == old(self).resx,
                self.resy == old(self).resy,
                forall|k: int|
                    i <= k < n ==> (#[trigger] self.particles@[k]) == old(self).particles@[k],
                forall|k: int|
                    0 <= k < i ==> particle_updated(
                        old(self).particles@[k],
                        spectrum@[k].magnitude,
                        deltatime,
                        (#[trigger] self.particles@[k]),
                    ),
                forall|k: int|
                    0 <= k < i ==> (#[trigger] self.particles@[k]).valid(),
            decreases n - i,
        {
            let m = spectrum[i].magnitude;
            let d = transform_diameter(m);
            let mut p = self.particles[i];
            p.diameter = d;
            proof {
                lemma_drift_bounds(d as int, deltatime as int);
                lemma_mul_nonnegative(d as int, deltatime as int);
                lemma_mul_upper_bound(
                    d as int,
                    DIAMETER_LIMIT as int,
                    deltatime as int,
                    MAX_DELTATIME as int,
                );
            }
            let dec: i64 = d * deltatime * DRIFT_FACTOR / ONE;
            p.y = wrap_y(p.y - dec);
            self.particles[i] = p;
            i = i + 1;
        }
        self.rebuild_particle_buffer(particle_buffer);
        Ok(())
    }
}

} // verus!
