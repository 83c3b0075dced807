//! The reactive propagation engine: listener re-runs, resize propagation,
//! the full update cycle, and input validation. Fixed point throughout:
//! 1_000_000 is 1.0, so a resolution of 800 is 800_000_000.

use sound_galaxy::{Constrainer, Error, ParticleBuffer, Particle, ResolutionBuffer, SpectrumEntry};

fn particle_at(x: i64, y: i64) -> Particle {
    Particle { x, y, r: 250_000, g: 500_000, b: 750_000, diameter: 0 }
}

fn four_particles() -> Vec<Particle> {
    // The n = 4 layout: 0, -2/3, 2/3, 0.
    vec![
        particle_at(0, 0),
        particle_at(-666_666, 0),
        particle_at(666_667, 0),
        particle_at(0, 0),
    ]
}

fn spectrum_of(magnitudes: &[i64]) -> Vec<SpectrumEntry> {
    magnitudes
        .iter()
        .enumerate()
        .map(|(i, &m)| SpectrumEntry { frequency: (i as i64) * 1_000_000, magnitude: m })
        .collect()
}

#[test]
fn construction_propagates_once() {
    let mut res_buf = ResolutionBuffer::new();
    let mut part_buf = ParticleBuffer::new();
    let engine =
        Constrainer::new(800_000_000, 600_000_000, four_particles(), &mut res_buf, &mut part_buf)
            .unwrap();
    assert_eq!(engine.resx, 800_000_000);
    assert_eq!(engine.resy, 600_000_000);
    assert_eq!(res_buf.writes, 1);
    assert_eq!((res_buf.width, res_buf.height), (800_000_000, 600_000_000));
    assert_eq!(part_buf.writes, 1);
    assert_eq!(part_buf.descriptors.len(), 4);
    assert_eq!(part_buf.descriptors[2].cx, 666_667);
    assert_eq!(part_buf.descriptors[2].resx, 800_000_000);
    assert_eq!(part_buf.descriptors[2].a, 1_000_000);
}

#[test]
fn construction_rejects_no_particles() {
    let mut res_buf = ResolutionBuffer::new();
    let mut part_buf = ParticleBuffer::new();
    let r = Constrainer::new(800_000_000, 600_000_000, Vec::new(), &mut res_buf, &mut part_buf);
    assert_eq!(r.unwrap_err(), Error::NoParticles);
    assert_eq!(res_buf.writes, 0);
    assert_eq!(part_buf.writes, 0);
}

#[test]
fn set_resolution_with_unchanged_values_still_runs_listeners() {
    let mut res_buf = ResolutionBuffer::new();
    let mut part_buf = ParticleBuffer::new();
    let mut engine =
        Constrainer::new(800_000_000, 600_000_000, four_particles(), &mut res_buf, &mut part_buf)
            .unwrap();
    // No dirty check: writing the same pair re-runs both listeners, once each.
    engine.set_resolution(800_000_000, 600_000_000, &mut res_buf, &mut part_buf);
    assert_eq!(res_buf.writes, 2);
    assert_eq!(part_buf.writes, 2);
    engine.set_resolution(800_000_000, 600_000_000, &mut res_buf, &mut part_buf);
    assert_eq!(res_buf.writes, 3);
    assert_eq!(part_buf.writes, 3);
    assert_eq!((res_buf.width, res_buf.height), (800_000_000, 600_000_000));
}

#[test]
fn resize_rebuilds_against_new_resolution() {
    let mut res_buf = ResolutionBuffer::new();
    let mut part_buf = ParticleBuffer::new();
    let mut engine =
        Constrainer::new(800_000_000, 600_000_000, four_particles(), &mut res_buf, &mut part_buf)
            .unwrap();
    engine.set_resolution(1_024_000_000, 768_000_000, &mut res_buf, &mut part_buf);
    assert_eq!((res_buf.width, res_buf.height), (1_024_000_000, 768_000_000));
    for d in &part_buf.descriptors {
        assert_eq!(d.resx, 1_024_000_000);
        assert_eq!(d.resy, 768_000_000);
    }
    // A later particle-buffer rebuild keeps using the new pair.
    let spectrum = spectrum_of(&[0, 0, 0, 0]);
    engine
        .set_particles_with_spectrum_and_deltatime(&spectrum, 0, &mut part_buf)
        .unwrap();
    for d in &part_buf.descriptors {
        assert_eq!(d.resx, 1_024_000_000);
        assert_eq!(d.resy, 768_000_000);
    }
}

#[test]
fn update_applies_clamp_chain_end_to_end() {
    let mut res_buf = ResolutionBuffer::new();
    let mut part_buf = ParticleBuffer::new();
    let mut engine =
        Constrainer::new(800_000_000, 600_000_000, four_particles(), &mut res_buf, &mut part_buf)
            .unwrap();
    // Magnitudes 0, 50, 500 and 20000 in whole units.
    let spectrum = spectrum_of(&[0, 50_000_000, 500_000_000, 20_000_000_000]);
    engine
        .set_particles_with_spectrum_and_deltatime(&spectrum, 0, &mut part_buf)
        .unwrap();
    let diameters: Vec<i64> = engine.particles.iter().map(|p| p.diameter).collect();
    assert_eq!(diameters, vec![0, 5_000, 20_600, 59_600]);
    // With no elapsed time nothing falls.
    for p in &engine.particles {
        assert_eq!(p.y, 0);
    }
    // Positions and colors are untouched.
    assert_eq!(engine.particles[1].x, -666_666);
    assert_eq!(engine.particles[1].r, 250_000);
    // The particle listener ran once more and mirrors the new diameters.
    assert_eq!(part_buf.writes, 2);
    let sizes: Vec<i64> = part_buf.descriptors.iter().map(|d| d.sx).collect();
    assert_eq!(sizes, vec![0, 5_000, 20_600, 59_600]);
}

#[test]
fn update_drifts_and_wraps() {
    let mut res_buf = ResolutionBuffer::new();
    let mut part_buf = ParticleBuffer::new();
    let mut engine =
        Constrainer::new(800_000_000, 600_000_000, four_particles(), &mut res_buf, &mut part_buf)
            .unwrap();
    // Magnitude 200.0 gives diameter exactly 0.02; over 12.5 seconds the
    // drift is 0.02 * 12.5 * 20 = 5.0, more than two full turns of the
    // vertical range.
    let spectrum = spectrum_of(&[200_000_000, 200_000_000, 200_000_000, 200_000_000]);
    engine
        .set_particles_with_spectrum_and_deltatime(&spectrum, 12_500_000, &mut part_buf)
        .unwrap();
    for p in &engine.particles {
        assert_eq!(p.diameter, 20_000);
        assert_eq!(p.y, -1_000_000);
        assert!(-1_000_000 <= p.y && p.y < 1_000_000);
    }
}

#[test]
fn update_rejects_length_mismatch() {
    let mut res_buf = ResolutionBuffer::new();
    let mut part_buf = ParticleBuffer::new();
    let mut engine =
        Constrainer::new(800_000_000, 600_000_000, four_particles(), &mut res_buf, &mut part_buf)
            .unwrap();
    let spectrum = spectrum_of(&[0, 0, 0]);
    let r = engine.set_particles_with_spectrum_and_deltatime(&spectrum, 0, &mut part_buf);
    assert_eq!(r.unwrap_err(), Error::SpectrumLengthMismatch);
    // Nothing moved and the listener did not run.
    assert_eq!(part_buf.writes, 1);
    for p in &engine.particles {
        assert_eq!(p.diameter, 0);
    }
}

#[test]
fn update_rejects_bad_deltatime() {
    let mut res_buf = ResolutionBuffer::new();
    let mut part_buf = ParticleBuffer::new();
    let mut engine =
        Constrainer::new(800_000_000, 600_000_000, four_particles(), &mut res_buf, &mut part_buf)
            .unwrap();
    let spectrum = spectrum_of(&[0, 0, 0, 0]);
    let r = engine.set_particles_with_spectrum_and_deltatime(&spectrum, -1, &mut part_buf);
    assert_eq!(r.unwrap_err(), Error::InvalidDeltatime);
    let r = engine.set_particles_with_spectrum_and_deltatime(
        &spectrum,
        3_600_000_001,
        &mut part_buf,
    );
    assert_eq!(r.unwrap_err(), Error::InvalidDeltatime);
    assert_eq!(part_buf.writes, 1);
}

#[test]
fn update_rejects_bad_magnitude() {
    let mut res_buf = ResolutionBuffer::new();
    let mut part_buf = ParticleBuffer::new();
    let mut engine =
        Constrainer::new(800_000_000, 600_000_000, four_particles(), &mut res_buf, &mut part_buf)
            .unwrap();
    let spectrum = spectrum_of(&[0, -1, 0, 0]);
    let r = engine.set_particles_with_spectrum_and_deltatime(&spectrum, 0, &mut part_buf);
    assert_eq!(r.unwrap_err(), Error::InvalidMagnitude);
    let spectrum = spectrum_of(&[0, 0, 1_000_000_000_001, 0]);
    let r = engine.set_particles_with_spectrum_and_deltatime(&spectrum, 0, &mut part_buf);
    assert_eq!(r.unwrap_err(), Error::InvalidMagnitude);
    // Validation happens before any mutation: no particle changed.
    for p in &engine.particles {
        assert_eq!(p.diameter, 0);
        assert_eq!(p.y, 0);
    }
    assert_eq!(part_buf.writes, 1);
}
