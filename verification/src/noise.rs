//! The coherent-noise collaborator: an injected, swappable capability.
//!
//! The shading model samples an opaque deterministic noise field.  The
//! pipeline only relies on the sample range, so the field is a trait the
//! driver implements over its generator of choice; [`StubNoise`] is a
//! deterministic arithmetic field for tests.  [`NoiseConfig`] carries the
//! fractal configuration a generator is built from, as plain values.

use vstd::prelude::*;

use crate::fx::{abs_s, FX_ONE};

verus! {

/// A coherent noise field: `sample(..)` lies in `[-1, 1]` (fixed point)
/// and depends on the coordinates alone.
pub trait NoiseField {
    /// Samples the field at a 2D fixed-point coordinate.
    fn get_noise_2d(&self, x: i64, y: i64) -> (r: i64)
        ensures
            -FX_ONE <= r <= FX_ONE,
    ;

    /// Samples the field at a 3D fixed-point coordinate.
    fn get_noise_3d(&self, x: i64, y: i64, z: i64) -> (r: i64)
        ensures
            -FX_ONE <= r <= FX_ONE,
    ;
}

/// The magnitude of `v`, reduced modulo `m`.
pub open spec fn spec_mag_mod(v: int, m: int) -> int {
    abs_s(v) % m
}

fn mag_mod(v: i64, m: u64) -> (r: u64)
    requires
        m > 0,
    ensures
        r == spec_mag_mod(v as int, m as int),
        r < m,
{
    let mag: u64 = if v >= 0 {
        v as u64
    } else {
        (-(v as i128)) as u64
    };
    mag % m
}

/// The stub field's sample: a modular hash of the folded coordinates,
/// shifted into `[-1, 1]`.
pub open spec fn spec_stub_sample(seed: int, a: int, b: int, c: int) -> int {
    (spec_mag_mod(a, 65521) * 31 + spec_mag_mod(b, 65521) * 17 + spec_mag_mod(c, 65521) * 7 + seed)
        % (2 * FX_ONE + 1) - FX_ONE
}

/// A deterministic arithmetic noise field for tests: no outside
/// generator, same samples in every process.
#[derive(Clone, Copy, PartialEq, Eq, Structural, Debug)]
pub struct StubNoise {
    pub seed: u32,
}

impl StubNoise {
    /// A stub field from a seed.
    pub fn new(seed: u32) -> (r: StubNoise)
        ensures
            r == (StubNoise { seed }),
    {
        StubNoise { seed }
    }

    fn sample(&self, a: i64, b: i64, c: i64) -> (r: i64)
        ensures
            r == spec_stub_sample(self.seed as int, a as int, b as int, c as int),
            -FX_ONE <= r <= FX_ONE,
    {
        let ma = mag_mod(a, 65521);
        let mb = mag_mod(b, 65521);
        let mc = mag_mod(c, 65521);
        let h: u64 = ma * 31 + mb * 17 + mc * 7 + self.seed as u64;
        let folded: u64 = h % (2 * FX_ONE as u64 + 1);
        folded as i64 - FX_ONE
    }
}

impl NoiseField for StubNoise {
    fn get_noise_2d(&self, x: i64, y: i64) -> (r: i64)
        ensures
            -FX_ONE <= r <= FX_ONE,
    {
        self.sample(x, y, 0)
    }

    fn get_noise_3d(&self, x: i64, y: i64, z: i64) -> (r: i64)
        ensures
            -FX_ONE <= r <= FX_ONE,
    {
        self.sample(x, y, z)
    }
}

/// The base algorithm a generator runs.
#[derive(Clone, Copy, PartialEq, Eq, Structural, Debug)]
pub enum NoiseKind {
    OpenSimplex,
    Cellular,
    Perlin,
}

/// The fractal layering applied over the base algorithm.
#[derive(Clone, Copy, PartialEq, Eq, Structural, Debug)]
pub enum FractalKind {
    Plain,
    FractionalBrownian,
}

/// A noise generator's configuration, as plain values: seed, base
/// algorithm, fractal layering, octave count, and fixed-point
/// lacunarity, gain and base frequency.  Distinct configurations yield
/// the distinct materials of the shading model.
#[derive(Clone, Copy, PartialEq, Eq, Structural, Debug)]
pub struct NoiseConfig {
    pub seed: i32,
    pub kind: NoiseKind,
    pub fractal: FractalKind,
    pub octaves: u32,
    pub lacunarity: i64,
    pub gain: i64,
    pub frequency: i64,
}

/// The configuration the scene's shared field uses (the cloud field).
pub fn create_noise() -> (c: NoiseConfig)
    ensures
        c == spec_cloud_noise_config(),
{
    create_cloud_noise()
}

/// Open-simplex noise at the generator's default frequency.
pub open spec fn spec_cloud_noise_config() -> NoiseConfig {
    NoiseConfig {
        seed: 1337,
        kind: NoiseKind::OpenSimplex,
        fractal: FractalKind::Plain,
        octaves: 1,
        lacunarity: 131072,
        gain: 32768,
        frequency: 655,
    }
}

/// The cloud layer's configuration.
pub fn create_cloud_noise() -> (c: NoiseConfig)
    ensures
        c == spec_cloud_noise_config(),
{
    NoiseConfig {
        seed: 1337,
        kind: NoiseKind::OpenSimplex,
        fractal: FractalKind::Plain,
        octaves: 1,
        lacunarity: 131072,
        gain: 32768,
        frequency: 655,
    }
}

/// Cellular noise at a tenth frequency.
pub fn create_cell_noise() -> (c: NoiseConfig)
    ensures
        c == (NoiseConfig {
            seed: 1337,
            kind: NoiseKind::Cellular,
            fractal: FractalKind::Plain,
            octaves: 1,
            lacunarity: 131072,
            gain: 32768,
            frequency: 6553,
        }),
{
    NoiseConfig {
        seed: 1337,
        kind: NoiseKind::Cellular,
        fractal: FractalKind::Plain,
        octaves: 1,
        lacunarity: 131072,
        gain: 32768,
        frequency: 6553,
    }
}

/// Fractal cellular noise for rocky ground.
pub fn create_ground_noise() -> (c: NoiseConfig)
    ensures
        c == (NoiseConfig {
            seed: 1337,
            kind: NoiseKind::Cellular,
            fractal: FractalKind::FractionalBrownian,
            octaves: 5,
            lacunarity: 131072,
            gain: 32768,
            frequency: 3276,
        }),
{
    NoiseConfig {
        seed: 1337,
        kind: NoiseKind::Cellular,
        fractal: FractalKind::FractionalBrownian,
        octaves: 5,
        lacunarity: 131072,
        gain: 32768,
        frequency: 3276,
    }
}

/// Fractal Perlin noise for the emissive body's churn.
pub fn create_lava_noise() -> (c: NoiseConfig)
    ensures
        c == (NoiseConfig {
            seed: 42,
            kind: NoiseKind::Perlin,
            fractal: FractalKind::FractionalBrownian,
            octaves: 6,
            lacunarity: 131072,
            gain: 32768,
            frequency: 131,
        }),
{
    NoiseConfig {
        seed: 42,
        kind: NoiseKind::Perlin,
        fractal: FractalKind::FractionalBrownian,
        octaves: 6,
        lacunarity: 131072,
        gain: 32768,
        frequency: 131,
    }
}

} // verus!
