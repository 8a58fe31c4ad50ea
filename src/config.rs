use vstd::prelude::*;

verus! {

/// Full scale of a signed 16-bit sample.
pub const FULL_SCALE: i16 = 32767;

/// Interpolation kernel of the sinc resampler.
#[derive(Debug, Clone, Copy, PartialEq, Eq, Structural)]
pub enum Interpolation {
    Linear,
    Cubic,
}

/// Window applied to the sinc filter.
#[derive(Debug, Clone, Copy, PartialEq, Eq, Structural)]
pub enum Window {
    Hann,
    BlackmanHarris2,
}

/// How a run reaches its compressed output.
#[derive(Debug, Clone, Copy, PartialEq, Eq, Structural)]
pub enum Route {
    /// Resample with the fast profile and encode block by block.
    Direct,
    /// Resample with the high-quality profile into an intermediate PCM
    /// file, then re-encode that file.
    TwoPhase,
}

/// The resampler's filter shape.
#[derive(Debug, Clone, Copy, PartialEq, Eq, Structural)]
pub struct QualityProfile {
    pub interpolation: Interpolation,
    pub window: Window,
}

/// Every tunable of a run. Ratios that are fractions of one are held in
/// thousandths.
#[derive(Debug, Clone, Copy, PartialEq, Eq, Structural)]
pub struct PipelineConfig {
    pub route: Route,
    pub target_rate: u32,
    pub bits_per_sample: u16,
    pub sinc_len: usize,
    pub oversampling_factor: usize,
    pub cutoff_permille: u32,
    pub headroom_permille: u32,
    pub encoder_quality_permille: u32,
    pub block_size: usize,
}

/// The profile a route resamples with.
pub open spec fn profile_of(route: Route) -> QualityProfile {
    match route {
        Route::Direct => QualityProfile {
            interpolation: Interpolation::Linear,
            window: Window::Hann,
        },
        Route::TwoPhase => QualityProfile {
            interpolation: Interpolation::Cubic,
            window: Window::BlackmanHarris2,
        },
    }
}

/// Largest magnitude a quantized sample may take: the headroom fraction of
/// full scale, rounded toward zero.
pub open spec fn limit_of(headroom_permille: int) -> int {
    headroom_permille * 32767 / 1000
}

impl PipelineConfig {
    /// A configuration that a run can use.
    pub open spec fn wf(&self) -> bool {
        &&& self.target_rate > 0
        &&& self.bits_per_sample == 16
        &&& self.sinc_len > 0
        &&& self.oversampling_factor > 0
        &&& 0 < self.cutoff_permille <= 1000
        &&& self.headroom_permille <= 1000
        &&& self.encoder_quality_permille <= 1000
        &&& self.block_size > 0
    }

    /// The standard settings: 44100 Hz output, 16-bit intermediate PCM, a
    /// sinc filter of 256 taps oversampled 256 times with its cutoff at 0.95
    /// of Nyquist, 0.95 headroom, 1152 samples per channel and block.
    pub fn standard(route: Route) -> (r: PipelineConfig)
        ensures
            r.wf(),
            r.route == route,
            r.target_rate == 44100,
            r.bits_per_sample == 16,
            r.sinc_len == 256,
            r.oversampling_factor == 256,
            r.cutoff_permille == 950,
            r.headroom_permille == 950,
            r.encoder_quality_permille == 300,
            r.block_size == 1152,
    {
        PipelineConfig {
            route,
            target_rate: 44100,
            bits_per_sample: 16,
            sinc_len: 256,
            oversampling_factor: 256,
            cutoff_permille: 950,
            headroom_permille: 950,
            encoder_quality_permille: 300,
            block_size: 1152,
        }
    }

    /// The resampler profile of this configuration's route.
    pub fn profile(&self) -> (r: QualityProfile)
        ensures
            r == profile_of(self.route),
    {
        match self.route {
            Route::Direct => QualityProfile {
                interpolation: Interpolation::Linear,
                window: Window::Hann,
            },
            Route::TwoPhase => QualityProfile {
                interpolation: Interpolation::Cubic,
                window: Window::BlackmanHarris2,
            },
        }
    }

    /// Largest magnitude of a quantized sample under this configuration.
    pub fn headroom_limit(&self) -> (r: i16)
        requires
            self.wf(),
        ensures
            r as int == limit_of(self.headroom_permille as int),
            0 <= r <= FULL_SCALE,
            1000 * r <= self.headroom_permille * 32767,
    {
        let scaled: u64 = self.headroom_permille as u64 * 32767;
        let l: u64 = scaled / 1000;
        proof {
            assert(l <= 32767) by (nonlinear_arith)
                requires
                    l == scaled / 1000,
                    scaled == self.headroom_permille * 32767,
                    self.headroom_permille <= 1000,
            ;
        }
        l as i16
    }
}

} // verus!
