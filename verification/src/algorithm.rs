use vstd::prelude::*;

verus! {

/// The waveshaping algorithms of the distortion engine. Exactly one is active
/// at a time.
#[derive(Debug, Clone, Copy, PartialEq, Eq, Structural)]
pub enum DistortionType {
    /// Smooth saturation.
    Soft,
    /// A ceiling and a floor that the drive moves.
    Hard,
    /// Sample-and-hold followed by quantisation.
    BitCrusher,
    /// Folds the signal back instead of clipping it.
    Wavefolder,
    /// Soft knee, tighter for negative samples than for positive ones.
    Overdrive,
}

} // verus!
