use vstd::prelude::*;

verus! {

/// A quality tier as the bare number that is shared between threads: 0 for
/// full, 1 for reduced, 2 for minimal, 3 for paused. Any other number asks for
/// the same captures as full quality.
#[derive(Debug, Clone, Copy, PartialEq, Eq, Structural)]
pub struct QualityCode {
    /// The number.
    pub raw: u32,
}

impl QualityCode {
    /// By how much to stretch the capture interval; `None` where captures are
    /// to be skipped.
    pub open spec fn interval(self) -> Option<u64> {
        if self.raw == 1 {
            Some(2)
        } else if self.raw == 2 {
            Some(5)
        } else if self.raw == 3 {
            None
        } else {
            Some(1)
        }
    }

    /// The JPEG quality factor, in hundredths.
    pub open spec fn jpeg(self) -> u32 {
        if self.raw == 1 {
            70
        } else if self.raw == 2 {
            40
        } else if self.raw == 3 {
            0
        } else {
            100
        }
    }

    /// Whether quality has been degraded.
    pub fn is_degraded(self) -> (degraded: bool)
        ensures
            degraded == (self.raw > 0),
    {
        self.raw > 0
    }

    /// Whether quality is minimal or recording is paused.
    pub fn is_critical(self) -> (critical: bool)
        ensures
            critical == (self.raw >= 2),
    {
        self.raw >= 2
    }

    /// By how much to stretch the capture interval; `None` where captures are
    /// to be skipped.
    pub fn capture_interval_multiplier(self) -> (multiplier: Option<u64>)
        ensures
            multiplier == self.interval(),
    {
        match self.raw {
            0 => Some(1),
            1 => Some(2),
            2 => Some(5),
            3 => None,
            _ => Some(1),
        }
    }

    /// Whether to skip HD recording.
    pub fn skip_hd_recording(self) -> (skip: bool)
        ensures
            skip == (self.raw >= 1),
    {
        self.raw >= 1
    }

    /// The JPEG quality factor, in hundredths.
    pub fn jpeg_quality_factor(self) -> (hundredths: u32)
        ensures
            hundredths == self.jpeg(),
    {
        match self.raw {
            0 => 100,
            1 => 70,
            2 => 40,
            3 => 0,
            _ => 100,
        }
    }

    /// Whether to skip audio transcription.
    pub fn skip_transcription(self) -> (skip: bool)
        ensures
            skip == (self.raw >= 2),
    {
        self.raw >= 2
    }
}

} // verus!
