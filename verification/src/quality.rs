use vstd::prelude::*;

verus! {

/// Quality tiers for graceful degradation and restoration, best first.
#[derive(Debug, Clone, Copy, PartialEq, Eq, PartialOrd, Ord, Structural)]
pub enum RecordingQuality {
    /// Normal capture interval, HD recording, full frame rate.
    Full,
    /// Longer capture intervals, no HD, lower JPEG quality.
    Reduced,
    /// Only text and accessibility events: no screen captures, no audio
    /// transcription.
    Minimal,
    /// Non-essential recording is suspended.
    Paused,
}

impl RecordingQuality {
    /// The tier's place in the order, from 0 for full quality to 3 for paused.
    pub open spec fn spec_code(self) -> u32 {
        match self {
            RecordingQuality::Full => 0,
            RecordingQuality::Reduced => 1,
            RecordingQuality::Minimal => 2,
            RecordingQuality::Paused => 3,
        }
    }

    /// The tier's place in the order, from 0 for full quality to 3 for paused.
    #[verifier::when_used_as_spec(spec_code)]
    pub fn code(self) -> (code: u32)
        ensures
            code == self.spec_code(),
    {
        match self {
            RecordingQuality::Full => 0,
            RecordingQuality::Reduced => 1,
            RecordingQuality::Minimal => 2,
            RecordingQuality::Paused => 3,
        }
    }

    /// The tier's name in log lines.
    pub open spec fn name(self) -> Seq<char> {
        match self {
            RecordingQuality::Full => "full"@,
            RecordingQuality::Reduced => "reduced"@,
            RecordingQuality::Minimal => "minimal"@,
            RecordingQuality::Paused => "paused"@,
        }
    }

    /// The tier's name in log lines.
    pub fn label(&self) -> (label: &'static str)
        ensures
            label@ == self.name(),
    {
        match self {
            RecordingQuality::Full => "full",
            RecordingQuality::Reduced => "reduced",
            RecordingQuality::Minimal => "minimal",
            RecordingQuality::Paused => "paused",
        }
    }

    /// One tier better, where there is one.
    pub open spec fn spec_restored(self) -> RecordingQuality {
        match self {
            RecordingQuality::Paused => RecordingQuality::Minimal,
            RecordingQuality::Minimal => RecordingQuality::Reduced,
            RecordingQuality::Reduced => RecordingQuality::Full,
            RecordingQuality::Full => RecordingQuality::Full,
        }
    }

    /// One tier better, where there is one.
    #[verifier::when_used_as_spec(spec_restored)]
    pub fn restored(self) -> (better: RecordingQuality)
        ensures
            better == self.spec_restored(),
    {
        match self {
            RecordingQuality::Paused => RecordingQuality::Minimal,
            RecordingQuality::Minimal => RecordingQuality::Reduced,
            RecordingQuality::Reduced => RecordingQuality::Full,
            RecordingQuality::Full => RecordingQuality::Full,
        }
    }
}

} // verus!
