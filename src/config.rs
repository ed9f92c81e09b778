use vstd::prelude::*;

verus! {

/// Audio source used when none is named.
pub const DEFAULT_AUDIO_SOURCE: &'static str = "default";

/// Quality parameter (CRF) of a balanced recording.
pub const DEFAULT_QUALITY: u32 = 23;

/// Quality parameter (CRF) of a high-quality recording; lower is better.
pub const HIGH_QUALITY: u32 = 18;

/// What a recording session is asked to produce.
pub struct RecorderConfig {
    pub output: String,
    pub fps: u32,
    pub audio_source: String,
    pub video_quality: u32,
}

impl RecorderConfig {
    /// A configuration is usable when its frame rate is positive.
    pub open spec fn wf(&self) -> bool {
        self.fps > 0
    }

    /// A configuration at the default quality; the audio source falls back
    /// to `DEFAULT_AUDIO_SOURCE` when none is given.
    pub fn new(output: String, fps: u32, audio_source: Option<String>) -> (r: Self)
        requires
            fps > 0,
        ensures
            r.wf(),
            r.output@ == output@,
            r.fps == fps,
            r.audio_source@ == match audio_source {
                Some(s) => s@,
                None => DEFAULT_AUDIO_SOURCE@,
            },
            r.video_quality == DEFAULT_QUALITY,
    {
        let audio_source = match audio_source {
            Some(s) => s,
            None => DEFAULT_AUDIO_SOURCE.to_string(),
        };
        RecorderConfig { output, fps, audio_source, video_quality: DEFAULT_QUALITY }
    }

    /// The same configuration with another quality parameter.
    pub fn with_quality(self, quality: u32) -> (r: Self)
        ensures
            r.output == self.output,
            r.fps == self.fps,
            r.audio_source == self.audio_source,
            r.video_quality == quality,
    {
        let mut r = self;
        r.video_quality = quality;
        r
    }

    /// The configuration of a quick recording: default audio source and
    /// balanced quality.
    pub fn quick(output: &str, fps: u32) -> (r: Self)
        requires
            fps > 0,
        ensures
            r.wf(),
            r.output@ == output@,
            r.fps == fps,
            r.audio_source@ == DEFAULT_AUDIO_SOURCE@,
            r.video_quality == DEFAULT_QUALITY,
    {
        RecorderConfig::new(output.to_string(), fps, None).with_quality(DEFAULT_QUALITY)
    }

    /// The configuration of a high-quality recording: default audio source
    /// and `HIGH_QUALITY`.
    pub fn high_quality(output: &str, fps: u32) -> (r: Self)
        requires
            fps > 0,
        ensures
            r.wf(),
            r.output@ == output@,
            r.fps == fps,
            r.audio_source@ == DEFAULT_AUDIO_SOURCE@,
            r.video_quality == HIGH_QUALITY,
    {
        RecorderConfig::new(output.to_string(), fps, None).with_quality(HIGH_QUALITY)
    }
}

} // verus!
