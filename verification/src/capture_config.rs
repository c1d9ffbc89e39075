//! Screen-capture encoder configuration: frame rate and quantizer choices.
use vstd::prelude::*;

verus! {

/// What the encoder should favour when trading bitrate.
#[derive(Clone, Copy, Debug, PartialEq, Eq, Structural)]
pub enum Priority {
    Balanced,
    Motion,
    Quality,
}

/// Capture resolution relative to the display's nominal size.
#[derive(Clone, Copy, Debug, PartialEq, Eq, Structural)]
pub enum Resolution {
    Best,
    Nominal,
    Low,
}

/// Capture settings; three detail levels trade quality against motion.
pub struct CapturerConfig {
    fps: Option<i32>,
    priority: Priority,
    resolution: Resolution,
}

/// Frame rate picked for a resolution and priority when none is forced.
pub open spec fn spec_default_fps(resolution: Resolution, priority: Priority) -> i32 {
    match (resolution, priority) {
        (Resolution::Best, Priority::Motion) => 60,
        (Resolution::Nominal, Priority::Motion) => 30,
        (Resolution::Low, Priority::Motion) => 24,
        (Resolution::Best, Priority::Quality) => 30,
        (Resolution::Nominal, Priority::Quality) => 20,
        (Resolution::Low, Priority::Quality) => 15,
        (Resolution::Best, Priority::Balanced) => 60,
        (Resolution::Nominal, Priority::Balanced) => 24,
        (Resolution::Low, Priority::Balanced) => 20,
    }
}

/// Highest H.264 quantizer (1..=51, lower is better quality) for a configuration.
pub open spec fn spec_max_qp(resolution: Resolution, priority: Priority) -> i32 {
    match (resolution, priority) {
        (Resolution::Best, Priority::Motion) => 40,
        (Resolution::Nominal, Priority::Motion) => 40,
        (Resolution::Low, Priority::Motion) => 51,
        (Resolution::Best, Priority::Quality) => 20,
        (Resolution::Nominal, Priority::Quality) => 45,
        (Resolution::Low, Priority::Quality) => 51,
        (Resolution::Best, Priority::Balanced) => 30,
        (Resolution::Nominal, Priority::Balanced) => 40,
        (Resolution::Low, Priority::Balanced) => 40,
    }
}

impl CapturerConfig {
    pub closed spec fn spec_fps(&self) -> Option<i32> {
        self.fps
    }

    pub closed spec fn spec_priority(&self) -> Priority {
        self.priority
    }

    pub closed spec fn spec_resolution(&self) -> Resolution {
        self.resolution
    }

    /// The frame rate the capturer runs at: the forced one, else the table's.
    pub open spec fn spec_effective_fps(&self) -> i32 {
        match self.spec_fps() {
            Some(fps) => fps,
            None => spec_default_fps(self.spec_resolution(), self.spec_priority()),
        }
    }

    /// Balanced priority, nominal resolution, no forced frame rate.
    pub fn default() -> (c: Self)
        ensures
            c.spec_fps() == None::<i32>,
            c.spec_priority() == Priority::Balanced,
            c.spec_resolution() == Resolution::Nominal,
    {
        CapturerConfig { fps: None, priority: Priority::Balanced, resolution: Resolution::Nominal }
    }

    pub fn resolution(&self) -> (r: &Resolution)
        ensures
            *r == self.spec_resolution(),
    {
        &self.resolution
    }

    pub fn set_resolution(&mut self, resolution: Resolution)
        ensures
            final(self).spec_resolution() == resolution,
            final(self).spec_priority() == old(self).spec_priority(),
            final(self).spec_fps() == old(self).spec_fps(),
    {
        self.resolution = resolution;
    }

    pub fn priority(&self) -> (p: &Priority)
        ensures
            *p == self.spec_priority(),
    {
        &self.priority
    }

    pub fn set_priority(&mut self, priority: Priority)
        ensures
            final(self).spec_priority() == priority,
            final(self).spec_resolution() == old(self).spec_resolution(),
            final(self).spec_fps() == old(self).spec_fps(),
    {
        self.priority = priority;
    }

    pub fn effective_fps(&self) -> (fps: i32)
        ensures
            fps == self.spec_effective_fps(),
    {
        if let Some(fps) = self.fps {
            return fps;
        }
        match (self.resolution, self.priority) {
            (Resolution::Best, Priority::Motion) => 60,
            (Resolution::Nominal, Priority::Motion) => 30,
            (Resolution::Low, Priority::Motion) => 24,
            (Resolution::Best, Priority::Quality) => 30,
            (Resolution::Nominal, Priority::Quality) => 20,
            (Resolution::Low, Priority::Quality) => 15,
            (Resolution::Best, Priority::Balanced) => 60,
            (Resolution::Nominal, Priority::Balanced) => 24,
            (Resolution::Low, Priority::Balanced) => 20,
        }
    }

    /// Quantizer ceiling: QP runs 1..=51, lower means better quality at a higher bitrate.
    pub fn suggested_max_qp(&self) -> (qp: i32)
        ensures
            qp == spec_max_qp(self.spec_resolution(), self.spec_priority()),
            1 <= qp <= 51,
    {
        match (self.resolution, self.priority) {
            (Resolution::Best, Priority::Motion) => 40,
            (Resolution::Nominal, Priority::Motion) => 40,
            (Resolution::Low, Priority::Motion) => 51,
            (Resolution::Best, Priority::Quality) => 20,
            (Resolution::Nominal, Priority::Quality) => 45,
            (Resolution::Low, Priority::Quality) => 51,
            (Resolution::Best, Priority::Balanced) => 30,
            (Resolution::Nominal, Priority::Balanced) => 40,
            (Resolution::Low, Priority::Balanced) => 40,
        }
    }

    /// Whether the capture runs at a high frame rate (above 30), which raises the
    /// initial bitrate by half.
    pub fn is_high_fps(&self) -> (high: bool)
        ensures
            high == (self.spec_effective_fps() > 30),
    {
        self.effective_fps() > 30
    }

    pub fn fps(&self) -> (fps: Option<i32>)
        ensures
            fps == self.spec_fps(),
    {
        self.fps
    }

    pub fn set_fps(&mut self, fps: Option<i32>)
        ensures
            final(self).spec_fps() == fps,
            final(self).spec_priority() == old(self).spec_priority(),
            final(self).spec_resolution() == old(self).spec_resolution(),
    {
        self.fps = fps;
    }
}

/// Largest distance between key frames, in frames: two seconds of video.
pub fn max_key_frame_interval(fps: i32) -> (n: i32)
    requires
        i32::MIN <= 2 * fps <= i32::MAX,
    ensures
        n == 2 * fps,
{
    fps * 2
}

/// The encoder's average bitrate for a bandwidth estimate: slightly below the
/// estimate (150 kbps less), the estimate taken as a 32-bit value.
pub fn encoder_target_bitrate(estimate_bps: u64) -> (bps: i32)
    requires
        (estimate_bps as i32) - 150_000 >= i32::MIN,
    ensures
        bps == (estimate_bps as i32) - 150_000,
{
    let b = estimate_bps as i32;
    b - 150_000
}

} // verus!
