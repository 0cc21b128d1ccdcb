//! Persistent editor settings and the preview settings panel state.
//!
//! Reading and writing the settings file is done by the application; this
//! module holds the settings, their defaults and what is computed from them.

use vstd::prelude::*;

verus! {

/// Persistent application settings.
#[derive(Clone, Debug)]
pub struct AppConfig {
    /// Window size in pixels `[width, height]`.
    pub window_size: [u32; 2],
    /// Path to the last opened project file.
    pub last_project: Option<String>,
    /// Preview resolution divisor (2 = half resolution).
    pub preview_divisor: u32,
    /// Preview frames per second.
    pub preview_fps: u32,
}

/// The default window size, 1280 × 720.
pub fn default_window_size() -> (r: [u32; 2])
    ensures
        r == [1280u32, 720u32],
{
    [1280, 720]
}

/// The default preview divisor, 2 (half resolution).
pub fn default_preview_divisor() -> (r: u32)
    ensures
        r == 2,
{
    2
}

/// The default preview rate, 30 frames per second.
pub fn default_preview_fps() -> (r: u32)
    ensures
        r == 30,
{
    30
}

impl Default for AppConfig {
    fn default() -> (r: AppConfig)
        ensures
            r.window_size == [1280u32, 720u32],
            r.last_project.is_none(),
            r.preview_divisor == 2,
            r.preview_fps == 30,
    {
        AppConfig {
            window_size: default_window_size(),
            last_project: None,
            preview_divisor: default_preview_divisor(),
            preview_fps: default_preview_fps(),
        }
    }
}

/// `n / d`, but at least 1.
pub open spec fn divided_at_least_one(n: u32, d: u32) -> u32
    recommends
        d != 0,
{
    if n / d >= 1 {
        (n / d) as u32
    } else {
        1
    }
}

/// A preview dimension is at least 1 and at most the project dimension (1
/// for a zero dimension); a divisor of 1 keeps a non-zero dimension.
pub proof fn law_preview_dimension(n: u32, d: u32)
    requires
        d != 0,
    ensures
        1 <= divided_at_least_one(n, d),
        divided_at_least_one(n, d) <= (if n == 0 {
            1
        } else {
            n
        }),
        d == 1 && n >= 1 ==> divided_at_least_one(n, d) == n,
{
    assert(n / d <= n) by (nonlinear_arith)
        requires
            d >= 1,
    ;
}

impl AppConfig {
    /// The preview resolution for a project resolution: each dimension
    /// divided by `preview_divisor`, with a minimum of 1.
    pub fn preview_resolution(&self, project_resolution: [u32; 2]) -> (r: (u32, u32))
        requires
            self.preview_divisor != 0,
        ensures
            r.0 == divided_at_least_one(project_resolution[0], self.preview_divisor),
            r.1 == divided_at_least_one(project_resolution[1], self.preview_divisor),
    {
        let w0: u32 = project_resolution[0] / self.preview_divisor;
        let h0: u32 = project_resolution[1] / self.preview_divisor;
        let w: u32 = if w0 >= 1 { w0 } else { 1 };
        let h: u32 = if h0 >= 1 { h0 } else { 1 };
        (w, h)
    }

    /// Takes the preview settings of a change applied in the settings panel.
    pub fn apply_change(&mut self, change: AppConfigChange)
        ensures
            final(self).preview_divisor == change.preview_divisor,
            final(self).preview_fps == change.preview_fps,
            final(self).window_size == old(self).window_size,
            final(self).last_project == old(self).last_project,
    {
        self.preview_divisor = change.preview_divisor;
        self.preview_fps = change.preview_fps;
    }
}

/// Failed to load or save the application settings.
#[derive(Debug, Clone, Copy, PartialEq, Eq, Structural)]
pub struct AppConfigError;

/// A change to the settings, made in the settings panel.
#[derive(Debug, Clone, Copy, PartialEq, Eq, Structural)]
pub struct AppConfigChange {
    /// New preview divisor.
    pub preview_divisor: u32,
    /// New preview rate.
    pub preview_fps: u32,
}

/// The staged values of the settings panel, before "Apply" is clicked.
#[derive(Debug)]
pub struct SettingsPanel {
    preview_divisor: u32,
    preview_fps: u32,
}

/// The smallest and largest preview divisor the panel offers.
pub const MIN_DIVISOR: u32 = 1;
pub const MAX_DIVISOR: u32 = 8;

/// The smallest and largest preview rate the panel offers.
pub const MIN_PREVIEW_FPS: u32 = 1;
pub const MAX_PREVIEW_FPS: u32 = 120;

/// `v` limited to `[lo, hi]`.
pub open spec fn limited(v: u32, lo: u32, hi: u32) -> u32 {
    if v < lo {
        lo
    } else if v > hi {
        hi
    } else {
        v
    }
}

/// A staged setting always lies in the offered range, and a value already
/// in it is staged as it is.
pub proof fn law_staged_in_range(v: u32, lo: u32, hi: u32)
    requires
        lo <= hi,
    ensures
        lo <= limited(v, lo, hi) <= hi,
        lo <= v <= hi ==> limited(v, lo, hi) == v,
{
}

impl SettingsPanel {
    /// The staged preview divisor.
    pub closed spec fn divisor(&self) -> u32 {
        self.preview_divisor
    }

    /// The staged preview rate.
    pub closed spec fn fps(&self) -> u32 {
        self.preview_fps
    }

    /// A panel staging the current settings.
    pub fn new(config: &AppConfig) -> (r: SettingsPanel)
        ensures
            r.divisor() == config.preview_divisor,
            r.fps() == config.preview_fps,
    {
        SettingsPanel { preview_divisor: config.preview_divisor, preview_fps: config.preview_fps }
    }

    /// The staged preview divisor.
    pub fn preview_divisor(&self) -> (r: u32)
        ensures
            r == self.divisor(),
    {
        self.preview_divisor
    }

    /// The staged preview rate.
    pub fn preview_fps(&self) -> (r: u32)
        ensures
            r == self.fps(),
    {
        self.preview_fps
    }

    /// Stages a preview divisor, limited to the offered range 1..=8.
    pub fn set_preview_divisor(&mut self, divisor: u32)
        ensures
            final(self).divisor() == limited(divisor, MIN_DIVISOR, MAX_DIVISOR),
            final(self).fps() == old(self).fps(),
    {
        self.preview_divisor = if divisor < MIN_DIVISOR {
            MIN_DIVISOR
        } else if divisor > MAX_DIVISOR {
            MAX_DIVISOR
        } else {
            divisor
        };
    }

    /// Stages a preview rate, limited to the offered range 1..=120.
    pub fn set_preview_fps(&mut self, fps: u32)
        ensures
            final(self).fps() == limited(fps, MIN_PREVIEW_FPS, MAX_PREVIEW_FPS),
            final(self).divisor() == old(self).divisor(),
    {
        self.preview_fps = if fps < MIN_PREVIEW_FPS {
            MIN_PREVIEW_FPS
        } else if fps > MAX_PREVIEW_FPS {
            MAX_PREVIEW_FPS
        } else {
            fps
        };
    }

    /// What clicking "Apply" gives: the staged values as a change when they
    /// differ from the current settings, and no change when they are the
    /// same.
    pub fn change_from(&self, config: &AppConfig) -> (r: Option<AppConfigChange>)
        ensures
            (self.divisor() == config.preview_divisor && self.fps() == config.preview_fps) ==> r is None,
            !(self.divisor() == config.preview_divisor && self.fps() == config.preview_fps) ==> r == Some(
                AppConfigChange { preview_divisor: self.divisor(), preview_fps: self.fps() },
            ),
    {
        if self.preview_divisor == config.preview_divisor && self.preview_fps == config.preview_fps {
            None
        } else {
            Some(self.apply())
        }
    }

    /// The change that "Apply" submits: the staged values.
    pub fn apply(&self) -> (r: AppConfigChange)
        ensures
            r.preview_divisor == self.divisor(),
            r.preview_fps == self.fps(),
    {
        AppConfigChange { preview_divisor: self.preview_divisor, preview_fps: self.preview_fps }
    }
}

} // verus!
