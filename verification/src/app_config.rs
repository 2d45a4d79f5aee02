use vstd::prelude::*;

verus! {

/// Configuration for running an app in a host container.
pub struct AppConfig {
    /// The number of frames to run, or `None` to run until told not to.
    pub num_frames: Option<usize>,
    /// The number of frames drawn so far.
    pub passed_frames: u32,
    /// Whether the app is reset when the host starts to run it.
    pub reset_on_start: bool,
}

impl AppConfig {
    /// Standard config: no frame limit, no frame passed, reset on start.
    pub fn new() -> (res: Self)
        ensures
            res == (AppConfig { num_frames: None, passed_frames: 0, reset_on_start: true }),
    {
        Self { num_frames: None, passed_frames: 0, reset_on_start: true }
    }

    /// Sets or resets the number of frames to be run; `None` leaves the end to the app.
    pub fn frames(self, x: Option<usize>) -> (res: Self)
        ensures
            res == (AppConfig { num_frames: x, ..self }),
    {
        let mut config = self;
        config.num_frames = x;
        config
    }

    /// Sets whether the app is reset when the host starts to run it.
    pub fn reset_when_run(self, doit: bool) -> (res: Self)
        ensures
            res == (AppConfig { reset_on_start: doit, ..self }),
    {
        let mut config = self;
        config.reset_on_start = doit;
        config
    }
}

} // verus!
