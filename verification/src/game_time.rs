//! The timing that the application sees on every update.

use vstd::prelude::*;

verus! {

/// How long the game has been running and how long the last frame took,
/// both in nanoseconds.
#[derive(Clone, Copy, Debug, PartialEq, Eq, Structural)]
pub struct GameTime {
    game_duration: u128,
    frame_duration: u128,
    frame_millis: u128,
}

impl GameTime {
    /// The time since the run began, in nanoseconds.
    pub closed spec fn game_nanos(&self) -> u128 {
        self.game_duration
    }

    /// The time the last frame took, in nanoseconds.
    pub closed spec fn frame_nanos(&self) -> u128 {
        self.frame_duration
    }

    /// The time the last frame took, in whole microseconds.
    pub closed spec fn frame_micros(&self) -> u128 {
        self.frame_millis
    }

    /// The timing of a frame, from two durations in nanoseconds.
    pub closed spec fn of(game_duration: u128, frame_duration: u128) -> GameTime {
        GameTime { game_duration, frame_duration, frame_millis: frame_duration / 1000 }
    }

    /// What a timing made of two durations holds.
    pub proof fn lemma_of(game_duration: u128, frame_duration: u128)
        ensures
            Self::of(game_duration, frame_duration).game_nanos() == game_duration,
            Self::of(game_duration, frame_duration).frame_nanos() == frame_duration,
            Self::of(game_duration, frame_duration).frame_micros() == frame_duration / 1000,
    {
    }

    /// The timing of a frame, from two durations in nanoseconds.
    pub fn new(game_duration: u128, frame_duration: u128) -> (time: Self)
        ensures
            time == Self::of(game_duration, frame_duration),
            time.game_nanos() == game_duration,
            time.frame_nanos() == frame_duration,
            time.frame_micros() == frame_duration / 1000,
    {
        GameTime { game_duration, frame_duration, frame_millis: frame_duration / 1000 }
    }

    /// The time since the run began, in nanoseconds.
    pub fn game_duration(&self) -> (nanos: u128)
        ensures
            nanos == self.game_nanos(),
    {
        self.game_duration
    }

    /// The time the last frame took, in nanoseconds.
    pub fn frame_duration(&self) -> (nanos: u128)
        ensures
            nanos == self.frame_nanos(),
    {
        self.frame_duration
    }

    /// The time the last frame took, in whole microseconds.
    pub fn frame_millis(&self) -> (micros: u128)
        ensures
            micros == self.frame_micros(),
    {
        self.frame_millis
    }
}

} // verus!
