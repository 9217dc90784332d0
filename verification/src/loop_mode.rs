//! Clip loop modes and the decision taken each time an action clock crosses a
//! clip boundary.

use vstd::prelude::*;

verus! {

/// How an action wraps at the end of its clip.
#[derive(Clone, Copy, Debug, PartialEq, Eq, Structural)]
pub enum LoopMode {
    /// Play once and stop; the action becomes `Finished` after the last frame.
    Once,
    /// Repeat forever, or up to `max` iterations (`0` means unlimited).
    Repeat { max: u32 },
    /// Alternate forward/backward, up to `max` half-iterations (`0` = unlimited).
    PingPong { max: u32 },
}

impl Default for LoopMode {
    fn default() -> (mode: Self)
        ensures
            mode == LoopMode::Once,
    {
        LoopMode::Once
    }
}

/// Which end of the clip window the clock has crossed.
#[derive(Clone, Copy, Debug, PartialEq, Eq, Structural)]
pub enum LoopBoundary {
    /// The clock moved past the clip duration.
    PastEnd,
    /// The clock moved below zero (backward ping-pong phase).
    BeforeStart,
}

/// How the clock time is rewritten after crossing a boundary, for a window of
/// length `d` and an out-of-window time `t`.
#[derive(Clone, Copy, Debug, PartialEq, Eq, Structural)]
pub enum LoopTimeUpdate {
    /// `t - d`: wrap around to the start.
    WrapToStart,
    /// `d - (t - d)`: bounce back from the end.
    ReflectAtEnd,
    /// `-t`: bounce back from the start.
    ReflectAtStart,
    /// `d`: hold at the end.
    HoldEnd,
    /// `0`: hold at the start.
    HoldStart,
    /// `-t`, then clamped into `[0, d]`.
    ReflectThenClamp,
}

/// The decision taken when the clock crosses a clip boundary.
#[derive(Clone, Copy, Debug, PartialEq, Eq, Structural)]
pub struct LoopStep {
    /// Iteration counter after the crossing.
    pub iteration: u32,
    /// Whether the play direction flips.
    pub flipped: bool,
    /// Whether the crossing counts as a loop wrap.
    pub wrapped: bool,
    /// Whether the action has finished.
    pub finished: bool,
    /// Whether boundary resolution stops after this crossing.
    pub stops: bool,
    /// How the clock time is rewritten.
    pub time: LoopTimeUpdate,
}

impl LoopMode {
    /// Default `Repeat` (unlimited).
    pub fn repeat() -> (mode: Self)
        ensures
            mode == (LoopMode::Repeat { max: 0 }),
    {
        LoopMode::Repeat { max: 0 }
    }

    /// Default `PingPong` (unlimited).
    pub fn ping_pong() -> (mode: Self)
        ensures
            mode == (LoopMode::PingPong { max: 0 }),
    {
        LoopMode::PingPong { max: 0 }
    }

    /// Whether crossing `boundary` in this mode advances the iteration counter.
    pub open spec fn counts(self, boundary: LoopBoundary) -> bool {
        match self {
            LoopMode::Once => false,
            LoopMode::Repeat { .. } => boundary == LoopBoundary::PastEnd,
            LoopMode::PingPong { .. } => true,
        }
    }

    /// Returns whether crossing `boundary` in this mode advances the
    /// iteration counter.
    pub fn counts_crossing(self, boundary: LoopBoundary) -> (b: bool)
        ensures
            b == self.counts(boundary),
    {
        match self {
            LoopMode::Once => false,
            LoopMode::Repeat { .. } => matches!(boundary, LoopBoundary::PastEnd),
            LoopMode::PingPong { .. } => true,
        }
    }

    /// Whether a counted crossing that brings the counter to `next` ends play.
    pub open spec fn limit_reached(self, next: int) -> bool {
        match self {
            LoopMode::Once => true,
            LoopMode::Repeat { max } => max > 0 && next >= max,
            LoopMode::PingPong { max } => max > 0 && next >= max,
        }
    }

    /// The decision for one boundary crossing with the counter at `iteration`.
    pub open spec fn boundary_step(self, boundary: LoopBoundary, iteration: u32) -> LoopStep {
        let next = (iteration + 1) as u32;
        match (self, boundary) {
            (LoopMode::Once, LoopBoundary::PastEnd) => LoopStep {
                iteration,
                flipped: false,
                wrapped: false,
                finished: true,
                stops: true,
                time: LoopTimeUpdate::HoldEnd,
            },
            (LoopMode::Repeat { .. }, LoopBoundary::PastEnd) => {
                let done = self.limit_reached(next as int);
                LoopStep {
                    iteration: next,
                    flipped: false,
                    wrapped: true,
                    finished: done,
                    stops: done,
                    time: if done {
                        LoopTimeUpdate::HoldEnd
                    } else {
                        LoopTimeUpdate::WrapToStart
                    },
                }
            },
            (LoopMode::PingPong { .. }, _) => {
                let done = self.limit_reached(next as int);
                LoopStep {
                    iteration: next,
                    flipped: true,
                    wrapped: true,
                    finished: done,
                    stops: done,
                    time: if done {
                        LoopTimeUpdate::HoldStart
                    } else if boundary == LoopBoundary::PastEnd {
                        LoopTimeUpdate::ReflectAtEnd
                    } else {
                        LoopTimeUpdate::ReflectAtStart
                    },
                }
            },
            (_, LoopBoundary::BeforeStart) => LoopStep {
                iteration,
                flipped: true,
                wrapped: true,
                finished: false,
                stops: true,
                time: LoopTimeUpdate::ReflectThenClamp,
            },
        }
    }

    /// Decides what happens when an action clock crosses `boundary` with the
    /// iteration counter at `iteration`.
    pub fn on_boundary(self, boundary: LoopBoundary, iteration: u32) -> (step: LoopStep)
        requires
            self.counts(boundary) ==> iteration < u32::MAX,
        ensures
            step == self.boundary_step(boundary, iteration),
    {
        match self {
            LoopMode::Once => match boundary {
                LoopBoundary::PastEnd => LoopStep {
                    iteration,
                    flipped: false,
                    wrapped: false,
                    finished: true,
                    stops: true,
                    time: LoopTimeUpdate::HoldEnd,
                },
                LoopBoundary::BeforeStart => LoopStep {
                    iteration,
                    flipped: true,
                    wrapped: true,
                    finished: false,
                    stops: true,
                    time: LoopTimeUpdate::ReflectThenClamp,
                },
            },
            LoopMode::Repeat { max } => match boundary {
                LoopBoundary::PastEnd => {
                    let next = iteration + 1;
                    let done = max > 0 && next >= max;
                    LoopStep {
                        iteration: next,
                        flipped: false,
                        wrapped: true,
                        finished: done,
                        stops: done,
                        time: if done {
                            LoopTimeUpdate::HoldEnd
                        } else {
                            LoopTimeUpdate::WrapToStart
                        },
                    }
                },
                LoopBoundary::BeforeStart => LoopStep {
                    iteration,
                    flipped: true,
                    wrapped: true,
                    finished: false,
                    stops: true,
                    time: LoopTimeUpdate::ReflectThenClamp,
                },
            },
            LoopMode::PingPong { max } => {
                let next = iteration + 1;
                let done = max > 0 && next >= max;
                let time = if done {
                    LoopTimeUpdate::HoldStart
                } else {
                    match boundary {
                        LoopBoundary::PastEnd => LoopTimeUpdate::ReflectAtEnd,
                        LoopBoundary::BeforeStart => LoopTimeUpdate::ReflectAtStart,
                    }
                };
                LoopStep {
                    iteration: next,
                    flipped: true,
                    wrapped: true,
                    finished: done,
                    stops: done,
                    time,
                }
            },
        }
    }
}

/// Loop limits as the loop-mode documentation states them: a `max` of `0`
/// never finishes at a crossing; a non-zero `max` finishes exactly at the
/// crossing that brings the counter to `max`; `Once` finishes at its end
/// without counting; every finishing crossing also stops boundary resolution;
/// and only ping-pong flips direction at the end.
pub proof fn lemma_loop_limits(mode: LoopMode, boundary: LoopBoundary, iteration: u32)
    requires
        mode.counts(boundary) ==> iteration < u32::MAX,
    ensures
        (mode == LoopMode::Repeat { max: 0 } || mode == LoopMode::PingPong { max: 0 })
            ==> !mode.boundary_step(boundary, iteration).finished,
        mode.counts(boundary) ==> mode.boundary_step(boundary, iteration).iteration == iteration
            + 1,
        !mode.counts(boundary) ==> mode.boundary_step(boundary, iteration).iteration == iteration,
        mode is Repeat && boundary == LoopBoundary::PastEnd ==> (mode.boundary_step(
            boundary,
            iteration,
        ).finished <==> (mode->Repeat_max > 0 && iteration + 1 >= mode->Repeat_max)),
        mode is PingPong ==> (mode.boundary_step(boundary, iteration).finished <==> (
        mode->PingPong_max > 0 && iteration + 1 >= mode->PingPong_max)),
        mode == LoopMode::Once && boundary == LoopBoundary::PastEnd ==> mode.boundary_step(boundary, iteration).finished,
        mode.boundary_step(boundary, iteration).finished ==> mode.boundary_step(boundary, iteration).stops,
        boundary == LoopBoundary::PastEnd && mode.boundary_step(boundary, iteration).flipped ==> mode is PingPong,
{
}


/// The clock value a time update produces from an out-of-window time `t` in a
/// window of length `d`, as each update's documentation gives it.
pub open spec fn updated_time(update: LoopTimeUpdate, t: int, d: int) -> int {
    match update {
        LoopTimeUpdate::WrapToStart => t - d,
        LoopTimeUpdate::ReflectAtEnd => d - (t - d),
        LoopTimeUpdate::ReflectAtStart => -t,
        LoopTimeUpdate::HoldEnd => d,
        LoopTimeUpdate::HoldStart => 0,
        LoopTimeUpdate::ReflectThenClamp => if -t < 0 {
            0
        } else if -t > d {
            d
        } else {
            -t
        },
    }
}

/// Where a crossing leaves the clock. A ping-pong crossing that finishes the
/// action holds the clock at the clip start, whichever boundary it crossed;
/// a once or repeat crossing that finishes holds it at the clip end; an
/// unfinished repeat wraps past the end back into the window; an unfinished
/// ping-pong reflects back into the window from the boundary it crossed; and
/// a clock running backwards out of a non-ping-pong clip is reflected and
/// clamped into the window without finishing. In every case a time that
/// overshot the window by at most its length lands inside it.
pub proof fn lemma_loop_landing(mode: LoopMode, boundary: LoopBoundary, iteration: u32, t: int, d: int)
    requires
        mode.counts(boundary) ==> iteration < u32::MAX,
        d > 0,
        boundary == LoopBoundary::PastEnd ==> d < t <= 2 * d,
        boundary == LoopBoundary::BeforeStart ==> -d <= t < 0,
    ensures
        ({
            let step = mode.boundary_step(boundary, iteration);
            let landed = updated_time(step.time, t, d);
            &&& mode is PingPong && step.finished ==> landed == 0
            &&& !(mode is PingPong) && step.finished ==> landed == d
            &&& 0 <= landed <= d
            &&& mode is Repeat && boundary == LoopBoundary::PastEnd && !step.finished ==> landed
                == t - d
            &&& mode is PingPong && !step.finished ==> landed == if boundary
                == LoopBoundary::PastEnd {
                2 * d - t
            } else {
                -t
            }
            &&& !(mode is PingPong) && boundary == LoopBoundary::BeforeStart ==> !step.finished
                && landed == -t
        }),
{
}

} // verus!
