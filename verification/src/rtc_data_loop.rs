//! Configuration of real-time-control data loops.
//!
//! The native implementation owns thread creation, scheduling, idle
//! behavior and lifecycle; this module describes the configuration handed to
//! it and reads its results.

use vstd::prelude::*;

verus! {

/// Version of the native configuration record.
pub const RTC_DATA_LOOP_CONFIG_VERSION: u32 = 0;

/// Native idle policy codes.
pub const RTC_DATA_LOOP_IDLE_BUSY_SPIN: u32 = 0;

pub const RTC_DATA_LOOP_IDLE_EVENTFD: u32 = 1;

pub const RTC_DATA_LOOP_IDLE_HYBRID: u32 = 2;

/// Native scheduler codes.
pub const RTC_DATA_LOOP_SCHED_OTHER: u32 = 0;

pub const RTC_DATA_LOOP_SCHED_FIFO: u32 = 1;

/// Behavior used when one RTC duty cycle reports no work.
#[derive(Clone, Copy, Debug, PartialEq, Eq, Structural)]
pub enum RtcIdle {
    /// Poll again immediately. Requires a reserved physical core.
    BusySpin,
    /// Wait for a source registered on the RTC data loop.
    EventFd,
    /// Spin for a fixed number of iterations, then wait for a loop source.
    Hybrid { spin_iterations: u32 },
}

/// Scheduling policy requested from the context's `module-rt` implementation.
#[derive(Clone, Copy, Debug, PartialEq, Eq, Structural)]
pub enum RtcScheduler {
    Other,
    /// `-1` selects the priority configured by `module-rt`.
    Fifo { priority: i32 },
}

/// Configuration for an RTC data loop.
#[derive(Clone, Copy, Debug, PartialEq, Eq, Structural)]
pub struct RtcDataLoopConfig {
    pub idle: RtcIdle,
    pub scheduler: RtcScheduler,
}

/// The native configuration record of an RTC data loop.
#[derive(Clone, Copy, Debug, PartialEq, Eq, Structural)]
pub struct RtcDataLoopNativeConfig {
    pub version: u32,
    pub idle: u32,
    pub scheduler: u32,
    pub priority: i32,
    pub hybrid_spin_iterations: u32,
}

/// The native record of `config`: each choice as its code, with zero for
/// the spin count and priority that the choice does not use.
pub open spec fn spec_native_config(config: RtcDataLoopConfig) -> RtcDataLoopNativeConfig {
    RtcDataLoopNativeConfig {
        version: RTC_DATA_LOOP_CONFIG_VERSION,
        idle: match config.idle {
            RtcIdle::BusySpin => RTC_DATA_LOOP_IDLE_BUSY_SPIN,
            RtcIdle::EventFd => RTC_DATA_LOOP_IDLE_EVENTFD,
            RtcIdle::Hybrid { .. } => RTC_DATA_LOOP_IDLE_HYBRID,
        },
        scheduler: match config.scheduler {
            RtcScheduler::Other => RTC_DATA_LOOP_SCHED_OTHER,
            RtcScheduler::Fifo { .. } => RTC_DATA_LOOP_SCHED_FIFO,
        },
        priority: match config.scheduler {
            RtcScheduler::Other => 0,
            RtcScheduler::Fifo { priority } => priority,
        },
        hybrid_spin_iterations: match config.idle {
            RtcIdle::Hybrid { spin_iterations } => spin_iterations,
            _ => 0,
        },
    }
}

impl RtcDataLoopConfig {
    /// The native record of this configuration.
    pub fn as_raw(self) -> (r: RtcDataLoopNativeConfig)
        ensures
            r == spec_native_config(self),
    {
        let (idle, hybrid_spin_iterations) = match self.idle {
            RtcIdle::BusySpin => (RTC_DATA_LOOP_IDLE_BUSY_SPIN, 0),
            RtcIdle::EventFd => (RTC_DATA_LOOP_IDLE_EVENTFD, 0),
            RtcIdle::Hybrid { spin_iterations } => (RTC_DATA_LOOP_IDLE_HYBRID, spin_iterations),
        };
        let (scheduler, priority) = match self.scheduler {
            RtcScheduler::Other => (RTC_DATA_LOOP_SCHED_OTHER, 0),
            RtcScheduler::Fifo { priority } => (RTC_DATA_LOOP_SCHED_FIFO, priority),
        };
        RtcDataLoopNativeConfig {
            version: RTC_DATA_LOOP_CONFIG_VERSION,
            idle,
            scheduler,
            priority,
            hybrid_spin_iterations,
        }
    }
}

/// A native result: `Ok` for zero or more, else the errno it negates.
pub fn result(value: i32) -> (r: Result<(), i32>)
    requires
        value > i32::MIN,
    ensures
        value >= 0 ==> r == Ok::<(), i32>(()),
        value < 0 ==> r == Err::<(), i32>(-value as i32),
{
    if value < 0 {
        Err(-value)
    } else {
        Ok(())
    }
}

} // verus!
