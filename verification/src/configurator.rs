//! The decisions behind the configurator window: what its runtime panel
//! says and offers, and the rolling history its usage graph draws.
use vstd::prelude::*;
use std::collections::VecDeque;
use crate::runtime::WallpaperStatus;
use crate::text::{decimal, push_decimal};

verus! {

/// How many usage samples the graph keeps: about two minutes at one
/// sample per second.
pub const SAMPLE_HISTORY_LEN: usize = 120;

/// The history after recording `v` into `history`, which keeps at most
/// `capacity` samples: when it is full, the oldest sample leaves first
/// (a history of capacity zero still takes the sample).
pub open spec fn recorded<T>(history: Seq<T>, capacity: nat, v: T) -> Seq<T> {
    if history.len() == capacity && capacity > 0 {
        history.drop_first().push(v)
    } else {
        history.push(v)
    }
}

/// Record the sample `v` into a history that keeps at most `capacity`
/// samples: when it already holds `capacity`, the oldest sample is
/// dropped before `v` is appended.
pub fn push_sample<T>(history: &mut VecDeque<T>, capacity: usize, v: T)
    ensures
        final(history)@ == recorded(old(history)@, capacity as nat, v),
{
    if history.len() == capacity {
        let _ = history.pop_front();
    }
    history.push_back(v);
    proof {
        if old(history)@.len() == capacity && capacity > 0 {
            assert(old(history)@.subrange(1, old(history)@.len() as int)
                =~= old(history)@.drop_first());
        }
    }
}

/// A history filled only through `push_sample` never outgrows a positive
/// capacity, and always ends with the latest sample.
pub proof fn lemma_history_stays_bounded<T>(history: Seq<T>, capacity: nat, v: T)
    requires
        capacity > 0,
        history.len() <= capacity,
    ensures
        recorded(history, capacity, v).len() <= capacity,
        recorded(history, capacity, v).last() == v,
        history.len() < capacity ==> recorded(history, capacity, v).len() == history.len() + 1,
{
}

/// The wallpaper's state as the runtime panel words it.
pub open spec fn runtime_state_text_of(status: WallpaperStatus) -> Seq<char> {
    if status.running {
        match status.pid {
            Some(p) => "Running (pid "@ + decimal(p as nat) + ")"@,
            None => "Running"@,
        }
    } else {
        "Stopped"@
    }
}

/// The wallpaper's state as the runtime panel words it: running with or
/// without a known process id, or stopped.
pub fn runtime_state_text(status: &WallpaperStatus) -> (s: String)
    ensures
        s@ == runtime_state_text_of(*status),
{
    if status.running {
        match status.pid {
            Some(p) => {
                let mut s = String::from_str("Running (pid ");
                push_decimal(&mut s, p as u64);
                s.append(")");
                s
            },
            None => String::from_str("Running"),
        }
    } else {
        String::from_str("Stopped")
    }
}

/// Which runtime buttons the panel enables.
#[derive(Debug, Clone, Copy, PartialEq, Eq, Structural)]
pub struct RuntimeControls {
    /// "Start wallpaper": only while no instance runs.
    pub can_start: bool,
    /// "Stop wallpaper": only for a running instance whose process id is
    /// known, since stopping signals that process.
    pub can_stop: bool,
}

/// Which runtime buttons the panel enables for `status`.
pub fn runtime_controls(status: &WallpaperStatus) -> (c: RuntimeControls)
    ensures
        c.can_start == !status.running,
        c.can_stop == (status.running && status.pid is Some),
{
    RuntimeControls {
        can_start: !status.running,
        can_stop: status.running && status.pid.is_some(),
    }
}

/// The panel's note after the "Start on login" setting was changed.
pub fn startup_message(enabled: bool) -> (s: String)
    ensures
        s@ == (if enabled {
            "Enabled start on login"@
        } else {
            "Disabled start on login"@
        }),
{
    if enabled {
        String::from_str("Enabled start on login")
    } else {
        String::from_str("Disabled start on login")
    }
}

/// The panel's note after the instance with process id `pid` was stopped.
pub fn stopped_message(pid: u32) -> (s: String)
    ensures
        s@ == "Stopped wallpaper (pid "@ + decimal(pid as nat) + ")"@,
{
    let mut s = String::from_str("Stopped wallpaper (pid ");
    push_decimal(&mut s, pid as u64);
    s.append(")");
    s
}

} // verus!
