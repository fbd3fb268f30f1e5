//! The timeout multiplexer: one outstanding millisecond timeout served by
//! one periodic hardware tick.
//!
//! The context moves through `Idle`, `Arming` (armed, no tick seen yet)
//! and `Counting`; reaching the target tick fires once and returns the
//! context to `Idle`. A new arm request replaces the prior one
//! (last-write-wins), and a disarm from any state returns to `Idle`
//! without firing.

use vstd::prelude::*;

use crate::errors::CoreError;
use crate::events::MacEvent;
use crate::events::MacResponse;

verus! {

/// The shared timer state: the tick target, the ticks elapsed so far and
/// whether the tick source is running.
pub struct TimerContext {
    /// The tick count at which the timeout fires.
    pub target: u32,
    /// The ticks elapsed since the timeout was armed.
    pub count: u32,
    /// Whether the tick source is running.
    pub enabled: bool,
}

impl TimerContext {
    /// No timeout is outstanding.
    pub open spec fn is_idle(&self) -> bool {
        !self.enabled && self.count == 0 && self.target == 0
    }

    /// A timeout is armed but no tick has been seen yet.
    pub open spec fn is_arming(&self) -> bool {
        self.enabled && self.count == 0
    }

    /// A timeout is armed and at least one tick has been seen.
    pub open spec fn is_counting(&self) -> bool {
        self.enabled && self.count > 0
    }

    /// While a timeout is outstanding the elapsed count stays strictly
    /// below the target; otherwise the context is fully reset.
    pub open spec fn wf(&self) -> bool {
        if self.enabled {
            self.count < self.target
        } else {
            self.count == 0 && self.target == 0
        }
    }

    /// The state a timeout armed for `n` ticks starts in.
    pub open spec fn armed(n: u32) -> TimerContext {
        TimerContext { target: n, count: 0, enabled: true }
    }

    /// The idle state: nothing outstanding, everything reset.
    pub open spec fn idle() -> TimerContext {
        TimerContext { target: 0, count: 0, enabled: false }
    }

    /// A fresh, idle timer context.
    pub fn new() -> (t: TimerContext)
        ensures
            t == TimerContext::idle(),
            t.wf(),
    {
        TimerContext { target: 0, count: 0, enabled: false }
    }

    /// Arms a timeout for `n` ticks, replacing any outstanding one
    /// (last-write-wins): the target becomes `n`, the elapsed count
    /// restarts at zero and the tick source is started.
    pub fn arm(&mut self, n: u32)
        requires
            n >= 1,
        ensures
            *final(self) == TimerContext::armed(n),
            final(self).wf(),
    {
        self.target = n;
        self.count = 0;
        self.enabled = true;
    }

    /// Disarms any outstanding timeout: the tick source stops and count
    /// and target are reset to zero. Never fires.
    pub fn disarm(&mut self)
        ensures
            *final(self) == TimerContext::idle(),
            final(self).wf(),
    {
        self.target = 0;
        self.count = 0;
        self.enabled = false;
    }

    /// Delivers one periodic tick and reports whether the timeout fired.
    /// A tick while idle is tolerated and changes nothing; otherwise the
    /// elapsed count rises by one, and on reaching the target the context
    /// fires once and resets to idle.
    pub fn tick(&mut self) -> (fired: bool)
        requires
            old(self).wf(),
        ensures
            final(self).wf(),
            *final(self) == tick_step(*old(self)).0,
            fired == tick_step(*old(self)).1,
    {
        if !self.enabled {
            false
        } else if self.count + 1 == self.target {
            self.target = 0;
            self.count = 0;
            self.enabled = false;
            true
        } else {
            self.count = self.count + 1;
            false
        }
    }
}

/// Delivers one periodic tick and hands back the MAC-bound message a
/// firing produces: exactly one `TimerFired` on the tick that reaches
/// the target, nothing on any other tick.
pub fn process_tick(timer: &mut TimerContext) -> (ev: Option<MacEvent>)
    requires
        old(timer).wf(),
    ensures
        final(timer).wf(),
        *final(timer) == tick_step(*old(timer)).0,
        ev == if tick_step(*old(timer)).1 {
            Option::Some(MacEvent::TimerFired)
        } else {
            Option::<MacEvent>::None
        },
{
    let fired = timer.tick();
    if fired {
        Some(MacEvent::TimerFired)
    } else {
        None
    }
}

/// Acts on one outbound MAC-layer message: a timer request arms the
/// multiplexed timeout for the requested number of ticks
/// (last-write-wins), a request for zero ticks is rejected as a
/// configuration error, and a reported MAC error surfaces as
/// `ProtocolError` while leaving the timer untouched.
pub fn handle_mac_response(timer: &mut TimerContext, response: MacResponse) -> (r: Result<
    (),
    CoreError,
>)
    ensures
        match response {
            MacResponse::TimerRequest(n) => if n >= 1 {
                r == Ok::<(), CoreError>(()) && *final(timer) == TimerContext::armed(n)
            } else {
                r == Err::<(), CoreError>(CoreError::ConfigurationError)
                    && *final(timer) == *old(timer)
            },
            MacResponse::Error => r == Err::<(), CoreError>(CoreError::ProtocolError)
                && *final(timer) == *old(timer),
        },
{
    match response {
        MacResponse::TimerRequest(n) => {
            if n >= 1 {
                timer.arm(n);
                Ok(())
            } else {
                Err(CoreError::ConfigurationError)
            }
        },
        MacResponse::Error => Err(CoreError::ProtocolError),
    }
}

/// The timer state after one tick, and whether that tick fired the
/// timeout.
pub open spec fn tick_step(t: TimerContext) -> (TimerContext, bool) {
    if !t.enabled {
        (t, false)
    } else if t.count + 1 == t.target {
        (TimerContext::idle(), true)
    } else {
        (TimerContext { target: t.target, count: (t.count + 1) as u32, enabled: true }, false)
    }
}

/// The timer state after `k` ticks, and how many of those ticks fired
/// the timeout.
pub open spec fn run_ticks(t: TimerContext, k: nat) -> (TimerContext, int)
    decreases k,
{
    if k == 0 {
        (t, 0)
    } else {
        let stepped = tick_step(t);
        let rest = run_ticks(stepped.0, (k - 1) as nat);
        (rest.0, (if stepped.1 {
            1int
        } else {
            0int
        }) + rest.1)
    }
}

/// Running ticks in two stretches is the same as running their sum: the
/// states chain and the firing counts add.
pub proof fn lemma_run_ticks_add(t: TimerContext, j: nat, k: nat)
    ensures
        run_ticks(t, j + k).0 == run_ticks(run_ticks(t, j).0, k).0,
        run_ticks(t, j + k).1 == run_ticks(t, j).1 + run_ticks(run_ticks(t, j).0, k).1,
    decreases j,
{
    if j > 0 {
        let stepped = tick_step(t);
        lemma_run_ticks_add(stepped.0, (j - 1) as nat, k);
        assert((j + k - 1) as nat == (j - 1) as nat + k);
    }
}

/// Ticks delivered while idle change nothing and never fire.
pub proof fn lemma_idle_absorbs_ticks(k: nat)
    ensures
        run_ticks(TimerContext::idle(), k) == (TimerContext::idle(), 0int),
    decreases k,
{
    if k > 0 {
        lemma_idle_absorbs_ticks((k - 1) as nat);
    }
}

/// While a timeout armed for `n` ticks is outstanding with `c` ticks
/// elapsed, delivering fewer than the `n - c` remaining ticks fires
/// nothing, and delivering exactly the remaining ticks fires exactly
/// once and leaves the context idle.
pub proof fn lemma_countdown(t: TimerContext, k: nat)
    requires
        t.wf(),
        t.enabled,
        k <= t.target - t.count,
    ensures
        k < t.target - t.count ==> run_ticks(t, k) == (
            TimerContext {
                target: t.target,
                count: (t.count + k) as u32,
                enabled: true,
            },
            0int,
        ),
        k == t.target - t.count ==> run_ticks(t, k) == (TimerContext::idle(), 1int),
    decreases k,
{
    if k > 0 {
        let stepped = tick_step(t);
        if t.count + 1 == t.target {
            lemma_idle_absorbs_ticks((k - 1) as nat);
        } else {
            lemma_countdown(stepped.0, (k - 1) as nat);
        }
    }
}

/// Law: arming for `n` ticks and delivering exactly `n` ticks yields
/// exactly one firing, not before tick `n` (every shorter run fires
/// nothing) and not after (the context is then idle, and however many
/// ticks follow, the total stays at one firing).
pub proof fn lemma_arm_fires_exactly_at_n(n: u32, k: nat, later: nat)
    requires
        n >= 1,
    ensures
        k < n ==> run_ticks(TimerContext::armed(n), k).1 == 0,
        run_ticks(TimerContext::armed(n), n as nat) == (TimerContext::idle(), 1int),
        run_ticks(TimerContext::armed(n), n as nat + later) == (TimerContext::idle(), 1int),
{
    if k < n {
        lemma_countdown(TimerContext::armed(n), k);
    }
    lemma_countdown(TimerContext::armed(n), n as nat);
    lemma_run_ticks_add(TimerContext::armed(n), n as nat, later);
    lemma_idle_absorbs_ticks(later);
}

/// Law: arming for `n` ticks, delivering fewer than `n` of them and then
/// disarming yields zero firings in all; the disarmed context has count
/// and target reset to zero, and ticks delivered after the disarm still
/// fire nothing.
pub proof fn lemma_disarm_before_target_never_fires(n: u32, k: nat, later: nat)
    requires
        n >= 1,
        k < n,
    ensures
        run_ticks(TimerContext::armed(n), k).1 == 0,
        run_ticks(TimerContext::idle(), later) == (TimerContext::idle(), 0int),
{
    lemma_countdown(TimerContext::armed(n), k);
    lemma_idle_absorbs_ticks(later);
}

/// Law: re-arming while counting replaces the prior target
/// (last-write-wins): the context after the new arm request is exactly a
/// fresh arm for the new target, so delivering the old target's
/// remaining ticks — when they are fewer than the new target — fires
/// nothing, and delivering the new target's ticks fires exactly once.
pub proof fn lemma_rearm_replaces_target(n1: u32, k: nat, n2: u32)
    requires
        n1 >= 1,
        n2 >= 1,
        1 <= k < n1,
    ensures
        run_ticks(TimerContext::armed(n1), k).0.is_counting(),
        n1 - k < n2 ==> run_ticks(TimerContext::armed(n2), (n1 - k) as nat).1 == 0,
        run_ticks(TimerContext::armed(n2), n2 as nat) == (TimerContext::idle(), 1int),
{
    lemma_countdown(TimerContext::armed(n1), k);
    if n1 - k < n2 {
        lemma_countdown(TimerContext::armed(n2), (n1 - k) as nat);
    }
    lemma_countdown(TimerContext::armed(n2), n2 as nat);
}

} // verus!
