//! The elementary temporal logic nodes of the flight warning computer:
//! stateful one-bit operators whose edge and timing semantics are given by
//! spec-level transition functions. All durations are whole milliseconds.

use vstd::prelude::*;

verus! {

/// Simulation-tick context handed to every node update: how much simulated
/// time has passed since the previous tick, in milliseconds.
pub struct UpdateContext {
    pub delta_ms: u64,
}

impl UpdateContext {
    pub fn new(delta_ms: u64) -> (context: UpdateContext)
        ensures
            context.delta_ms == delta_ms,
    {
        UpdateContext { delta_ms }
    }

    /// Time since the previous tick, in milliseconds.
    pub fn delta(&self) -> (delta: u64)
        ensures
            delta == self.delta_ms,
    {
        self.delta_ms
    }
}

/// Accumulated milliseconds after one more tick, capped so that the sum
/// always fits in a `u64`.
pub open spec fn add_capped(accumulated: u64, delta: u64) -> u64 {
    if delta > u64::MAX - accumulated {
        u64::MAX
    } else {
        (accumulated + delta) as u64
    }
}

/// Remaining milliseconds once a tick has elapsed, floored at zero.
pub open spec fn sub_floored(remaining: u64, delta: u64) -> u64 {
    if remaining >= delta {
        (remaining - delta) as u64
    } else {
        0
    }
}

/// A confirmation circuit: it reports its sensing polarity only once the
/// input has held that polarity without interruption for `time_delay`
/// milliseconds. Any glitch resets the accumulated time to zero.
pub struct ConfirmationNode {
    pub leading_edge: bool,
    pub time_delay: u64,
    pub condition_since: u64,
    pub output: bool,
}

/// The state of a confirmation node after one tick of `delta` milliseconds
/// with input `hi`.
pub open spec fn confirmation_next(s: ConfirmationNode, delta: u64, hi: bool) -> ConfirmationNode {
    if hi == s.leading_edge {
        let since = add_capped(s.condition_since, delta);
        ConfirmationNode {
            leading_edge: s.leading_edge,
            time_delay: s.time_delay,
            condition_since: since,
            output: since >= s.time_delay,
        }
    } else {
        ConfirmationNode {
            leading_edge: s.leading_edge,
            time_delay: s.time_delay,
            condition_since: 0,
            output: false,
        }
    }
}

/// Well-formedness of a confirmation node: the output can be high only when
/// the input has been in the sensing polarity for at least the delay.
/// Constructors establish it and every update preserves it.
pub open spec fn confirmation_wf(s: ConfirmationNode) -> bool {
    s.output ==> s.condition_since >= s.time_delay
}

impl ConfirmationNode {
    pub fn new(leading_edge: bool, time_delay: u64) -> (node: ConfirmationNode)
        ensures
            node == (ConfirmationNode { leading_edge, time_delay, condition_since: 0, output: false }),
    {
        ConfirmationNode { leading_edge, time_delay, condition_since: 0, output: false }
    }

    pub fn new_leading(time_delay: u64) -> (node: ConfirmationNode)
        ensures
            node == (ConfirmationNode { leading_edge: true, time_delay, condition_since: 0, output: false }),
    {
        ConfirmationNode::new(true, time_delay)
    }

    pub fn new_falling(time_delay: u64) -> (node: ConfirmationNode)
        ensures
            node == (ConfirmationNode { leading_edge: false, time_delay, condition_since: 0, output: false }),
    {
        ConfirmationNode::new(false, time_delay)
    }

    pub fn update(&mut self, context: &UpdateContext, hi: bool) -> (output: bool)
        ensures
            *final(self) == confirmation_next(*old(self), context.delta_ms, hi),
            output == final(self).output,
    {
        let condition_met = hi == self.leading_edge;
        if condition_met {
            self.condition_since = if context.delta_ms > u64::MAX - self.condition_since {
                u64::MAX
            } else {
                self.condition_since + context.delta_ms
            };
            self.output = self.condition_since >= self.time_delay;
        } else {
            self.condition_since = 0;
            self.output = false;
        }
        self.output
    }
}

/// Every confirmation step preserves well-formedness.
pub proof fn lemma_confirmation_next_wf(s: ConfirmationNode, delta: u64, hi: bool)
    ensures
        confirmation_wf(confirmation_next(s, delta, hi)),
{
}

/// The state of a confirmation node after `n` ticks of `delta` milliseconds
/// each, with the input held constant at `hi`.
pub open spec fn confirmation_run(s: ConfirmationNode, delta: u64, hi: bool, n: nat) -> ConfirmationNode
    decreases n,
{
    if n == 0 {
        s
    } else {
        confirmation_next(confirmation_run(s, delta, hi, (n - 1) as nat), delta, hi)
    }
}

/// Monotone time: once a well-formed confirmation node has turned high, it
/// stays high for as long as the input keeps the sensing polarity, however
/// many ticks pass and whatever their durations contribute.
pub proof fn lemma_confirmation_stays_high(s: ConfirmationNode, delta: u64, hi: bool, n: nat)
    requires
        confirmation_wf(s),
        s.output,
        hi == s.leading_edge,
    ensures
        confirmation_run(s, delta, hi, n).output,
        confirmation_wf(confirmation_run(s, delta, hi, n)),
    decreases n,
{
    if n > 0 {
        lemma_confirmation_stays_high(s, delta, hi, (n - 1) as nat);
    }
}

/// Any glitch resets the clock: a single tick of the opposite polarity
/// drives a confirmation node low and clears its accumulated time,
/// whatever state it was in.
pub proof fn lemma_confirmation_glitch_resets(s: ConfirmationNode, delta: u64, hi: bool)
    requires
        hi != s.leading_edge,
    ensures
        confirmation_next(s, delta, hi).condition_since == 0,
        !confirmation_next(s, delta, hi).output,
{
}

/// A monostable trigger: low until a qualifying edge arrives, then high for
/// exactly `time_delay` milliseconds. A retriggerable node restarts the
/// pulse on a fresh edge; a non-retriggerable one ignores edges until the
/// pulse has expired.
pub struct MonostableTriggerNode {
    pub leading_edge: bool,
    pub time_delay: u64,
    pub retriggerable: bool,
    pub remaining_trigger: u64,
    pub last_hi: bool,
    pub output: bool,
}

/// The state of a monostable trigger after one tick of `delta` milliseconds
/// with input `hi`: the pulse first decays by `delta`, then a qualifying
/// edge (if the node may accept one) rearms it to the full delay.
pub open spec fn monostable_next(s: MonostableTriggerNode, delta: u64, hi: bool) -> MonostableTriggerNode {
    let decayed = sub_floored(s.remaining_trigger, delta);
    let armed = if (s.retriggerable || decayed == 0) && (s.last_hi != hi && hi == s.leading_edge) {
        s.time_delay
    } else {
        decayed
    };
    MonostableTriggerNode {
        leading_edge: s.leading_edge,
        time_delay: s.time_delay,
        retriggerable: s.retriggerable,
        remaining_trigger: armed,
        last_hi: hi,
        output: armed > 0,
    }
}

/// Well-formedness of a monostable trigger: the output mirrors whether any
/// pulse time remains.
pub open spec fn monostable_wf(s: MonostableTriggerNode) -> bool {
    s.output == (s.remaining_trigger > 0)
}

impl MonostableTriggerNode {
    pub fn new(leading_edge: bool, time_delay: u64) -> (node: MonostableTriggerNode)
        ensures
            node == (MonostableTriggerNode {
                leading_edge,
                time_delay,
                retriggerable: false,
                remaining_trigger: 0,
                last_hi: false,
                output: false,
            }),
    {
        MonostableTriggerNode {
            leading_edge,
            time_delay,
            retriggerable: false,
            remaining_trigger: 0,
            last_hi: false,
            output: false,
        }
    }

    pub fn new_retriggerable(leading_edge: bool, time_delay: u64) -> (node: MonostableTriggerNode)
        ensures
            node == (MonostableTriggerNode {
                leading_edge,
                time_delay,
                retriggerable: true,
                remaining_trigger: 0,
                last_hi: false,
                output: false,
            }),
    {
        MonostableTriggerNode {
            leading_edge,
            time_delay,
            retriggerable: true,
            remaining_trigger: 0,
            last_hi: false,
            output: false,
        }
    }

    pub fn update(&mut self, context: &UpdateContext, hi: bool) -> (output: bool)
        ensures
            *final(self) == monostable_next(*old(self), context.delta_ms, hi),
            output == final(self).output,
    {
        self.remaining_trigger = if self.remaining_trigger >= context.delta_ms {
            self.remaining_trigger - context.delta_ms
        } else {
            0
        };
        if self.retriggerable || self.remaining_trigger == 0 {
            let condition_met = self.last_hi != hi && hi == self.leading_edge;
            if condition_met {
                self.remaining_trigger = self.time_delay;
            }
        }
        self.last_hi = hi;
        self.output = self.remaining_trigger > 0;
        self.output
    }
}

/// The state of a monostable trigger after `n` ticks of `delta` milliseconds
/// each, with the input held constant at `hi`.
pub open spec fn monostable_run(s: MonostableTriggerNode, delta: u64, hi: bool, n: nat) -> MonostableTriggerNode
    decreases n,
{
    if n == 0 {
        s
    } else {
        monostable_next(monostable_run(s, delta, hi, (n - 1) as nat), delta, hi)
    }
}

/// While the input is held at the value last seen (so no further edge can
/// qualify), a pulse simply decays: after `n` ticks the output is high
/// exactly when `n` whole ticks fit strictly inside the remaining time.
pub proof fn lemma_monostable_decay(s: MonostableTriggerNode, delta: u64, n: nat)
    requires
        delta > 0,
        monostable_wf(s),
    ensures
        ({
            let later = monostable_run(s, delta, s.last_hi, n);
            &&& later.output == ((n as int) * (delta as int) < s.remaining_trigger as int)
            &&& later.remaining_trigger as int == (if (n as int) * (delta as int) <= s.remaining_trigger as int {
                s.remaining_trigger as int - (n as int) * (delta as int)
            } else {
                0int
            })
            &&& later.last_hi == s.last_hi
            &&& later.leading_edge == s.leading_edge
            &&& later.time_delay == s.time_delay
            &&& later.retriggerable == s.retriggerable
            &&& monostable_wf(later)
        }),
    decreases n,
{
    if n > 0 {
        lemma_monostable_decay(s, delta, (n - 1) as nat);
        assert((n as int) * (delta as int) == (n - 1) as int * (delta as int) + delta as int)
            by (nonlinear_arith);
    }
}

/// Monostable duration: from an idle well-formed node, a qualifying edge
/// arms the pulse to the full `time_delay`; holding the input steady after
/// the edge, the output is high at the edge tick and at the following ticks
/// for as long as the elapsed whole ticks still lie strictly inside the
/// delay, and low from then on.
pub proof fn lemma_monostable_pulse(s: MonostableTriggerNode, delta: u64, n: nat)
    requires
        delta > 0,
        monostable_wf(s),
        s.remaining_trigger == 0,
        s.last_hi != s.leading_edge,
    ensures
        ({
            let fired = monostable_next(s, delta, s.leading_edge);
            let later = monostable_run(fired, delta, s.leading_edge, n);
            &&& fired.remaining_trigger == s.time_delay
            &&& fired.output == (s.time_delay > 0)
            &&& later.output == ((n as int) * (delta as int) < s.time_delay as int)
        }),
{
    let fired = monostable_next(s, delta, s.leading_edge);
    lemma_monostable_decay(fired, delta, n);
}

/// On a qualifying edge, a retriggerable pulse rearms to the full delay
/// even while it is still running; a non-retriggerable one is deaf to
/// edges until the running pulse has expired.
pub proof fn lemma_monostable_edge_while_running(s: MonostableTriggerNode, delta: u64)
    requires
        s.last_hi != s.leading_edge,
    ensures
        s.retriggerable ==> monostable_next(s, delta, s.leading_edge).remaining_trigger
            == s.time_delay,
        !s.retriggerable && sub_floored(s.remaining_trigger, delta) > 0
            ==> monostable_next(s, delta, s.leading_edge).remaining_trigger
            == sub_floored(s.remaining_trigger, delta),
{
}

/// A set/reset memory circuit (flip-flop). A set pulse drives the output
/// high, a reset pulse drives it low, and with neither the output holds its
/// last value. When both arrive in the same tick, the input with precedence
/// wins. The `nvm` flag only marks the bit as intended to survive a
/// simulated power loss; persistence itself is left to the host.
pub struct MemoryNode {
    pub has_set_precedence: bool,
    pub nvm: bool,
    pub output: bool,
}

/// The state of a memory node after one tick with inputs `set` and `reset`.
pub open spec fn memory_next(s: MemoryNode, set: bool, reset: bool) -> MemoryNode {
    MemoryNode {
        has_set_precedence: s.has_set_precedence,
        nvm: s.nvm,
        output: if set && reset {
            s.has_set_precedence
        } else if set {
            true
        } else if reset {
            false
        } else {
            s.output
        },
    }
}

impl MemoryNode {
    pub fn new(has_set_precedence: bool) -> (node: MemoryNode)
        ensures
            node == (MemoryNode { has_set_precedence, nvm: false, output: false }),
    {
        MemoryNode { has_set_precedence, nvm: false, output: false }
    }

    pub fn new_nvm(has_set_precedence: bool) -> (node: MemoryNode)
        ensures
            node == (MemoryNode { has_set_precedence, nvm: true, output: false }),
    {
        MemoryNode { has_set_precedence, nvm: true, output: false }
    }

    pub fn update(&mut self, _context: &UpdateContext, set: bool, reset: bool) -> (output: bool)
        ensures
            *final(self) == memory_next(*old(self), set, reset),
            output == final(self).output,
    {
        self.output = if set && reset {
            self.has_set_precedence
        } else if set {
            true
        } else if reset {
            false
        } else {
            self.output
        };
        self.output
    }
}

/// Memory idempotence: a tick with neither set nor reset leaves the latch
/// exactly as it was, so the last set/reset outcome is preserved across any
/// number of idle ticks.
pub proof fn lemma_memory_idle_keeps_state(s: MemoryNode)
    ensures
        memory_next(s, false, false) == s,
{
}

/// A hysteresis circuit over fixed-point values: low until the value climbs
/// to `up` or beyond, then high until the value falls to `dn` or below.
pub struct HysteresisNode {
    pub up: i64,
    pub dn: i64,
    pub output: bool,
}

/// The state of a hysteresis node after one tick with input `value`.
pub open spec fn hysteresis_next(s: HysteresisNode, value: i64) -> HysteresisNode {
    HysteresisNode {
        up: s.up,
        dn: s.dn,
        output: if s.output {
            !(value <= s.dn)
        } else {
            value >= s.up
        },
    }
}

impl HysteresisNode {
    pub fn new(dn: i64, up: i64) -> (node: HysteresisNode)
        requires
            dn <= up,
        ensures
            node == (HysteresisNode { up, dn, output: false }),
    {
        HysteresisNode { up, dn, output: false }
    }

    pub fn update(&mut self, _context: &UpdateContext, value: i64) -> (output: bool)
        ensures
            *final(self) == hysteresis_next(*old(self), value),
            output == final(self).output,
    {
        if self.output {
            self.output = if value <= self.dn { false } else { self.output };
        } else {
            self.output = if value >= self.up { true } else { self.output };
        }
        self.output
    }
}

/// Hysteresis non-chatter: a value strictly between the two thresholds
/// leaves the node untouched, so a trajectory confined to the open band
/// `(dn, up)` can never change the output.
pub proof fn lemma_hysteresis_no_chatter(s: HysteresisNode, value: i64)
    requires
        s.dn < value < s.up,
    ensures
        hysteresis_next(s, value) == s,
{
}

/// A node that remembers the value handed to it on the preceding update;
/// used to break same-tick feedback loops.
pub struct PreceedingValueNode {
    pub predecessor: bool,
}

impl PreceedingValueNode {
    pub fn new() -> (node: PreceedingValueNode)
        ensures
            node == (PreceedingValueNode { predecessor: false }),
    {
        PreceedingValueNode { predecessor: false }
    }

    /// The value observed at the previous update.
    pub fn get(&self) -> (value: bool)
        ensures
            value == self.predecessor,
    {
        self.predecessor
    }

    pub fn update(&mut self, _context: &UpdateContext, value: bool)
        ensures
            *final(self) == (PreceedingValueNode { predecessor: value }),
    {
        self.predecessor = value;
    }
}

/// A transient detector: it emits its change signal on every tick where the
/// input differs from the preceding one, and the opposite level otherwise.
pub struct TransientDetectionNode {
    pub change_signal: bool,
    pub predecessor: bool,
}

/// What a transient detector emits for input `value`.
pub open spec fn transient_output(s: TransientDetectionNode, value: bool) -> bool {
    if value != s.predecessor {
        s.change_signal
    } else {
        !s.change_signal
    }
}

impl TransientDetectionNode {
    pub fn new(change_signal: bool) -> (node: TransientDetectionNode)
        ensures
            node == (TransientDetectionNode { change_signal, predecessor: false }),
    {
        TransientDetectionNode { change_signal, predecessor: false }
    }

    pub fn update(&mut self, _context: &UpdateContext, value: bool) -> (output: bool)
        ensures
            *final(self) == (TransientDetectionNode {
                change_signal: old(self).change_signal,
                predecessor: value,
            }),
            output == transient_output(*old(self), value),
    {
        let predecessor = self.predecessor;
        self.predecessor = value;
        if value != predecessor {
            self.change_signal
        } else {
            !self.change_signal
        }
    }
}


} // verus!
