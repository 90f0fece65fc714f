use vstd::prelude::*;
use crate::interrupts::{Interrupts, flag_with, lemma_request_idempotent, TIMER_INTERRUPT_BIT};
use crate::machine::{Machine, MachineView};

verus! {

/// Bus address of the divider register.
pub const DIVIDE_REGISTER_ADDRESS: u16 = 0xFF04;
/// Bus address of the timer counter.
pub const TIMER_COUNTER_ADDRESS: u16 = 0xFF05;
/// Bus address of the timer modulo (the value reloaded on overflow).
pub const TIMER_MODULO_ADDRESS: u16 = 0xFF06;
/// Bus address of the timer control register.
pub const TIMER_CONTROL_ADDRESS: u16 = 0xFF07;

/// The free-running divider and the programmable counter, both derived from
/// the dot clock.
#[derive(Clone, Copy, Debug, Hash, PartialEq, Eq, Structural)]
pub struct Timers {
    pub divide_register: u8,
    /// Dots accumulated towards the next divider increment.
    pub divide_register_dots: u16,
    /// A write to the divider asks for a reset; it is applied once the dots of
    /// the current step have elapsed, so that they still count against the old
    /// divider state.
    pub divide_register_to_be_reset: bool,
    pub timer_counter: u8,
    /// Dots accumulated towards the next counter increment.
    pub timer_counter_dots: u16,
    pub timer_modulo: u8,
    pub timer_control: u8,
}

/// An 8-bit register incremented with wraparound.
pub open spec fn wrap_inc(x: u8) -> u8 {
    if x == 255 {
        0
    } else {
        (x + 1) as u8
    }
}

/// Dots per counter increment selected by the low two bits of the control register.
pub open spec fn counter_threshold(control: u8) -> u16 {
    if control & 3 == 0 {
        1024
    } else if control & 3 == 1 {
        16
    } else if control & 3 == 2 {
        64
    } else {
        256
    }
}

/// Bit 2 of the control register enables the counter.
pub open spec fn counter_enabled(control: u8) -> bool {
    control & 4 != 0
}

fn get_timer_counter_threshold(control: u8) -> (r: u16)
    ensures
        r == counter_threshold(control),
{
    let low = control & 3;
    assert(low < 4) by (bit_vector)
        requires
            low == control & 3,
    ;
    if low == 0 {
        1024
    } else if low == 1 {
        16
    } else if low == 2 {
        64
    } else {
        256
    }
}

impl Timers {
    /// The accumulators stay below their largest thresholds.
    pub open spec fn wf(self) -> bool {
        self.divide_register_dots < 256 && self.timer_counter_dots < 1024
    }

    /// The state after one dot, before any deferred divider reset.
    pub open spec fn dot(self) -> Timers {
        let div_dots = self.divide_register_dots + 1;
        let divider = if div_dots == 256 {
            wrap_inc(self.divide_register)
        } else {
            self.divide_register
        };
        let div_dots: u16 = if div_dots == 256 {
            0
        } else {
            div_dots as u16
        };
        if !counter_enabled(self.timer_control) {
            Timers { divide_register: divider, divide_register_dots: div_dots, ..self }
        } else if self.timer_counter_dots + 1 >= counter_threshold(self.timer_control) {
            let counter = wrap_inc(self.timer_counter);
            Timers {
                divide_register: divider,
                divide_register_dots: div_dots,
                timer_counter_dots: 0,
                timer_counter: if counter == 0 {
                    self.timer_modulo
                } else {
                    counter
                },
                ..self
            }
        } else {
            Timers {
                divide_register: divider,
                divide_register_dots: div_dots,
                timer_counter_dots: (self.timer_counter_dots + 1) as u16,
                ..self
            }
        }
    }

    /// Whether the counter overflows (and asks for the timer interrupt) in one dot.
    pub open spec fn dot_overflows(self) -> bool {
        counter_enabled(self.timer_control) && self.timer_counter_dots + 1 >= counter_threshold(
            self.timer_control,
        ) && self.timer_counter == 255
    }

    /// The state after `n` dots, one at a time.
    pub open spec fn run(self, n: nat) -> Timers
        decreases n,
    {
        if n == 0 {
            self
        } else {
            self.dot().run((n - 1) as nat)
        }
    }

    /// Whether the counter overflows during one of the next `n` dots.
    pub open spec fn overflows_within(self, n: nat) -> bool
        decreases n,
    {
        if n == 0 {
            false
        } else {
            self.dot_overflows() || self.dot().overflows_within((n - 1) as nat)
        }
    }

    /// The state after a whole step of `n` dots: the dots elapse, then a
    /// pending divider reset is applied.
    pub open spec fn after_dots(self, n: nat) -> Timers {
        let r = self.run(n);
        if r.divide_register_to_be_reset {
            Timers {
                divide_register: 0,
                divide_register_dots: 0,
                divide_register_to_be_reset: false,
                ..r
            }
        } else {
            r
        }
    }

    /// What a read of a timer address returns.
    pub open spec fn read_spec(self, address: u16) -> u8 {
        if address == DIVIDE_REGISTER_ADDRESS {
            self.divide_register
        } else if address == TIMER_COUNTER_ADDRESS {
            self.timer_counter
        } else if address == TIMER_MODULO_ADDRESS {
            self.timer_modulo
        } else {
            self.timer_control
        }
    }

    /// The state after a write to a timer address.
    pub open spec fn write_spec(self, address: u16, value: u8) -> Timers {
        if address == DIVIDE_REGISTER_ADDRESS {
            Timers { divide_register_to_be_reset: true, ..self }
        } else if address == TIMER_COUNTER_ADDRESS {
            Timers { timer_counter: value, ..self }
        } else if address == TIMER_MODULO_ADDRESS {
            Timers { timer_modulo: value, ..self }
        } else {
            Timers { timer_control: value, ..self }
        }
    }

    /// Every register and accumulator at zero, no reset pending.
    pub open spec fn new_spec() -> Timers {
        Timers {
            divide_register: 0,
            divide_register_dots: 0,
            divide_register_to_be_reset: false,
            timer_counter: 0,
            timer_counter_dots: 0,
            timer_modulo: 0,
            timer_control: 0,
        }
    }

    pub fn new() -> (r: Self)
        ensures
            r.wf(),
            r == Timers::new_spec(),
    {
        Timers {
            divide_register: 0,
            divide_register_to_be_reset: false,
            divide_register_dots: 0,
            timer_counter: 0,
            timer_counter_dots: 0,
            timer_modulo: 0,
            timer_control: 0,
        }
    }

    /// Advances both accumulators by one dot; returns whether the counter
    /// overflowed, in which case it has been reloaded from the modulo.
    pub fn step_one_dot(&mut self) -> (overflowed: bool)
        requires
            old(self).wf(),
        ensures
            *final(self) == old(self).dot(),
            overflowed == old(self).dot_overflows(),
            final(self).wf(),
    {
        self.divide_register_dots = self.divide_register_dots + 1;
        if self.divide_register_dots == 256 {
            self.divide_register_dots = 0;
            self.divide_register = self.divide_register.wrapping_add(1);
        }
        let mut overflowed = false;
        if (self.timer_control & 0b100) != 0 {
            self.timer_counter_dots = self.timer_counter_dots + 1;
            if self.timer_counter_dots >= get_timer_counter_threshold(self.timer_control) {
                self.timer_counter_dots = 0;
                self.timer_counter = self.timer_counter.wrapping_add(1);
                if self.timer_counter == 0 {
                    self.timer_counter = self.timer_modulo;
                    overflowed = true;
                }
            }
        }
        overflowed
    }

    /// Advances the machine's timers by `dots` dots, one at a time, requesting
    /// the timer interrupt whenever the counter overflows; a divider reset
    /// asked for before or during the step is applied once all dots have elapsed.
    pub fn step_dots(machine: &mut Machine, dots: u8)
        requires
            old(machine)@.wf(),
        ensures
            final(machine)@ == (MachineView {
                timers: old(machine).timers.after_dots(dots as nat),
                interrupts: Interrupts {
                    interrupt_flag: if old(machine).timers.overflows_within(dots as nat) {
                        flag_with(old(machine).interrupts.interrupt_flag, TIMER_INTERRUPT_BIT)
                    } else {
                        old(machine).interrupts.interrupt_flag
                    },
                    ..old(machine).interrupts
                },
                ..old(machine)@
            }),
            final(machine)@.wf(),
    {
        let ghost start = *machine;
        let mut i: u8 = 0;
        while i < dots
            invariant
                0 <= i <= dots,
                machine@ == (MachineView {
                    timers: start.timers.run(i as nat),
                    interrupts: Interrupts {
                        interrupt_flag: if start.timers.overflows_within(i as nat) {
                            flag_with(start.interrupts.interrupt_flag, TIMER_INTERRUPT_BIT)
                        } else {
                            start.interrupts.interrupt_flag
                        },
                        ..start.interrupts
                    },
                    ..start@
                }),
                machine.timers.wf(),
            decreases dots - i,
        {
            proof {
                lemma_run_last(start.timers, i as nat);
                lemma_request_idempotent(start.interrupts.interrupt_flag, TIMER_INTERRUPT_BIT);
            }
            let overflowed = machine.timers.step_one_dot();
            if overflowed {
                machine.request_interrupt(TIMER_INTERRUPT_BIT);
            }
            i = i + 1;
        }
        if machine.timers.divide_register_to_be_reset {
            machine.timers.divide_register_to_be_reset = false;
            machine.timers.divide_register = 0;
            machine.timers.divide_register_dots = 0;
        }
    }

    pub fn read_u8(&self, address: u16) -> (r: u8)
        requires
            DIVIDE_REGISTER_ADDRESS <= address <= TIMER_CONTROL_ADDRESS,
        ensures
            r == self.read_spec(address),
    {
        if address == DIVIDE_REGISTER_ADDRESS {
            self.divide_register
        } else if address == TIMER_COUNTER_ADDRESS {
            self.timer_counter
        } else if address == TIMER_MODULO_ADDRESS {
            self.timer_modulo
        } else {
            self.timer_control
        }
    }

    /// Writes a timer register. A write of any value to the divider only marks
    /// it for reset at the end of the current step.
    pub fn write_u8(&mut self, address: u16, value: u8)
        requires
            DIVIDE_REGISTER_ADDRESS <= address <= TIMER_CONTROL_ADDRESS,
        ensures
            *final(self) == old(self).write_spec(address, value),
    {
        if address == DIVIDE_REGISTER_ADDRESS {
            self.divide_register_to_be_reset = true;
        } else if address == TIMER_COUNTER_ADDRESS {
            self.timer_counter = value;
        } else if address == TIMER_MODULO_ADDRESS {
            self.timer_modulo = value;
        } else {
            self.timer_control = value;
        }
    }
}

/// Running `n + 1` dots is running `n` dots and then one more.
proof fn lemma_run_last(t: Timers, n: nat)
    ensures
        t.run(n + 1) == t.run(n).dot(),
        t.overflows_within(n + 1) == (t.overflows_within(n) || t.run(n).dot_overflows()),
    decreases n,
{
    assert(t.run(n + 1) == t.dot().run(n));
    assert(t.overflows_within(n + 1) == (t.dot_overflows() || t.dot().overflows_within(n)));
    if n > 0 {
        lemma_run_last(t.dot(), (n - 1) as nat);
        assert(t.run(n) == t.dot().run((n - 1) as nat));
        assert(t.overflows_within(n) == (t.dot_overflows() || t.dot().overflows_within(
            (n - 1) as nat,
        )));
    } else {
        assert(t.dot().run(0) == t.dot());
        assert(t.dot().overflows_within(0) == false);
    }
}

/// Dots keep the accumulators in range, the control and modulo registers, and
/// any pending divider reset.
proof fn lemma_run_keeps(t: Timers, n: nat)
    requires
        t.wf(),
    ensures
        t.run(n).wf(),
        t.run(n).timer_control == t.timer_control,
        t.run(n).timer_modulo == t.timer_modulo,
        t.run(n).divide_register_to_be_reset == t.divide_register_to_be_reset,
    decreases n,
{
    if n > 0 {
        lemma_run_keeps(t.dot(), (n - 1) as nat);
    }
}

/// The divider after `n` dots: its accumulator counts dots modulo 256 and the
/// register gains one per 256.
proof fn lemma_divider_run(t: Timers, n: nat)
    requires
        t.wf(),
    ensures
        t.run(n).divide_register == (t.divide_register + (t.divide_register_dots + n) / 256) % 256,
        t.run(n).divide_register_dots == (t.divide_register_dots + n) % 256,
    decreases n,
{
    if n > 0 {
        let m = (n - 1) as nat;
        lemma_divider_run(t, m);
        lemma_run_last(t, m);
        lemma_run_keeps(t, m);
        let d = t.divide_register_dots + m;
        assert((d + 1) / 256 == if d % 256 == 255 { d / 256 + 1 } else { d / 256 })
            by (nonlinear_arith)
            requires
                d >= 0,
        ;
        assert((d + 1) % 256 == if d % 256 == 255 { 0 } else { d % 256 + 1 })
            by (nonlinear_arith)
            requires
                d >= 0,
        ;
    }
}

/// With the divider untouched by writes, every 256 dots advance it by exactly
/// one, wrapping from 255 to 0, and leave its accumulator where it was.
pub proof fn lemma_divider_period(t: Timers)
    requires
        t.wf(),
    ensures
        t.run(256).divide_register == wrap_inc(t.divide_register),
        t.run(256).divide_register_dots == t.divide_register_dots,
{
    lemma_divider_run(t, 256);
    let d = t.divide_register_dots;
    assert((d + 256) / 256 == 1 && (d + 256) % 256 == d) by (nonlinear_arith)
        requires
            0 <= d < 256,
    ;
}

/// A divider write only marks the reset: during the step every dot counts as
/// it would have without the write, and once the step ends the divider and
/// its accumulator are zero and nothing is pending.
pub proof fn lemma_divider_reset_deferred(t: Timers, n: nat)
    requires
        t.wf(),
        t.divide_register_to_be_reset,
    ensures
        t.run(n) == (Timers {
            divide_register_to_be_reset: true,
            ..(Timers { divide_register_to_be_reset: false, ..t }).run(n)
        }),
        t.after_dots(n) == (Timers {
            divide_register: 0,
            divide_register_dots: 0,
            divide_register_to_be_reset: false,
            ..t.run(n)
        }),
    decreases n,
{
    lemma_run_keeps(t, n);
    if n > 0 {
        lemma_divider_reset_deferred(t.dot(), (n - 1) as nat);
    }
}

/// Running `a` dots then `b` dots is running `a + b` dots.
proof fn lemma_run_split(t: Timers, a: nat, b: nat)
    ensures
        t.run(a).run(b) == t.run(a + b),
        t.overflows_within(a + b) == (t.overflows_within(a) || t.run(a).overflows_within(b)),
    decreases a,
{
    if a > 0 {
        lemma_run_split(t.dot(), (a - 1) as nat, b);
        assert(t.run(a + b) == t.dot().run((a + b - 1) as nat));
        assert(t.overflows_within(a + b) == (t.dot_overflows() || t.dot().overflows_within(
            (a + b - 1) as nat,
        )));
    }
}

/// Without a pending divider reset, a step of `a` dots followed by a step of
/// `b` dots has the effect of one step of `a + b` dots, on every register and
/// on whether the timer interrupt is requested.
pub proof fn lemma_steps_compose(t: Timers, a: nat, b: nat)
    requires
        t.wf(),
        !t.divide_register_to_be_reset,
    ensures
        t.after_dots(a).after_dots(b) == t.after_dots(a + b),
        t.overflows_within(a + b) == (t.overflows_within(a) || t.after_dots(a).overflows_within(b)),
{
    lemma_run_keeps(t, a);
    lemma_run_keeps(t, a + b);
    lemma_run_split(t, a, b);
}

/// The counter and its accumulator while it stays below its threshold.
proof fn lemma_counter_below_threshold(t: Timers, n: nat)
    requires
        t.wf(),
        counter_enabled(t.timer_control),
        t.timer_counter_dots + n < counter_threshold(t.timer_control),
    ensures
        t.run(n).timer_counter == t.timer_counter,
        t.run(n).timer_counter_dots == t.timer_counter_dots + n,
        !t.overflows_within(n),
    decreases n,
{
    if n > 0 {
        let m = (n - 1) as nat;
        lemma_counter_below_threshold(t, m);
        lemma_run_last(t, m);
        lemma_run_keeps(t, m);
    }
}

/// From a fresh accumulator, an enabled counter does not move in the
/// threshold's first `threshold - 1` dots (1024, 16, 64 or 256 by the low
/// control bits), and on the threshold's last dot it increments exactly once,
/// reloading from the modulo and requesting the interrupt on overflow.
pub proof fn lemma_counter_threshold(t: Timers)
    requires
        t.wf(),
        counter_enabled(t.timer_control),
        t.timer_counter_dots == 0,
    ensures
        t.run((counter_threshold(t.timer_control) - 1) as nat).timer_counter == t.timer_counter,
        !t.overflows_within((counter_threshold(t.timer_control) - 1) as nat),
        t.run(counter_threshold(t.timer_control) as nat).timer_counter == if t.timer_counter == 255 {
            t.timer_modulo
        } else {
            (t.timer_counter + 1) as u8
        },
        t.overflows_within(counter_threshold(t.timer_control) as nat) == (t.timer_counter == 255),
{
    let k = (counter_threshold(t.timer_control) - 1) as nat;
    lemma_counter_below_threshold(t, k);
    lemma_run_last(t, k);
    lemma_run_keeps(t, k);
}

/// Total dots of a sequence of steps.
pub open spec fn total_dots(steps: Seq<nat>) -> nat
    decreases steps.len(),
{
    if steps.len() == 0 {
        0
    } else {
        steps[0] + total_dots(steps.drop_first())
    }
}

impl Timers {
    /// The state after a sequence of steps, each of the given number of dots.
    pub open spec fn after_steps(self, steps: Seq<nat>) -> Timers
        decreases steps.len(),
    {
        if steps.len() == 0 {
            self
        } else {
            self.after_dots(steps[0]).after_steps(steps.drop_first())
        }
    }

    /// Whether the counter overflows during one of a sequence of steps.
    pub open spec fn overflows_in_steps(self, steps: Seq<nat>) -> bool
        decreases steps.len(),
    {
        if steps.len() == 0 {
            false
        } else {
            self.overflows_within(steps[0]) || self.after_dots(steps[0]).overflows_in_steps(
                steps.drop_first(),
            )
        }
    }
}

/// Without a pending divider reset, any sequence of steps has the effect of
/// running their dots one after the other.
pub proof fn lemma_steps_are_dots(t: Timers, steps: Seq<nat>)
    requires
        t.wf(),
        !t.divide_register_to_be_reset,
    ensures
        t.after_steps(steps) == t.run(total_dots(steps)),
        t.overflows_in_steps(steps) == t.overflows_within(total_dots(steps)),
    decreases steps.len(),
{
    if steps.len() > 0 {
        let a = steps[0];
        let rest = steps.drop_first();
        lemma_run_keeps(t, a);
        lemma_steps_are_dots(t.run(a), rest);
        lemma_run_split(t, a, total_dots(rest));
    }
}

/// The threshold law over any sequence of steps without timer writes between
/// them: from a fresh accumulator, an enabled counter is unchanged after
/// `threshold - 1` dots in total and has incremented exactly once (reloading
/// from the modulo and requesting the interrupt on overflow) after `threshold`.
pub proof fn lemma_counter_threshold_in_steps(t: Timers, steps: Seq<nat>)
    requires
        t.wf(),
        counter_enabled(t.timer_control),
        t.timer_counter_dots == 0,
        !t.divide_register_to_be_reset,
    ensures
        total_dots(steps) == counter_threshold(t.timer_control) - 1 ==> t.after_steps(steps).timer_counter
            == t.timer_counter && !t.overflows_in_steps(steps),
        total_dots(steps) == counter_threshold(t.timer_control) ==> t.after_steps(steps).timer_counter
            == (if t.timer_counter == 255 {
            t.timer_modulo
        } else {
            (t.timer_counter + 1) as u8
        }) && t.after_steps(steps).timer_counter_dots == 0 && t.overflows_in_steps(steps) == (
        t.timer_counter == 255),
{
    lemma_steps_are_dots(t, steps);
    lemma_counter_threshold(t);
    let k = (counter_threshold(t.timer_control) - 1) as nat;
    lemma_run_last(t, k);
    lemma_counter_below_threshold(t, k);
}

} // verus!
