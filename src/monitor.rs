//! The crossing monitor: one bit of state, and the alerts it raises at each edge.
use vstd::prelude::*;
use vstd::string::*;
use crate::notify::NotifyType;
use crate::notify::webhook::{render, template_text};
use crate::rate::{fixed3_text, push_fixed3, Price, Rate};

verus! {

/// What one tick of polling brought.
pub enum Tick {
    /// A price of either leg could not be had.
    Failed,
    /// Both prices; the cross-rate is `leg2 / leg1`.
    Prices { leg1: Price, leg2: Price },
}

/// Whether the cross-rate `leg2 / leg1` is strictly below `threshold` millionths.
pub open spec fn is_below(leg1: nat, leg2: nat, threshold: nat) -> bool {
    leg2 * 1_000_000 < threshold * leg1
}

/// `a / b`, rounded to the nearest integer, halves up.
pub open spec fn rounded_div(a: nat, b: nat) -> nat {
    if b == 0 {
        0
    } else {
        (2 * a + b) / (2 * b)
    }
}

/// The cross-rate `leg2 / leg1` in millionths.
pub open spec fn cross_micros(leg1: nat, leg2: nat) -> nat {
    rounded_div(leg2 * 1_000_000, leg1)
}

/// The cross-rate times one hundred, in thousandths.
pub open spec fn scaled_thousandths(leg1: nat, leg2: nat) -> nat {
    rounded_div(leg2 * 100_000, leg1)
}

/// A crossing of the threshold, to be told to every channel.
pub struct Alert {
    /// True for a crossing downwards, false for the recovery upwards.
    pub under_threshold: bool,
    /// The cross-rate.
    pub rate: Rate,
    /// The cross-rate times one hundred, in thousandths, for the fixed message.
    pub scaled: u128,
}

/// The alert of a crossing into `under_threshold` at the prices `leg1` and `leg2`.
pub open spec fn alert_of(under_threshold: bool, leg1: nat, leg2: nat) -> Alert {
    Alert {
        under_threshold,
        rate: Rate { micros: cross_micros(leg1, leg2) as u128 },
        scaled: scaled_thousandths(leg1, leg2) as u128,
    }
}

/// One tick of the monitor from state `under`: the next state, and the alert raised.
/// A failed tick changes nothing; otherwise the state becomes whether the cross-rate
/// is below the threshold, and an alert is raised exactly when that changes it.
pub open spec fn step(under: bool, tick: Tick, threshold: Price) -> (bool, Option<Alert>) {
    match tick {
        Tick::Failed => (under, None),
        Tick::Prices { leg1, leg2 } => {
            let below = is_below(leg1@, leg2@, threshold@);
            if below != under {
                (below, Some(alert_of(below, leg1@, leg2@)))
            } else {
                (below, None)
            }
        },
    }
}

/// The opening of the fixed message for a crossing downwards.
pub open spec fn below_prefix() -> Seq<char> {
    "CNH/CNY低于预设值，为:"@
}

/// The opening of the fixed message for a crossing upwards.
pub open spec fn above_prefix() -> Seq<char> {
    "CNH/CNY高于预设值，为:"@
}

/// The fixed message: the direction of the crossing, then the cross-rate times one
/// hundred with three decimals.
pub open spec fn fixed_message(under_threshold: bool, scaled: nat) -> Seq<char> {
    (if under_threshold {
        below_prefix()
    } else {
        above_prefix()
    }) + fixed3_text(scaled)
}

/// The message of an alert for one channel: a webhook renders its template; every
/// other channel gets the fixed message.
pub open spec fn message_for(alert: Alert, notifier: NotifyType) -> Seq<char> {
    match notifier {
        NotifyType::Webhook(w) => render(
            template_text(w.spec_template()),
            alert.under_threshold,
            alert.rate.micros as nat,
        ),
        _ => fixed_message(alert.under_threshold, alert.scaled as nat),
    }
}

impl Alert {
    /// The fixed message of this alert.
    pub fn message(&self) -> (r: String)
        ensures
            r@ == fixed_message(self.under_threshold, self.scaled as nat),
    {
        let mut s = if self.under_threshold {
            String::from_str("CNH/CNY低于预设值，为:")
        } else {
            String::from_str("CNH/CNY高于预设值，为:")
        };
        push_fixed3(&mut s, self.scaled);
        s
    }

    /// The message of this alert for one channel.
    pub fn message_for(&self, notifier: &NotifyType) -> (r: String)
        ensures
            r@ == message_for(*self, *notifier),
    {
        match notifier {
            NotifyType::Webhook(w) => w.generate_message(self.under_threshold, self.rate),
            _ => self.message(),
        }
    }

    /// One message for each channel, in the order given: every channel is owed a
    /// delivery attempt, whatever becomes of the others.
    pub fn messages(&self, notifiers: &Vec<NotifyType>) -> (r: Vec<String>)
        ensures
            r@.len() == notifiers@.len(),
            forall|i: int| 0 <= i < r@.len() ==> #[trigger] r@[i]@ == message_for(*self, notifiers@[i]),
    {
        let mut r: Vec<String> = Vec::new();
        let mut i: usize = 0;
        while i < notifiers.len()
            invariant
                i <= notifiers@.len(),
                r@.len() == i,
                forall|j: int| 0 <= j < i ==> #[trigger] r@[j]@ == message_for(*self, notifiers@[j]),
            decreases notifiers@.len() - i,
        {
            r.push(self.message_for(&notifiers[i]));
            i = i + 1;
        }
        r
    }
}

/// Watches the cross-rate against a threshold.
pub struct Monitor {
    threshold: Price,
    under_threshold: bool,
}

impl Monitor {
    pub closed spec fn spec_threshold(&self) -> Price {
        self.threshold
    }

    pub closed spec fn spec_under(&self) -> bool {
        self.under_threshold
    }

    /// A monitor that starts above the threshold.
    pub fn new(threshold: Price) -> (r: Self)
        ensures
            r.spec_threshold() == threshold,
            !r.spec_under(),
    {
        Monitor { threshold, under_threshold: false }
    }

    /// Whether the last cross-rate computed was below the threshold.
    pub fn under_threshold(&self) -> (r: bool)
        ensures
            r == self.spec_under(),
    {
        self.under_threshold
    }

    /// Takes in one tick; returns the alert to dispatch, if the rate crossed.
    pub fn on_tick(&mut self, tick: &Tick) -> (r: Option<Alert>)
        ensures
            final(self).spec_threshold() == old(self).spec_threshold(),
            (final(self).spec_under(), r) == step(
                old(self).spec_under(),
                *tick,
                old(self).spec_threshold(),
            ),
    {
        match tick {
            Tick::Failed => None,
            Tick::Prices { leg1, leg2 } => {
                let p1 = leg1.micros() as u128;
                let p2 = leg2.micros() as u128;
                let t = self.threshold.micros() as u128;
                assert(p2 * 1_000_000 <= 0xffff_ffff_ffff_ffffu128 * 1_000_000) by (nonlinear_arith)
                    requires
                        p2 <= 0xffff_ffff_ffff_ffffu128,
                ;
                assert(t * p1 <= 0xffff_ffff_ffff_ffffu128 * 0xffff_ffff_ffff_ffffu128) by (
                nonlinear_arith)
                    requires
                        p1 <= 0xffff_ffff_ffff_ffffu128,
                        t <= 0xffff_ffff_ffff_ffffu128,
                ;
                let below = p2 * 1_000_000 < t * p1;
                if below != self.under_threshold {
                    self.under_threshold = below;
                    let micros = (2 * (p2 * 1_000_000) + p1) / (2 * p1);
                    let scaled = (2 * (p2 * 100_000) + p1) / (2 * p1);
                    Some(Alert { under_threshold: below, rate: Rate { micros }, scaled })
                } else {
                    None
                }
            },
        }
    }
}

} // verus!

verus! {

/// The state after a run of ticks, from the start (above the threshold).
pub open spec fn state_after(threshold: Price, ticks: Seq<Tick>) -> bool
    decreases ticks.len(),
{
    if ticks.len() == 0 {
        false
    } else {
        step(state_after(threshold, ticks.drop_last()), ticks.last(), threshold).0
    }
}

/// The alert raised at tick `i` of a run.
pub open spec fn alert_at(threshold: Price, ticks: Seq<Tick>, i: int) -> Option<Alert> {
    step(state_after(threshold, ticks.take(i)), ticks[i], threshold).1
}

/// Whether a tick brought a cross-rate below the threshold.
pub open spec fn tick_below(tick: Tick, threshold: Price) -> bool {
    match tick {
        Tick::Prices { leg1, leg2 } => is_below(leg1@, leg2@, threshold@),
        Tick::Failed => false,
    }
}

/// Over ticks that all bring prices, a crossing downwards is told exactly at the
/// first tick of each maximal run of rates below the threshold, and the recovery
/// exactly at the first tick at or above it that follows such a run; no other tick
/// raises an alert.
pub proof fn lemma_alert_once_per_excursion(threshold: Price, ticks: Seq<Tick>, i: int)
    requires
        forall|j: int| 0 <= j < ticks.len() ==> #[trigger] ticks[j] is Prices,
        0 <= i < ticks.len(),
    ensures
        (alert_at(threshold, ticks, i) matches Some(a) && a.under_threshold) <==> (tick_below(
            ticks[i],
            threshold,
        ) && (i == 0 || !tick_below(ticks[i - 1], threshold))),
        (alert_at(threshold, ticks, i) matches Some(a) && !a.under_threshold) <==> (!tick_below(
            ticks[i],
            threshold,
        ) && i > 0 && tick_below(ticks[i - 1], threshold)),
        alert_at(threshold, ticks, i) is Some <==> (tick_below(ticks[i], threshold) != (i > 0
            && tick_below(ticks[i - 1], threshold))),
{
    assert(ticks[i] is Prices);
    if i > 0 {
        assert(ticks[i - 1] is Prices);
        assert(ticks.take(i).drop_last() =~= ticks.take(i - 1));
        assert(ticks.take(i).last() == ticks[i - 1]);
    } else {
        assert(ticks.take(i).len() == 0);
    }
}

/// A tick on which a price could not be had leaves the state as it was and raises
/// no alert.
pub proof fn lemma_failed_tick_changes_nothing(threshold: Price, ticks: Seq<Tick>, i: int)
    requires
        0 <= i < ticks.len(),
        ticks[i] is Failed,
    ensures
        alert_at(threshold, ticks, i) is None,
        state_after(threshold, ticks.take(i + 1)) == state_after(threshold, ticks.take(i)),
{
    assert(ticks.take(i + 1).drop_last() =~= ticks.take(i));
    assert(ticks.take(i + 1).last() == ticks[i]);
}

} // verus!
