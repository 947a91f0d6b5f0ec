//! Waiting until an actor, or a gateway route, answers AIP health probes.
//!
//! The program that sends the probes and sleeps drives the loop: it starts
//! with [`readiness_start`], sends a probe (labelled [`probe_label`]) while
//! the deadline has not passed, hands each outcome to [`readiness_step`]
//! and sleeps as told; once the deadline passes it reports
//! [`readiness_deadline_error`]. Durations are in milliseconds.

use vstd::prelude::*;

use crate::errors::{ErrCode, GatewayDError};
use crate::message::types::Message;
use crate::readiness::health_probe::{actor_health_probe_succeeded, probe_ok};
use crate::text::{
    append_chars, append_str, chars_of, dec_digits, push_dec_digits_wide, push_zero_padded,
    string_from_chars, zero_pad,
};

verus! {

/// Tuning of the readiness loop; a zero field takes its default.
#[derive(Debug, Clone)]
pub struct ActorAIPReadinessConfig {
    /// Total budget (default 60 s).
    pub timeout: u128,
    /// First delay after a failed probe (default 2 s).
    pub initial_backoff: u128,
    /// Largest delay after a failed probe (default 8 s).
    pub max_backoff: u128,
    /// Successful probes in a row that count as ready (default 1).
    pub required_consecutive: u32,
    /// Delay between successful probes (default 2 s).
    pub success_interval: u128,
}

impl Default for ActorAIPReadinessConfig {
    /// All fields zero: every default applies.
    fn default() -> (r: Self)
        ensures
            r.timeout == 0,
            r.initial_backoff == 0,
            r.max_backoff == 0,
            r.required_consecutive == 0,
            r.success_interval == 0,
    {
        ActorAIPReadinessConfig {
            timeout: 0,
            initial_backoff: 0,
            max_backoff: 0,
            required_consecutive: 0,
            success_interval: 0,
        }
    }
}

/// A configuration whose fields are all set.
pub open spec fn is_normalized(rc: ActorAIPReadinessConfig) -> bool {
    rc.timeout > 0 && rc.initial_backoff > 0 && rc.max_backoff > 0 && rc.required_consecutive > 0
        && rc.success_interval > 0
}

impl ActorAIPReadinessConfig {
    /// The configuration with each zero field replaced by its default.
    pub fn normalized(self) -> (r: Self)
        ensures
            r.timeout == (if self.timeout == 0 { 60_000 } else { self.timeout }),
            r.initial_backoff == (if self.initial_backoff == 0 { 2000 } else { self.initial_backoff }),
            r.max_backoff == (if self.max_backoff == 0 { 8000 } else { self.max_backoff }),
            r.required_consecutive == (if self.required_consecutive == 0 {
                1
            } else {
                self.required_consecutive
            }),
            r.success_interval == (if self.success_interval == 0 {
                2000
            } else {
                self.success_interval
            }),
            is_normalized(r),
    {
        ActorAIPReadinessConfig {
            timeout: if self.timeout == 0 { 60_000 } else { self.timeout },
            initial_backoff: if self.initial_backoff == 0 { 2000 } else { self.initial_backoff },
            max_backoff: if self.max_backoff == 0 { 8000 } else { self.max_backoff },
            required_consecutive: if self.required_consecutive == 0 {
                1
            } else {
                self.required_consecutive
            },
            success_interval: if self.success_interval == 0 { 2000 } else { self.success_interval },
        }
    }
}

/// A stable anchor actor whose answers show that a gateway route serves
/// AIP again.
#[derive(Debug, Clone)]
pub struct GatewayReadinessProbe {
    pub probe_actor: String,
    pub probe_actor_type: String,
}

impl Default for GatewayReadinessProbe {
    /// No anchor named.
    fn default() -> (r: Self)
        ensures
            r.probe_actor@.len() == 0,
            r.probe_actor_type@.len() == 0,
    {
        GatewayReadinessProbe { probe_actor: String::new(), probe_actor_type: String::new() }
    }
}

/// A gateway probe must name its anchor actor.
pub fn check_gateway_probe(probe: &GatewayReadinessProbe) -> (r: Result<(), GatewayDError>)
    ensures
        r is Ok <==> probe.probe_actor@.len() > 0,
        r matches Err(e) ==> e.code == ErrCode::InvalidConfig && e.source is None && e.message@
            == "gateway readiness probe: probe_actor is required"@,
{
    if probe.probe_actor.as_str().unicode_len() == 0 {
        Err(
            GatewayDError::new(
                ErrCode::InvalidConfig,
                "gateway readiness probe: probe_actor is required",
            ),
        )
    } else {
        Ok(())
    }
}

/// The label under which probes to an actor are sent.
pub fn probe_label(actor_address: &str) -> (r: String)
    ensures
        r@ == "aip_ready_"@ + actor_address@,
{
    let mut m = chars_of("aip_ready_");
    append_str(&mut m, actor_address);
    string_from_chars(m.as_slice())
}

/// Where the loop stands: successful probes in a row, the next delay after
/// a failure, and what the last failure said.
#[derive(Debug)]
pub struct ReadinessState {
    pub consecutive: u32,
    pub backoff: u128,
    pub last_msg: String,
}

/// What the loop does next.
#[derive(Debug, Clone, Copy, PartialEq, Eq, Structural)]
pub enum ReadinessStep {
    /// Enough probes in a row succeeded.
    Ready,
    /// Sleep this long, then probe again if the deadline allows.
    Sleep(u128),
}

/// The state before the first probe.
pub fn readiness_start(rc: &ActorAIPReadinessConfig) -> (r: ReadinessState)
    ensures
        r.consecutive == 0,
        r.backoff == rc.initial_backoff,
        r.last_msg@ == "deadline exceeded"@,
{
    ReadinessState { consecutive: 0, backoff: rc.initial_backoff, last_msg: "deadline exceeded".to_owned() }
}

/// The delay after `backoff`: doubled, at most `max`, and left alone once
/// it has reached `max`.
pub open spec fn next_backoff(backoff: u128, max: u128) -> u128 {
    if backoff < max {
        if 2 * backoff < max {
            (2 * backoff) as u128
        } else {
            max
        }
    } else {
        backoff
    }
}

/// The failure delay never passes its maximum and never shrinks while
/// below it.
pub proof fn lemma_backoff_bounded(backoff: u128, max: u128)
    requires
        backoff <= max,
    ensures
        backoff <= next_backoff(backoff, max) <= max,
{
}

/// `b` doubled `k` times.
pub open spec fn doubled(b: nat, k: nat) -> nat
    decreases k,
{
    if k == 0 {
        b
    } else {
        2 * doubled(b, (k - 1) as nat)
    }
}

/// The failure delay after `k` failures in a row that began at `b`.
pub open spec fn backoff_after(b: u128, max: u128, k: nat) -> u128
    decreases k,
{
    if k == 0 {
        b
    } else {
        next_backoff(backoff_after(b, max, (k - 1) as nat), max)
    }
}

/// The failure delay grows exponentially up to its cap: after `k` failures
/// in a row from a delay `b` no greater than `max`, it is `b` doubled `k`
/// times, or `max` once that reaches it.
pub proof fn lemma_backoff_after_failures(b: u128, max: u128, k: nat)
    requires
        b <= max,
    ensures
        backoff_after(b, max, k) == if doubled(b as nat, k) < max {
            doubled(b as nat, k)
        } else {
            max as nat
        },
    decreases k,
{
    if k > 0 {
        lemma_backoff_after_failures(b, max, (k - 1) as nat);
        let prev = doubled(b as nat, (k - 1) as nat);
        assert(doubled(b as nat, k) == 2 * prev);
        if prev >= max {
            assert(2 * prev >= max);
        }
    }
}

/// The outcome of one probe: ready after `required_consecutive` successes
/// in a row, else sleep `success_interval` after a success (the failure
/// delay starts over) or the current backoff after a failure (which resets
/// the run, records why and doubles the backoff up to its maximum).
pub fn readiness_step(
    rc: &ActorAIPReadinessConfig,
    st: &mut ReadinessState,
    outcome: &Result<Message, GatewayDError>,
) -> (r: ReadinessStep)
    requires
        is_normalized(*rc),
        old(st).consecutive < rc.required_consecutive,
    ensures
        ({
            let ok = match outcome {
                Ok(m) => probe_ok(None, Some(*m)),
                Err(_) => false,
            };
            if ok {
                &&& final(st).consecutive == old(st).consecutive + 1
                &&& final(st).last_msg == old(st).last_msg
                &&& if final(st).consecutive >= rc.required_consecutive {
                    r == ReadinessStep::Ready && final(st).backoff == old(st).backoff
                } else {
                    r == ReadinessStep::Sleep(rc.success_interval) && final(st).backoff
                        == rc.initial_backoff
                }
            } else {
                &&& final(st).consecutive == 0
                &&& r == ReadinessStep::Sleep(old(st).backoff)
                &&& final(st).backoff == next_backoff(old(st).backoff, rc.max_backoff)
                &&& final(st).last_msg@ == match outcome {
                    Ok(m) => "actor returned error: "@ + m.spec_processing_message(),
                    Err(e) => e.message@,
                }
            }
        }),
        final(st).consecutive < rc.required_consecutive || r == ReadinessStep::Ready,
{
    let ok = match outcome {
        Ok(m) => actor_health_probe_succeeded(None, Some(m)),
        Err(_) => false,
    };
    if ok {
        st.consecutive = st.consecutive + 1;
        if st.consecutive >= rc.required_consecutive {
            return ReadinessStep::Ready;
        }
        st.backoff = rc.initial_backoff;
        return ReadinessStep::Sleep(rc.success_interval);
    }
    match outcome {
        Ok(m) => {
            let mut t = chars_of("actor returned error: ");
            append_str(&mut t, m.processing_message());
            st.last_msg = string_from_chars(t.as_slice());
        },
        Err(e) => {
            st.last_msg = e.message.clone();
        },
    }
    st.consecutive = 0;
    let wait = st.backoff;
    if st.backoff < rc.max_backoff {
        st.backoff = if st.backoff >= rc.max_backoff - st.backoff {
            rc.max_backoff
        } else {
            st.backoff * 2
        };
    }
    ReadinessStep::Sleep(wait)
}

/// The fraction of a second in `rem` milliseconds (1 to 999), without
/// trailing zeros.
pub open spec fn millis_fraction(rem: nat) -> Seq<char> {
    if rem % 100 == 0 {
        dec_digits(rem / 100)
    } else if rem % 10 == 0 {
        zero_pad(dec_digits(rem / 10), 2)
    } else {
        zero_pad(dec_digits(rem), 3)
    }
}

/// How a duration of `ms` milliseconds is shown (`Debug` of a duration):
/// `0ns`, `<ms>ms` below a second, else seconds with the significant
/// fraction, as in `60s` or `1.5s`.
pub open spec fn duration_text(ms: nat) -> Seq<char> {
    if ms == 0 {
        "0ns"@
    } else if ms < 1000 {
        dec_digits(ms) + "ms"@
    } else if ms % 1000 == 0 {
        dec_digits(ms / 1000) + "s"@
    } else {
        dec_digits(ms / 1000) + "."@ + millis_fraction(ms % 1000) + "s"@
    }
}

fn push_duration(out: &mut Vec<char>, ms: u128)
    ensures
        final(out)@ == old(out)@ + duration_text(ms as nat),
{
    if ms == 0 {
        append_str(out, "0ns");
    } else if ms < 1000 {
        push_dec_digits_wide(out, ms);
        append_str(out, "ms");
    } else {
        push_dec_digits_wide(out, ms / 1000);
        let rem = ms % 1000;
        if rem != 0 {
            append_str(out, ".");
            let mut d: Vec<char> = Vec::new();
            if rem % 100 == 0 {
                push_dec_digits_wide(&mut d, rem / 100);
                append_chars(out, d.as_slice());
            } else if rem % 10 == 0 {
                push_dec_digits_wide(&mut d, rem / 10);
                push_zero_padded(out, &d, 2);
            } else {
                push_dec_digits_wide(&mut d, rem);
                push_zero_padded(out, &d, 3);
            }
        }
        append_str(out, "s");
    }
}

/// The error once the deadline passed without the actor becoming ready.
pub fn readiness_deadline_error(actor_address: &str, timeout: u128, last_msg: &str) -> (r:
    GatewayDError)
    ensures
        r.code == ErrCode::GatewayError,
        r.source is None,
        r.message@ == "actor "@ + actor_address@ + " not reachable over AIP within "@
            + duration_text(timeout as nat) + ": "@ + last_msg@,
{
    let mut m = chars_of("actor ");
    append_str(&mut m, actor_address);
    append_str(&mut m, " not reachable over AIP within ");
    push_duration(&mut m, timeout);
    append_str(&mut m, ": ");
    append_str(&mut m, last_msg);
    GatewayDError { code: ErrCode::GatewayError, message: string_from_chars(m.as_slice()), source: None }
}

} // verus!
