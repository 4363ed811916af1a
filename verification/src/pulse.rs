//! Pulse-duration sampling by busy polling.
//!
//! Elapsed time is inferred by counting poll iterations while the line
//! holds one logic level; no wall clock is consulted while bits are
//! sampled. The handshake that precedes the data seeds a per-read bit
//! timeout, so a line that loses synchronisation mid-frame is caught
//! without any fixed timing constant.
//!
//! Every query of the line consumes one recorded sample, including the
//! query that ends a run, exactly as a busy poll of a live line would
//! observe one level per iteration.

use vstd::prelude::*;

use crate::line::InputLine;

verus! {

/// Index of the first sample at or after `from` that differs from `lv`,
/// or `None` when the line holds `lv` forever from `from` on. An index
/// equal to the recording length stands for the first default-level
/// sample.
pub open spec fn run_end(levels: Seq<bool>, default: bool, from: int, lv: bool) -> Option<int>
    decreases levels.len() - from,
{
    if from >= levels.len() {
        if default == lv {
            None
        } else {
            Some(from)
        }
    } else if levels[from] != lv {
        Some(from)
    } else {
        run_end(levels, default, from + 1, lv)
    }
}

/// The cursor after a run ending at `e`: the breaking sample is consumed
/// when it came from the recording.
pub open spec fn after_run(levels: Seq<bool>, e: int) -> int {
    if e < levels.len() {
        e + 1
    } else {
        e
    }
}

/// A run end lies between its start and the recording length, the run
/// itself holds `lv`, and a missing run end means the line is stuck.
pub proof fn lemma_run_end_props(levels: Seq<bool>, default: bool, from: int, lv: bool)
    requires
        0 <= from <= levels.len(),
    ensures
        match run_end(levels, default, from, lv) {
            Some(e) => {
                &&& from <= e <= levels.len()
                &&& forall|i: int| from <= i < e ==> levels[i] == lv
                &&& (e < levels.len() ==> levels[e] != lv)
                &&& (e == levels.len() ==> default != lv)
            },
            None => default == lv && forall|i: int| from <= i < levels.len() ==> levels[i] == lv,
        },
    decreases levels.len() - from,
{
    if from < levels.len() && levels[from] == lv {
        lemma_run_end_props(levels, default, from + 1, lv);
    }
}

/// Counts poll iterations, on top of `start`, while the line reads `lv`.
/// Returns `None` when the line will read `lv` forever, which a caller
/// maps to its own notion of an absent device.
#[verifier::loop_isolation(false)]
fn count_run(line: &mut InputLine, lv: bool, start: u64) -> (r: Option<u64>)
    requires
        old(line).wf(),
        start + old(line).levels().len() <= u64::MAX,
    ensures
        final(line).wf(),
        final(line).levels() == old(line).levels(),
        final(line).default_level() == old(line).default_level(),
        match run_end(old(line).levels(), old(line).default_level(), old(line).cursor(), lv) {
            Some(e) => {
                &&& r == Some((start + e - old(line).cursor()) as u64)
                &&& final(line).cursor() == after_run(old(line).levels(), e)
            },
            None => r is None && final(line).cursor() == old(line).levels().len(),
        },
{
    let ghost levels = old(line).levels();
    let ghost default = old(line).default_level();
    let ghost from = old(line).cursor();
    proof {
        lemma_run_end_props(levels, default, from, lv);
    }
    let mut counter: u64 = start;
    loop
        invariant
            line.wf(),
            line.levels() == levels,
            line.default_level() == default,
            from <= line.cursor() <= levels.len(),
            start + levels.len() <= u64::MAX,
            counter == start + line.cursor() - from,
            run_end(levels, default, line.cursor(), lv) == run_end(levels, default, from, lv),
        decreases levels.len() - line.cursor(),
    {
        if line.is_exhausted() {
            if line.default_level_is() == lv {
                return None;
            } else {
                return Some(counter);
            }
        }
        let s = line.sample();
        if s == lv {
            counter = counter + 1;
        } else {
            return Some(counter);
        }
    }
}

/// Counts poll iterations, on top of `start`, while the line reads `lv`,
/// giving up once the count passes `timeout`. `None` covers both a line
/// stuck at `lv` and a run too long for the budget: synchronisation with
/// the frame is lost either way.
#[verifier::loop_isolation(false)]
fn count_run_with_timeout(line: &mut InputLine, lv: bool, start: u64, timeout: u64) -> (r: Option<
    u64,
>)
    requires
        old(line).wf(),
        timeout < u64::MAX,
    ensures
        final(line).wf(),
        final(line).levels() == old(line).levels(),
        final(line).default_level() == old(line).default_level(),
        old(line).cursor() <= final(line).cursor() <= old(line).levels().len(),
        start > timeout ==> r is None && final(line).cursor() == old(line).cursor(),
        start <= timeout ==> match run_end(
            old(line).levels(),
            old(line).default_level(),
            old(line).cursor(),
            lv,
        ) {
            Some(e) => {
                if start + e - old(line).cursor() <= timeout {
                    &&& r == Some((start + e - old(line).cursor()) as u64)
                    &&& final(line).cursor() == after_run(old(line).levels(), e)
                } else {
                    &&& r is None
                    &&& final(line).cursor() == old(line).cursor() + (timeout + 1) - start
                }
            },
            None => r is None && final(line).cursor() == vstd::math::min(
                old(line).levels().len() as int,
                old(line).cursor() + (timeout + 1) - start,
            ),
        },
{
    let ghost levels = old(line).levels();
    let ghost default = old(line).default_level();
    let ghost from = old(line).cursor();
    proof {
        lemma_run_end_props(levels, default, from, lv);
    }
    if start > timeout {
        // The budget was already spent before this run began.
        return None;
    }
    let mut counter: u64 = start;
    loop
        invariant
            line.wf(),
            line.levels() == levels,
            line.default_level() == default,
            from <= line.cursor() <= levels.len(),
            timeout < u64::MAX,
            start <= counter <= timeout,
            counter == start + line.cursor() - from || (line.exhausted() && default == lv
                && counter >= start + line.cursor() - from),
            run_end(levels, default, line.cursor(), lv) == run_end(levels, default, from, lv),
        decreases timeout - counter,
    {
        let ghost cur = line.cursor();
        proof {
            lemma_run_end_props(levels, default, cur, lv);
        }
        let s = line.sample();
        if s == lv {
            counter = counter + 1;
            if counter > timeout {
                return None;
            }
        } else {
            return Some(counter);
        }
    }
}

/// Where the replay stands after the three handshake phases, and how
/// many iterations they took: the line is awaited high, then low, then
/// high again. `None` means the handshake never completed.
pub open spec fn ack_outcome(levels: Seq<bool>, default: bool, from: int) -> Option<(int, int)> {
    match run_end(levels, default, from, true) {
        None => None,
        Some(e1) => {
            let f1 = after_run(levels, e1);
            match run_end(levels, default, f1, false) {
                None => None,
                Some(e2) => {
                    let f2 = after_run(levels, e2);
                    match run_end(levels, default, f2, true) {
                        None => None,
                        Some(e3) => Some(
                            (
                                (e1 - from) + (e2 - f1) + (e3 - f2),
                                after_run(levels, e3),
                            ),
                        ),
                    }
                },
            }
        },
    }
}

/// Reads the handshake the sensor sends before its data bits: high, low,
/// high. The returned iteration count seeds the per-read bit timeout.
/// `None` reports a device that never answered; in particular a line
/// that never toggles at all is reported absent.
pub fn read_ack(line: &mut InputLine) -> (r: Option<u64>)
    requires
        old(line).wf(),
    ensures
        final(line).wf(),
        final(line).levels() == old(line).levels(),
        final(line).default_level() == old(line).default_level(),
        old(line).cursor() <= final(line).cursor() <= old(line).levels().len(),
        match ack_outcome(old(line).levels(), old(line).default_level(), old(line).cursor()) {
            Some(o) => r == Some(o.0 as u64) && final(line).cursor() == o.1 && 0 <= o.0 <= 3 * old(
                line,
            ).levels().len(),
            None => r is None && final(line).cursor() == old(line).levels().len(),
        },
        (old(line).stuck(true) || old(line).stuck(false)) ==> r is None,
    {
    let ghost levels = old(line).levels();
    let ghost default = old(line).default_level();
    let ghost from = old(line).cursor();
    proof {
        lemma_run_end_props(levels, default, from, true);
        if old(line).stuck(false) {
            // The first high wait ends at once, and the low wait that
            // follows never ends.
            let e1 = run_end(levels, default, from, true);
            if e1 is Some {
                lemma_run_end_props(levels, default, after_run(levels, e1.unwrap()), false);
            }
        }
    }
    let c1 = match count_run(line, true, 0) {
        None => {
            return None;
        },
        Some(c) => c,
    };
    proof {
        lemma_run_end_props(levels, default, line.cursor(), false);
    }
    let c2 = match count_run(line, false, c1) {
        None => {
            return None;
        },
        Some(c) => c,
    };
    proof {
        lemma_run_end_props(levels, default, line.cursor(), true);
    }
    let c3 = match count_run(line, true, c2) {
        None => {
            return None;
        },
        Some(c) => c,
    };
    Some(c3)
}

/// Iteration count of one data bit and the replay position after it:
/// the low phase and the high phase of the bit, summed, each bounded by
/// the timeout budget. `None` means synchronisation was lost.
pub open spec fn bit_outcome(levels: Seq<bool>, default: bool, from: int, timeout: int) -> Option<
    (int, int),
> {
    match run_end(levels, default, from, false) {
        None => None,
        Some(e1) => {
            if e1 - from > timeout {
                None
            } else {
                let f1 = after_run(levels, e1);
                match run_end(levels, default, f1, true) {
                    None => None,
                    Some(e2) => {
                        let c = (e1 - from) + (e2 - f1);
                        if c > timeout {
                            None
                        } else {
                            Some((c, after_run(levels, e2)))
                        }
                    },
                }
            }
        },
    }
}

/// Where the replay stands after a data bit whose sampling lost
/// synchronisation: the poll loops consume samples until the budget is
/// spent or the recording runs dry.
pub open spec fn bit_fail_cursor(levels: Seq<bool>, default: bool, from: int, timeout: int) -> int
    recommends
        bit_outcome(levels, default, from, timeout) is None,
{
    match run_end(levels, default, from, false) {
        None => vstd::math::min(levels.len() as int, from + timeout + 1),
        Some(e1) => {
            let c1 = e1 - from;
            if c1 > timeout {
                from + timeout + 1
            } else {
                let f1 = after_run(levels, e1);
                match run_end(levels, default, f1, true) {
                    None => vstd::math::min(levels.len() as int, f1 + (timeout + 1) - c1),
                    Some(_) => f1 + (timeout + 1) - c1,
                }
            }
        },
    }
}

/// Samples one data bit: counts iterations while the line is low, then
/// while it is high; the sum is the bit's duration. `None` when either
/// phase outlives the timeout budget.
pub fn read_bit_with_timeout(line: &mut InputLine, timeout: u64) -> (r: Option<u64>)
    requires
        old(line).wf(),
        timeout < u64::MAX,
    ensures
        final(line).wf(),
        final(line).levels() == old(line).levels(),
        final(line).default_level() == old(line).default_level(),
        old(line).cursor() <= final(line).cursor() <= old(line).levels().len(),
        match bit_outcome(
            old(line).levels(),
            old(line).default_level(),
            old(line).cursor(),
            timeout as int,
        ) {
            Some(o) => r == Some(o.0 as u64) && final(line).cursor() == o.1 && 0 <= o.0
                <= timeout,
            None => r is None && final(line).cursor() == bit_fail_cursor(
                old(line).levels(),
                old(line).default_level(),
                old(line).cursor(),
                timeout as int,
            ),
        },
{
    let ghost levels = old(line).levels();
    let ghost default = old(line).default_level();
    let ghost from = old(line).cursor();
    proof {
        lemma_run_end_props(levels, default, from, false);
    }
    let c1 = match count_run_with_timeout(line, false, 0, timeout) {
        None => {
            return None;
        },
        Some(c) => c,
    };
    proof {
        lemma_run_end_props(levels, default, line.cursor(), true);
    }
    let c2 = match count_run_with_timeout(line, true, c1, timeout) {
        None => {
            return None;
        },
        Some(c) => c,
    };
    Some(c2)
}

/// Samples the reserved end pulse after the checksum byte: the length of
/// the final low phase. `None` when it outlives the timeout budget.
pub fn read_end_with_timeout(line: &mut InputLine, timeout: u64) -> (r: Option<u64>)
    requires
        old(line).wf(),
        timeout < u64::MAX,
    ensures
        final(line).wf(),
        final(line).levels() == old(line).levels(),
        final(line).default_level() == old(line).default_level(),
        old(line).cursor() <= final(line).cursor() <= old(line).levels().len(),
        match run_end(old(line).levels(), old(line).default_level(), old(line).cursor(), false) {
            Some(e) => {
                if e - old(line).cursor() <= timeout {
                    &&& r == Some((e - old(line).cursor()) as u64)
                    &&& 0 <= e - old(line).cursor()
                    &&& final(line).cursor() == after_run(old(line).levels(), e)
                } else {
                    &&& r is None
                    &&& final(line).cursor() == old(line).cursor() + timeout + 1
                }
            },
            None => r is None && final(line).cursor() == vstd::math::min(
                old(line).levels().len() as int,
                old(line).cursor() + timeout + 1,
            ),
        },
{
    proof {
        lemma_run_end_props(
            old(line).levels(),
            old(line).default_level(),
            old(line).cursor(),
            false,
        );
    }
    count_run_with_timeout(line, false, 0, timeout)
}

/// The durations of `n` consecutive data bits and the replay position
/// after them. `None` when any bit loses synchronisation.
pub open spec fn bits_outcome(
    levels: Seq<bool>,
    default: bool,
    from: int,
    timeout: int,
    n: nat,
) -> Option<(Seq<u64>, int)>
    decreases n,
{
    if n == 0 {
        Some((Seq::empty(), from))
    } else {
        match bit_outcome(levels, default, from, timeout) {
            None => None,
            Some(o) => match bits_outcome(levels, default, o.1, timeout, (n - 1) as nat) {
                None => None,
                Some(rest) => Some((seq![o.0 as u64] + rest.0, rest.1)),
            },
        }
    }
}

/// Where the replay stands after sampling `n` bits lost
/// synchronisation: the bits before the failing one are consumed whole.
pub open spec fn bits_fail_cursor(
    levels: Seq<bool>,
    default: bool,
    from: int,
    timeout: int,
    n: nat,
) -> int
    recommends
        bits_outcome(levels, default, from, timeout, n) is None,
    decreases n,
{
    if n == 0 {
        from
    } else {
        match bit_outcome(levels, default, from, timeout) {
            None => bit_fail_cursor(levels, default, from, timeout),
            Some(o) => bits_fail_cursor(levels, default, o.1, timeout, (n - 1) as nat),
        }
    }
}

/// Samples the forty data bits of one frame against the given timeout
/// budget.
#[verifier::loop_isolation(false)]
pub fn sample_bits(line: &mut InputLine, timeout: u64) -> (r: Option<Vec<u64>>)
    requires
        old(line).wf(),
        timeout < u64::MAX,
    ensures
        final(line).wf(),
        final(line).levels() == old(line).levels(),
        final(line).default_level() == old(line).default_level(),
        old(line).cursor() <= final(line).cursor() <= old(line).levels().len(),
        match bits_outcome(
            old(line).levels(),
            old(line).default_level(),
            old(line).cursor(),
            timeout as int,
            40,
        ) {
            Some(o) => r is Some && r.unwrap()@ == o.0 && o.0.len() == 40 && final(line).cursor()
                == o.1,
            None => r is None && final(line).cursor() == bits_fail_cursor(
                old(line).levels(),
                old(line).default_level(),
                old(line).cursor(),
                timeout as int,
                40,
            ),
        },
{
    let ghost levels = old(line).levels();
    let ghost default = old(line).default_level();
    let ghost from = old(line).cursor();
    let mut ticks: Vec<u64> = Vec::new();
    let mut i: usize = 0;
    while i < 40
        invariant
            0 <= i <= 40,
            line.wf(),
            line.levels() == levels,
            line.default_level() == default,
            from <= line.cursor() <= levels.len(),
            timeout < u64::MAX,
            ticks@.len() == i,
            match bits_outcome(levels, default, line.cursor(), timeout as int, (40 - i) as nat) {
                Some(o) => bits_outcome(levels, default, from, timeout as int, 40) == Some(
                    ((ticks@ + o.0), o.1),
                ),
                None => bits_outcome(levels, default, from, timeout as int, 40) is None
                    && bits_fail_cursor(levels, default, from, timeout as int, 40)
                    == bits_fail_cursor(levels, default, line.cursor(), timeout as int, (40
                    - i) as nat),
            },
        decreases 40 - i,
    {
        let ghost cur = line.cursor();
        let ghost pre_ticks = ticks@;
        let t = match read_bit_with_timeout(line, timeout) {
            None => {
                proof {
                    lemma_bits_outcome_none(levels, default, cur, timeout as int, (40 - i) as nat);
                }
                return None;
            },
            Some(t) => t,
        };
        ticks.push(t);
        i = i + 1;
        proof {
            let o = bit_outcome(levels, default, cur, timeout as int);
            assert(o is Some);
            let rest = bits_outcome(levels, default, o.unwrap().1, timeout as int, (40 - i) as nat);
            if rest is Some {
                assert(pre_ticks + (seq![o.unwrap().0 as u64] + rest.unwrap().0) =~= ticks@
                    + rest.unwrap().0);
            }
        }
    }
    proof {
        assert(bits_outcome(levels, default, line.cursor(), timeout as int, 0) == Some(
            (Seq::<u64>::empty(), line.cursor()),
        ));
        let o = bits_outcome(levels, default, from, timeout as int, 40);
        assert(o is Some);
        assert(ticks@ + Seq::<u64>::empty() =~= ticks@);
    }
    Some(ticks)
}

/// A bit cannot be sampled where the very first bit loses
/// synchronisation.
proof fn lemma_bits_outcome_none(levels: Seq<bool>, default: bool, from: int, timeout: int, n: nat)
    requires
        n >= 1,
        bit_outcome(levels, default, from, timeout) is None,
    ensures
        bits_outcome(levels, default, from, timeout, n) is None,
{
}

} // verus!
