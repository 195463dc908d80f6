//! How many capture workers run, and on which CPUs.

use vstd::prelude::*;
use crate::common::sizes::NCPU;

verus! {

/// `c` is a decimal digit.
pub open spec fn is_digit(c: char) -> bool {
    '0' <= c && c <= '9'
}

/// The number that a string of decimal digits spells.
pub open spec fn digits_value(digits: Seq<char>) -> nat
    decreases digits.len(),
{
    if digits.len() == 0 {
        0
    } else {
        10 * digits_value(digits.drop_last()) + (digits.last() as nat - '0' as nat) as nat
    }
}

/// `text` without the plus sign that it may start with.
pub open spec fn unsigned(text: Seq<char>) -> Seq<char> {
    if text.len() > 0 && text[0] == '+' {
        text.drop_first()
    } else {
        text
    }
}

/// The number that `text` spells: decimal digits, at least one, behind at most
/// one plus sign.
pub open spec fn decimal(text: Seq<char>) -> Option<nat> {
    let digits = unsigned(text);
    if digits.len() > 0 && forall|i: int| 0 <= i < digits.len() ==> is_digit(#[trigger] digits[i]) {
        Some(digits_value(digits))
    } else {
        None
    }
}

/// Calls `str::parse::<usize>`: the number that the text spells, if it spells
/// one and that number fits.
#[verifier::external_body]
fn parse_usize(text: &str) -> (number: Option<usize>)
    ensures
        number == (match decimal(text@) {
            Some(value) => if value <= usize::MAX {
                Some(value as usize)
            } else {
                None
            },
            None => None,
        }),
{
    text.parse::<usize>().ok()
}

/// The number of workers that was asked for, at most one per CPU.
pub open spec fn capped_count(asked: Option<nat>) -> nat {
    match asked {
        Some(count) => if count <= NCPU {
            count
        } else {
            NCPU as nat
        },
        None => NCPU as nat,
    }
}

/// The number of workers to run, given what was asked for on the command line:
/// one per CPU if nothing legible was.
pub fn worker_count(argument: Option<&str>) -> (count: usize)
    ensures
        count == capped_count(match argument {
            Some(text) => decimal(text@),
            None => None,
        }),
{
    let asked: Option<usize> = match argument {
        Some(text) => parse_usize(text),
        None => None,
    };
    match asked {
        Some(count) => if count < NCPU {
            count
        } else {
            NCPU
        },
        None => NCPU,
    }
}

/// The slot table for the workers: the one signal ring goes to the first, and
/// the others have none.
pub fn build_ring_handles<R>(ring: R) -> (handles: Vec<Option<R>>)
    ensures
        handles@.len() == NCPU,
        handles@[0] == Some(ring),
        forall|i: int| 0 < i < NCPU ==> (#[trigger] handles@[i]) is None,
{
    let mut handles: Vec<Option<R>> = Vec::new();
    handles.push(Some(ring));
    while handles.len() < NCPU
        invariant
            1 <= handles@.len() <= NCPU,
            handles@[0] == Some(ring),
            forall|i: int| 0 < i < handles@.len() ==> (#[trigger] handles@[i]) is None,
        decreases NCPU - handles@.len(),
    {
        handles.push(None);
    }
    handles
}

/// `cpus` are those below `limit` that have a ring, each once, in order.
pub open spec fn are_the_workers<R>(cpus: Seq<usize>, handles: Seq<Option<R>>, limit: nat) -> bool {
    &&& forall|k: int, l: int| 0 <= k < l < cpus.len() ==> #[trigger] cpus[k] < #[trigger] cpus[l]
    &&& forall|k: int|
        0 <= k < cpus.len() ==> {
            &&& (#[trigger] cpus[k]) < limit
            &&& cpus[k] < handles.len()
            &&& handles[cpus[k] as int] is Some
        }
    &&& forall|cpu: int|
        0 <= cpu < limit && cpu < handles.len() && (#[trigger] handles[cpu]) is Some
            ==> cpus.contains(cpu as usize)
}

/// The CPUs that get a worker: those among the first `count` that have a ring.
pub fn worker_cpus<R>(handles: &Vec<Option<R>>, count: usize) -> (cpus: Vec<usize>)
    ensures
        are_the_workers(cpus@, handles@, count as nat),
{
    let mut cpus: Vec<usize> = Vec::new();
    let mut cpu: usize = 0;
    while cpu < count && cpu < handles.len()
        invariant
            cpu <= count,
            cpu <= handles@.len(),
            are_the_workers(cpus@, handles@, cpu as nat),
        decreases handles@.len() - cpu,
    {
        let ghost before = cpus@;
        if handles[cpu].is_some() {
            cpus.push(cpu);
            proof {
                assert forall|c: int|
                    0 <= c < cpu + 1 && c < handles@.len() && (
                    #[trigger] handles@[c]) is Some implies cpus@.contains(c as usize) by {
                    if c < cpu {
                        assert(before.contains(c as usize));
                        let k = choose|k: int| 0 <= k < before.len() && before[k] == c as usize;
                        assert(cpus@[k] == c as usize);
                    } else {
                        assert(cpus@[before.len() as int] == c as usize);
                    }
                }
            }
        }
        cpu = cpu + 1;
    }
    cpus
}

/// Why no capture runs.
#[derive(Clone, Copy, Debug, PartialEq, Eq, Structural)]
pub struct NoWorkers {
    /// Workers that were asked for.
    pub requested: usize,
}

/// The CPUs that get a worker. An engine without any worker would hold the
/// interface and capture nothing, so that is an error.
pub fn plan_workers<R>(handles: &Vec<Option<R>>, count: usize) -> (plan: Result<
    Vec<usize>,
    NoWorkers,
>)
    ensures
        plan is Ok <==> exists|cpu: int|
            0 <= cpu < count && cpu < handles@.len() && (#[trigger] handles@[cpu]) is Some,
        match plan {
            Ok(cpus) => are_the_workers(cpus@, handles@, count as nat),
            Err(e) => e.requested == count,
        },
{
    let cpus = worker_cpus(handles, count);
    if cpus.len() == 0 {
        return Err(NoWorkers { requested: count });
    }
    assert(handles@[cpus@[0] as int] is Some);
    Ok(cpus)
}

/// With the ring in the first slot alone, any positive number of workers comes
/// down to one worker, on the first CPU.
pub proof fn single_ring_means_one_worker<R>(cpus: Seq<usize>, handles: Seq<Option<R>>, count: nat)
    requires
        handles.len() == NCPU,
        handles[0] is Some,
        forall|i: int| 0 < i < NCPU ==> (#[trigger] handles[i]) is None,
        count > 0,
        are_the_workers(cpus, handles, count),
    ensures
        cpus == seq![0usize],
{
    assert(cpus.contains(0));
    assert forall|k: int| 0 <= k < cpus.len() implies cpus[k] == 0 by {
        assert(handles[cpus[k] as int] is Some);
    }
    assert(cpus.len() == 1) by {
        if cpus.len() > 1 {
            assert(cpus[0] < cpus[1]);
        }
    }
    assert(cpus =~= seq![0usize]);
}

/// How a number is read: one digit stands for itself, a digit behind a number
/// adds itself to ten times the number, a plus sign before a number changes
/// nothing, and a text without a digit, or with anything else in it, is no
/// number.
pub proof fn numbers_are_read_digit_by_digit(text: Seq<char>, c: char)
    ensures
        '0' <= c <= '9' ==> decimal(seq![c]) == Some((c as nat - 48) as nat),
        '0' <= c <= '9' && decimal(text) is Some ==> decimal(text.push(c)) == Some(
            (10 * decimal(text)->0 + (c as nat - 48)) as nat,
        ),
        !('0' <= c <= '9') ==> decimal(text.push(c)) is None,
        text.len() == 0 ==> decimal(text) is None,
        decimal(seq!['+']) is None,
        text.len() > 0 && text[0] != '+' ==> decimal(seq!['+'] + text) == decimal(text),
{
    reveal_with_fuel(digits_value, 2);
    let one = seq![c];
    assert(one.drop_last() =~= Seq::empty());
    let longer = text.push(c);
    if text.len() > 0 && text[0] == '+' {
        let digits = text.drop_first();
        assert(longer.drop_first() =~= digits.push(c));
        assert(digits.push(c).drop_last() =~= digits);
        if '0' <= c <= '9' && decimal(text) is Some {
            assert forall|i: int| 0 <= i < digits.push(c).len() implies is_digit(
                #[trigger] digits.push(c)[i],
            ) by {
                if i < digits.len() {
                    assert(is_digit(unsigned(text)[i]));
                }
            }
        }
        if !('0' <= c <= '9') {
            assert(!is_digit(unsigned(longer)[digits.len() as int]));
        }
    } else if text.len() > 0 {
        assert(longer.drop_last() =~= text);
        if '0' <= c <= '9' && decimal(text) is Some {
            assert forall|i: int| 0 <= i < longer.len() implies is_digit(#[trigger] longer[i]) by {
                if i < text.len() {
                    assert(is_digit(text[i]));
                }
            }
        }
        if !('0' <= c <= '9') {
            assert(!is_digit(longer[text.len() as int]));
        }
    } else {
        assert(longer =~= one);
        if !('0' <= c <= '9') {
            if c == '+' {
                assert(longer.drop_first().len() == 0);
            } else {
                assert(!is_digit(longer[0]));
            }
        }
    }
    assert(seq!['+'].drop_first().len() == 0);
    assert((seq!['+'] + text).drop_first() =~= text);
}

/// As many workers run as were asked for, but no more than 32, and 32 if
/// nothing legible was asked for.
pub proof fn at_most_one_worker_per_cpu(argument: Option<&str>, count: usize)
    requires
        call_ensures(worker_count, (argument,), count),
    ensures
        argument is None ==> count == 32,
        argument matches Some(text) ==> match decimal(text@) {
            Some(asked) if asked < 32 => count == asked,
            _ => count == 32,
        },
{
}

/// A CPU gets a worker exactly if it is among the first `count` and has a
/// ring, and the CPUs come in order, each once. The plan fails exactly if no
/// CPU gets a worker, and says how many were asked for.
pub proof fn a_cpu_with_a_ring_gets_a_worker<R>(
    handles: &Vec<Option<R>>,
    count: usize,
    cpus: Vec<usize>,
    plan: Result<Vec<usize>, NoWorkers>,
    cpu: usize,
)
    requires
        call_ensures(worker_cpus::<R>, (handles, count), cpus),
        call_ensures(plan_workers::<R>, (handles, count), plan),
    ensures
        cpus@.contains(cpu) <==> cpu < count && cpu < handles@.len() && handles@[cpu as int] is Some,
        forall|k: int, l: int| 0 <= k < l < cpus@.len() ==> cpus@[k] < cpus@[l],
        plan matches Ok(planned) ==> {
            &&& planned@.len() > 0
            &&& planned@.contains(cpu) <==> cpus@.contains(cpu)
            &&& forall|k: int, l: int| 0 <= k < l < planned@.len() ==> planned@[k] < planned@[l]
        },
        plan matches Err(e) ==> {
            &&& cpus@.len() == 0
            &&& e.requested == count
        },
{
    assert(cpus@.contains(cpu) ==> handles@[cpu as int] is Some);
    match plan {
        Ok(planned) => {
            assert(planned@.contains(cpu) ==> handles@[cpu as int] is Some);
            let some = choose|c: int|
                0 <= c < count && c < handles@.len() && (#[trigger] handles@[c]) is Some;
            assert(planned@.contains(some as usize));
        },
        Err(_) => {
            if cpus@.len() > 0 {
                assert(handles@[cpus@[0] as int] is Some);
            }
        },
    }
}

/// The one ring goes to the first of the 32 slots, and no other slot has one.
pub proof fn the_first_slot_has_the_ring<R>(ring: R, handles: Vec<Option<R>>, i: int)
    requires
        call_ensures(build_ring_handles::<R>, (ring,), handles),
        0 <= i < 32,
    ensures
        handles@.len() == 32,
        handles@[i] is Some <==> i == 0,
        handles@[0] == Some(ring),
{
}

} // verus!
