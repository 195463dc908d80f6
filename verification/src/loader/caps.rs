//! The privileges that the loader needs.

use vstd::prelude::*;
use std::io;

verus! {

/// An operating-system error. Opaque here.
#[verifier::external_type_specification]
#[verifier::external_body]
pub struct ExIoError(std::io::Error);

/// An error of the capability query. Opaque here.
#[verifier::external_type_specification]
#[verifier::external_body]
pub struct ExCapsError(caps::errors::CapsError);

/// Why the loader may not run.
#[derive(Debug)]
pub enum CapabilityError {
    /// The process may not load probes.
    MissingCapBpf,
    /// The process may not attach probes to interfaces.
    MissingCapNetAdmin,
    /// The system could not say.
    CheckFailed(io::Error),
}

impl CapabilityError {
    /// What is wrong and what an operator can do about it. A failed check
    /// carries the system's own error besides.
    pub fn message(&self) -> (text: &'static str)
        ensures
            text@ == match *self {
                CapabilityError::MissingCapBpf =>
                    "missing CAP_BPF — run as root or: setcap cap_bpf+ep <binary>  (see `man 7 capabilities`)"@,
                CapabilityError::MissingCapNetAdmin =>
                    "missing CAP_NET_ADMIN — XDP attachment requires this capability  (see `man 7 capabilities`)"@,
                CapabilityError::CheckFailed(_) => "capability check failed"@,
            },
    {
        match self {
            CapabilityError::MissingCapBpf =>
                "missing CAP_BPF — run as root or: setcap cap_bpf+ep <binary>  (see `man 7 capabilities`)",
            CapabilityError::MissingCapNetAdmin =>
                "missing CAP_NET_ADMIN — XDP attachment requires this capability  (see `man 7 capabilities`)",
            CapabilityError::CheckFailed(_) => "capability check failed",
        }
    }
}

/// A privilege that the loader needs.
#[derive(Clone, Copy, Debug, PartialEq, Eq, Structural)]
pub enum RequiredCap {
    /// Loading and managing probes and maps.
    Bpf,
    /// Attaching probes to interfaces.
    NetAdmin,
}

/// Calls `caps::has_cap` for the effective set of the current thread. The
/// answer depends on the process, so nothing is said of it.
#[verifier::external_body]
fn has_effective(cap: RequiredCap) -> (held: Result<bool, caps::errors::CapsError>) {
    match cap {
        RequiredCap::Bpf => caps::has_cap(None, caps::CapSet::Effective, caps::Capability::CAP_BPF),
        RequiredCap::NetAdmin => caps::has_cap(
            None,
            caps::CapSet::Effective,
            caps::Capability::CAP_NET_ADMIN,
        ),
    }
}

/// Calls `std::io::Error::new` with the kind `Other`. Nothing is said of the
/// error that comes out.
#[verifier::external_body]
fn as_io_error(e: caps::errors::CapsError) -> io::Error {
    io::Error::new(io::ErrorKind::Other, e)
}

/// What follows from the system's answer about one privilege.
pub open spec fn granted(cap: RequiredCap, answer: Result<bool, io::Error>) -> Result<
    (),
    CapabilityError,
> {
    match answer {
        Ok(true) => Ok(()),
        Ok(false) => match cap {
            RequiredCap::Bpf => Err(CapabilityError::MissingCapBpf),
            RequiredCap::NetAdmin => Err(CapabilityError::MissingCapNetAdmin),
        },
        Err(e) => Err(CapabilityError::CheckFailed(e)),
    }
}

/// What follows from the system's answers about both: the first that is not
/// granted decides, probe loading before interfaces.
pub open spec fn both_granted(
    bpf: Result<bool, io::Error>,
    net_admin: Result<bool, io::Error>,
) -> Result<(), CapabilityError> {
    match granted(RequiredCap::Bpf, bpf) {
        Ok(_) => granted(RequiredCap::NetAdmin, net_admin),
        Err(e) => Err(e),
    }
}

/// What follows from an answer about both at once.
pub open spec fn pair_granted(answer: Result<(bool, bool), io::Error>) -> Result<
    (),
    CapabilityError,
> {
    match answer {
        Ok((bpf, net_admin)) => both_granted(Ok(bpf), Ok(net_admin)),
        Err(e) => Err(CapabilityError::CheckFailed(e)),
    }
}

/// Judges the system's answer about one privilege.
pub fn require_cap(cap: RequiredCap, answer: Result<bool, io::Error>) -> (verdict: Result<
    (),
    CapabilityError,
>)
    ensures
        verdict == granted(cap, answer),
{
    match answer {
        Ok(held) => if held {
            Ok(())
        } else {
            match cap {
                RequiredCap::Bpf => Err(CapabilityError::MissingCapBpf),
                RequiredCap::NetAdmin => Err(CapabilityError::MissingCapNetAdmin),
            }
        },
        Err(e) => Err(CapabilityError::CheckFailed(e)),
    }
}

/// `held` is a reply of the system to the question whether `cap` is held.
pub closed spec fn system_replied(
    cap: RequiredCap,
    held: Result<bool, caps::errors::CapsError>,
) -> bool {
    call_ensures(has_effective, (cap,), held)
}

/// Asks the system about one privilege.
pub fn query(cap: RequiredCap) -> (answer: Result<bool, io::Error>)
    ensures
        exists|held: Result<bool, caps::errors::CapsError>| #[trigger]
            system_replied(cap, held) && is_answer(held, answer),
{
    let answer = query_with(&has_effective, cap);
    proof {
        let held = choose|held: Result<bool, caps::errors::CapsError>| #[trigger]
            call_ensures(has_effective, (cap,), held) && is_answer(held, answer);
        assert(system_replied(cap, held));
    }
    answer
}

/// Asks about one privilege with the given way of asking.
fn query_with<H: Fn(RequiredCap) -> Result<bool, caps::errors::CapsError>>(
    ask: &H,
    cap: RequiredCap,
) -> (answer: Result<bool, io::Error>)
    requires
        ask.requires((cap,)),
    ensures
        exists|held: Result<bool, caps::errors::CapsError>| #[trigger]
            ask.ensures((cap,), held) && is_answer(held, answer),
{
    let held = ask(cap);
    let ghost reply = held;
    assert(ask.ensures((cap,), reply));
    as_answer(held)
}

/// `answer` passes the system's reply `held` on: what it says of the privilege
/// unchanged, and a failed query as a failure. Which error a failure carries
/// is the system's.
pub open spec fn is_answer(
    held: Result<bool, caps::errors::CapsError>,
    answer: Result<bool, io::Error>,
) -> bool {
    match held {
        Ok(has) => answer == Ok::<bool, io::Error>(has),
        Err(_) => answer is Err,
    }
}

/// Turns the system's reply into an answer.
pub fn as_answer(held: Result<bool, caps::errors::CapsError>) -> (answer: Result<bool, io::Error>)
    ensures
        is_answer(held, answer),
{
    match held {
        Ok(has) => Ok(has),
        Err(e) => Err(as_io_error(e)),
    }
}

/// `verdict` follows from two answers of `ask`: probe loading is asked for
/// first, and interfaces only once that is granted.
pub open spec fn follows_from<Q: Fn(RequiredCap) -> Result<bool, io::Error>>(
    ask: Q,
    verdict: Result<(), CapabilityError>,
) -> bool {
    exists|bpf: Result<bool, io::Error>| #[trigger]
        ask.ensures((RequiredCap::Bpf,), bpf) && (match granted(RequiredCap::Bpf, bpf) {
            Err(e) => verdict == Err::<(), CapabilityError>(e),
            Ok(_) => exists|net_admin: Result<bool, io::Error>| #[trigger]
                ask.ensures((RequiredCap::NetAdmin,), net_admin) && verdict == granted(
                    RequiredCap::NetAdmin,
                    net_admin,
                ),
        })
}

/// Checks both privileges, one after the other, with the given query.
pub fn verify_with_query<Q: Fn(RequiredCap) -> Result<bool, io::Error>>(ask: &Q) -> (verdict:
    Result<(), CapabilityError>)
    requires
        forall|cap: RequiredCap| #[trigger] ask.requires((cap,)),
    ensures
        follows_from(*ask, verdict),
{
    let bpf = ask(RequiredCap::Bpf);
    assert(ask.ensures((RequiredCap::Bpf,), bpf));
    if let Err(e) = require_cap(RequiredCap::Bpf, bpf) {
        return Err(e);
    }
    let net_admin = ask(RequiredCap::NetAdmin);
    assert(ask.ensures((RequiredCap::NetAdmin,), net_admin));
    require_cap(RequiredCap::NetAdmin, net_admin)
}

/// Checks that the process holds both privileges: what the system answers to
/// [`query`] decides, probe loading first.
pub fn verify_capabilities() -> (verdict: Result<(), CapabilityError>)
    ensures
        follows_from(query, verdict),
{
    verify_with_query(&query)
}

/// Checks both privileges with the caller's own query.
pub fn verify_with_checker<F: Fn() -> Result<(bool, bool), io::Error>>(checker: F) -> (verdict:
    Result<(), CapabilityError>)
    requires
        checker.requires(()),
    ensures
        exists|answer: Result<(bool, bool), io::Error>| #[trigger]
            checker.ensures((), answer) && verdict == pair_granted(answer),
{
    let answer = checker();
    assert(checker.ensures((), answer));
    match answer {
        Ok((bpf, net_admin)) => {
            if let Err(e) = require_cap(RequiredCap::Bpf, Ok(bpf)) {
                return Err(e);
            }
            require_cap(RequiredCap::NetAdmin, Ok(net_admin))
        },
        Err(e) => Err(CapabilityError::CheckFailed(e)),
    }
}

/// Success needs both privileges, and of two missing ones the first is named.
pub proof fn both_privileges_are_needed(
    bpf: Result<bool, io::Error>,
    net_admin: Result<bool, io::Error>,
)
    ensures
        both_granted(bpf, net_admin) is Ok <==> bpf == Ok::<bool, io::Error>(true) && net_admin
            == Ok::<bool, io::Error>(true),
        bpf == Ok::<bool, io::Error>(false) ==> both_granted(bpf, net_admin) == Err::<
            (),
            CapabilityError,
        >(CapabilityError::MissingCapBpf),
{
}

/// What one answer means: a privilege that is held is fine, one that is not is
/// named, and a failed check hands the system's error on.
pub proof fn answers_are_judged_by_what_they_say(
    cap: RequiredCap,
    answer: Result<bool, io::Error>,
    verdict: Result<(), CapabilityError>,
)
    requires
        call_ensures(require_cap, (cap, answer), verdict),
    ensures
        verdict is Ok <==> answer == Ok::<bool, io::Error>(true),
        verdict matches Err(CapabilityError::MissingCapBpf) <==> answer == Ok::<bool, io::Error>(
            false,
        ) && cap == RequiredCap::Bpf,
        verdict matches Err(CapabilityError::MissingCapNetAdmin) <==> answer == Ok::<
            bool,
            io::Error,
        >(false) && cap == RequiredCap::NetAdmin,
        answer matches Err(e) ==> verdict == Err::<(), _>(CapabilityError::CheckFailed(e)),
        verdict matches Err(CapabilityError::CheckFailed(_)) ==> answer is Err,
{
}

/// With the caller's own query: success needs both privileges; a missing
/// probe-loading privilege is named whatever the other is, a missing interface
/// privilege only if that one is there; and a failed query hands its error on.
pub proof fn checker_decides<F: Fn() -> Result<(bool, bool), io::Error>>(
    checker: F,
    answer: Result<(bool, bool), io::Error>,
    verdict: Result<(), CapabilityError>,
)
    requires
        forall|given: Result<(bool, bool), io::Error>| #[trigger]
            checker.ensures((), given) ==> given == answer,
        call_ensures(verify_with_checker::<F>, (checker,), verdict),
    ensures
        match answer {
            Ok((true, true)) => verdict is Ok,
            Ok((false, _)) => verdict == Err::<(), _>(CapabilityError::MissingCapBpf),
            Ok((true, false)) => verdict == Err::<(), _>(CapabilityError::MissingCapNetAdmin),
            Err(e) => verdict == Err::<(), _>(CapabilityError::CheckFailed(e)),
        },
{
}

/// With a query for each privilege: the answer about probe loading decides,
/// and only if it grants, the answer about interfaces.
pub proof fn first_answer_that_refuses_decides<Q: Fn(RequiredCap) -> Result<bool, io::Error>>(
    ask: &Q,
    bpf: Result<bool, io::Error>,
    net_admin: Result<bool, io::Error>,
    verdict: Result<(), CapabilityError>,
)
    requires
        forall|given: Result<bool, io::Error>| #[trigger]
            ask.ensures((RequiredCap::Bpf,), given) ==> given == bpf,
        forall|given: Result<bool, io::Error>| #[trigger]
            ask.ensures((RequiredCap::NetAdmin,), given) ==> given == net_admin,
        call_ensures(verify_with_query::<Q>, (ask,), verdict),
    ensures
        match (bpf, net_admin) {
            (Err(e), _) => verdict == Err::<(), _>(CapabilityError::CheckFailed(e)),
            (Ok(false), _) => verdict == Err::<(), _>(CapabilityError::MissingCapBpf),
            (Ok(true), Err(e)) => verdict == Err::<(), _>(CapabilityError::CheckFailed(e)),
            (Ok(true), Ok(false)) => verdict == Err::<(), _>(CapabilityError::MissingCapNetAdmin),
            (Ok(true), Ok(true)) => verdict is Ok,
        },
{
}

/// The loader may run only if the system said that both privileges are held,
/// and a privilege is called missing only if the system said that it is not.
pub proof fn verdicts_rest_on_what_the_system_said(verdict: Result<(), CapabilityError>)
    requires
        call_ensures(verify_capabilities, (), verdict),
    ensures
        verdict is Ok ==> system_replied(RequiredCap::Bpf, Ok(true)) && system_replied(
            RequiredCap::NetAdmin,
            Ok(true),
        ),
        verdict matches Err(CapabilityError::MissingCapBpf) ==> system_replied(
            RequiredCap::Bpf,
            Ok(false),
        ),
        verdict matches Err(CapabilityError::MissingCapNetAdmin) ==> system_replied(
            RequiredCap::Bpf,
            Ok(true),
        ) && system_replied(RequiredCap::NetAdmin, Ok(false)),
{
}

/// What the system said of a privilege is passed on as it is, and a failed
/// query as a failure.
pub proof fn replies_are_passed_on(
    held: Result<bool, caps::errors::CapsError>,
    answer: Result<bool, io::Error>,
)
    requires
        call_ensures(as_answer, (held,), answer),
    ensures
        answer is Ok <==> held is Ok,
        answer matches Ok(has) ==> held == Ok::<bool, caps::errors::CapsError>(has),
{
}

} // verus!
