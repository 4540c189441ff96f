//! Raise the calling process's soft limit on open file descriptors.
//!
//! The crate offers one primitive: lift the soft open-file limit as high as
//! the operating system permits, so that high-concurrency workloads are not
//! throttled by a low default. Which ceiling applies differs by kernel
//! family, so the primitive comes in three strategies:
//!
//! - [`raise_fd_limit_with_kernel_ceiling`] for BSD-derived kernels, where a
//!   system-wide per-process ceiling bounds the raise together with the hard
//!   limit;
//! - [`raise_fd_limit`] for kernels without a separate ceiling, where the
//!   hard limit itself is the best achievable soft limit;
//! - [`raise_fd_limit_unsupported`] for platforms with no known strategy,
//!   which reports that no limit applies and touches nothing.
//!
//! Each strategy reads the current limits fresh, computes the new soft limit,
//! installs it, and returns the installed value or a [`RaiseLimitError`]
//! naming the OS call that failed. The planning steps are plain functions
//! over the query outcomes, so what each strategy installs is stated exactly.

use vstd::prelude::*;

mod os;

verus! {

/// The OS interface behind one step of a raise.
#[derive(Clone, Copy, Debug, PartialEq, Eq, Structural)]
pub enum OsCall {
    /// The system-configuration query for the kernel's per-process
    /// open-file ceiling (BSD-derived kernels only).
    KernelCeilingQuery,
    /// The query for the process's current (soft, hard) limit pair.
    LimitPairQuery,
    /// The call that installs a new (soft, hard) limit pair.
    Install,
}

/// A failed raise: which OS call failed, and the errno-style code the OS
/// reported (`0` when the OS gave no code).
#[derive(Clone, Copy, Debug, PartialEq, Eq, Structural)]
pub struct RaiseLimitError {
    /// The call that failed.
    pub method: OsCall,
    /// The error code the OS reported.
    pub code: i32,
}

impl RaiseLimitError {
    /// The conventional name of the interface behind the failing call.
    pub fn method_name(&self) -> (r: &'static str)
        ensures
            self.method is KernelCeilingQuery ==> r@ == "libc"@,
            self.method is LimitPairQuery ==> r@ == "getrlimit"@,
            self.method is Install ==> r@ == "setrlimit"@,
    {
        match self.method {
            OsCall::KernelCeilingQuery => "libc",
            OsCall::LimitPairQuery => "getrlimit",
            OsCall::Install => "setrlimit",
        }
    }
}

/// The smaller of two limits.
pub open spec fn min_u64(a: u64, b: u64) -> u64 {
    if a <= b {
        a
    } else {
        b
    }
}

/// What the hard-limit strategy plans from the limit-pair query's outcome:
/// the pair to install, soft raised to the hard limit, or the query failure.
pub open spec fn plan_to_hard(pair_query: Result<(u64, u64), i32>) -> Result<
    (u64, u64),
    RaiseLimitError,
> {
    match pair_query {
        Ok(pair) => Ok((pair.1, pair.1)),
        Err(code) => Err(RaiseLimitError { method: OsCall::LimitPairQuery, code }),
    }
}

/// What the ceiling-bearing strategy plans from the kernel ceiling and the
/// limit-pair query's outcome: the pair to install, soft raised to the
/// smaller of ceiling and hard limit, or the query failure.
pub open spec fn plan_with_ceiling(ceiling: u64, pair_query: Result<(u64, u64), i32>) -> Result<
    (u64, u64),
    RaiseLimitError,
> {
    match pair_query {
        Ok(pair) => Ok((min_u64(ceiling, pair.1), pair.1)),
        Err(code) => Err(RaiseLimitError { method: OsCall::LimitPairQuery, code }),
    }
}

/// What a raise returns once the planned soft limit went to the install
/// call: the installed value on success, or the install failure.
pub open spec fn outcome_of_install(new_soft: u64, install: Result<(), i32>) -> Result<
    Option<u64>,
    RaiseLimitError,
> {
    match install {
        Ok(_) => Ok(Some(new_soft)),
        Err(code) => Err(RaiseLimitError { method: OsCall::Install, code }),
    }
}

/// The error code for a failed call: the code the OS reported, or `0` when
/// it reported none.
pub open spec fn errno_or_unknown(raw: Option<i32>) -> i32 {
    match raw {
        Some(code) => code,
        None => 0,
    }
}

/// Plan the hard-limit strategy's install from the limit-pair query's
/// outcome.
pub fn plan_raise_to_hard(pair_query: Result<(u64, u64), i32>) -> (r: Result<
    (u64, u64),
    RaiseLimitError,
>)
    ensures
        r == plan_to_hard(pair_query),
        r matches Ok(p) ==> p.0 == p.1,
{
    match pair_query {
        Ok((_soft, hard)) => Ok((hard, hard)),
        Err(code) => Err(RaiseLimitError { method: OsCall::LimitPairQuery, code }),
    }
}

/// Plan the ceiling-bearing strategy's install from the kernel ceiling and
/// the limit-pair query's outcome.
pub fn plan_raise_with_ceiling(ceiling: u64, pair_query: Result<(u64, u64), i32>) -> (r: Result<
    (u64, u64),
    RaiseLimitError,
>)
    ensures
        r == plan_with_ceiling(ceiling, pair_query),
        r matches Ok(p) ==> p.0 <= ceiling && p.0 <= p.1,
{
    match pair_query {
        Ok((_soft, hard)) => {
            let new_soft = if ceiling <= hard {
                ceiling
            } else {
                hard
            };
            Ok((new_soft, hard))
        },
        Err(code) => Err(RaiseLimitError { method: OsCall::LimitPairQuery, code }),
    }
}

/// Turn the install call's outcome into the raise's result: the soft limit
/// just installed, or the install failure.
pub fn finish_install(new_soft: u64, install: Result<(), i32>) -> (r: Result<
    Option<u64>,
    RaiseLimitError,
>)
    ensures
        r == outcome_of_install(new_soft, install),
{
    match install {
        Ok(()) => Ok(Some(new_soft)),
        Err(code) => Err(RaiseLimitError { method: OsCall::Install, code }),
    }
}

/// The error code of a failed call, `0` standing in where the OS gave none.
fn errno_code(raw: Option<i32>) -> (r: i32)
    ensures
        r == errno_or_unknown(raw),
{
    match raw {
        Some(code) => code,
        None => 0,
    }
}

/// Raise the soft open file descriptor resource limit to the hard resource
/// limit.
///
/// This is the strategy for kernels with no separate per-process ceiling:
/// the current (soft, hard) pair is queried and (hard, hard) installed.
/// Returns `Ok(Some(n))` with the newly installed soft limit, or the error
/// naming the OS call that failed.
pub fn raise_fd_limit() -> (r: Result<Option<u64>, RaiseLimitError>)
    ensures
        r matches Ok(v) ==> v is Some,
        r matches Err(e) ==> e.method is LimitPairQuery || e.method is Install,
{
    let pair_query: Result<(u64, u64), i32> = match os::get_nofile_limits() {
        Ok(pair) => Ok(pair),
        Err(raw) => Err(errno_code(raw)),
    };
    match plan_raise_to_hard(pair_query) {
        Ok((new_soft, hard)) => {
            let install: Result<(), i32> = match os::set_nofile_limits(new_soft, hard) {
                Ok(()) => Ok(()),
                Err(raw) => Err(errno_code(raw)),
            };
            finish_install(new_soft, install)
        },
        Err(e) => Err(e),
    }
}

/// Raise the soft open file descriptor resource limit to the smaller of the
/// given kernel ceiling and the hard resource limit.
///
/// This is the strategy for BSD-derived kernels, where a system-wide
/// per-process ceiling bounds the raise: the caller hands in the outcome of
/// the kernel-ceiling query (`kern.maxfilesperproc`), and the raise installs
/// the smaller of that ceiling and the current hard limit. A failed ceiling
/// query is returned at once; no limit is queried or installed then.
pub fn raise_fd_limit_with_kernel_ceiling(ceiling_query: Result<u64, i32>) -> (r: Result<
    Option<u64>,
    RaiseLimitError,
>)
    ensures
        ceiling_query matches Err(code) ==> r == Err::<Option<u64>, RaiseLimitError>(
            (RaiseLimitError { method: OsCall::KernelCeilingQuery, code }),
        ),
        ceiling_query matches Ok(c) ==> (r matches Ok(v) ==> v matches Some(n) && n <= c),
        r matches Ok(v) ==> v is Some,
        ceiling_query is Ok ==> (r matches Err(e) ==> e.method is LimitPairQuery
            || e.method is Install),
{
    match ceiling_query {
        Ok(ceiling) => {
            let pair_query: Result<(u64, u64), i32> = match os::get_nofile_limits() {
                Ok(pair) => Ok(pair),
                Err(raw) => Err(errno_code(raw)),
            };
            match plan_raise_with_ceiling(ceiling, pair_query) {
                Ok((new_soft, hard)) => {
                    let install: Result<(), i32> = match os::set_nofile_limits(new_soft, hard) {
                        Ok(()) => Ok(()),
                        Err(raw) => Err(errno_code(raw)),
                    };
                    finish_install(new_soft, install)
                },
                Err(e) => Err(e),
            }
        },
        Err(code) => Err(RaiseLimitError { method: OsCall::KernelCeilingQuery, code }),
    }
}

/// Report that no open-file limit applies.
///
/// This is the strategy for platforms with no known ceiling concept: it
/// returns `Ok(None)` unconditionally and never touches OS resource-limit
/// state — nothing is queried and nothing is installed.
pub fn raise_fd_limit_unsupported() -> (r: Result<Option<u64>, RaiseLimitError>)
    ensures
        r == Ok::<Option<u64>, RaiseLimitError>(None),
{
    Ok(None)
}

/// Law: a planned raise never exceeds the hard limit the query reported, nor
/// the kernel ceiling when one applies, and it leaves the hard limit as it
/// was.
pub proof fn lemma_planned_soft_within_bounds(ceiling: u64, pair: (u64, u64))
    ensures
        plan_with_ceiling(ceiling, Ok(pair)) matches Ok(p) && p.0 <= ceiling && p.0 <= pair.1
            && p.1 == pair.1,
        plan_to_hard(Ok(pair)) matches Ok(p) && p.0 <= pair.1 && p.1 == pair.1,
{
}

/// Law: raising twice never lowers the soft limit. With a kernel ceiling and
/// a hard limit that have not shrunk between the calls, the soft limit the
/// second raise plans is at least the one the first planned, on both
/// limit-bearing strategies.
pub proof fn lemma_second_raise_not_lower(c1: u64, p1: (u64, u64), c2: u64, p2: (u64, u64))
    requires
        c1 <= c2,
        p1.1 <= p2.1,
    ensures
        plan_with_ceiling(c1, Ok(p1)) matches Ok(q1) && plan_with_ceiling(c2, Ok(p2)) matches Ok(
            q2,
        ) && q1.0 <= q2.0,
        plan_to_hard(Ok(p1)) matches Ok(q1) && plan_to_hard(Ok(p2)) matches Ok(q2) && q1.0
            <= q2.0,
{
}

/// Law: a raise is idempotent. Replanning right after a successful raise,
/// with the ceiling unchanged and the pair the install left behind, plans
/// exactly the value already installed.
pub proof fn lemma_raise_idempotent(ceiling: u64, pair: (u64, u64))
    ensures
        plan_with_ceiling(ceiling, Ok((min_u64(ceiling, pair.1), pair.1))) == Ok::<
            (u64, u64),
            RaiseLimitError,
        >((min_u64(ceiling, pair.1), pair.1)),
        plan_to_hard(Ok((pair.1, pair.1))) == Ok::<(u64, u64), RaiseLimitError>(
            (pair.1, pair.1),
        ),
{
}

} // verus!

