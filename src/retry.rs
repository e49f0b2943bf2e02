use vstd::prelude::*;

use crate::error::DriftDataError;

verus! {

/// Retries allowed after the first attempt of a remote call.
pub const MAX_RETRIES: u32 = 5;

/// Base of the exponential backoff, in milliseconds.
pub const RETRY_DELAY_MS: u64 = 1000;

/// Two to the power `k`.
pub open spec fn pow2(k: nat) -> nat
    decreases k,
{
    if k == 0 {
        1
    } else {
        2 * pow2((k - 1) as nat)
    }
}

/// The wait before retry number `k`: `base * 2^k` milliseconds.
pub open spec fn backoff_delay(base: int, k: nat) -> int {
    base * pow2(k)
}

pub proof fn lemma_pow2_positive(k: nat)
    ensures
        pow2(k) >= 1,
    decreases k,
{
    if k > 0 {
        lemma_pow2_positive((k - 1) as nat);
    }
}

proof fn lemma_pow2_five()
    ensures
        pow2(5) == 32,
{
    assert(pow2(0) == 1);
    assert(pow2(1) == 2);
    assert(pow2(2) == 4);
    assert(pow2(3) == 8);
    assert(pow2(4) == 16);
}

pub proof fn lemma_pow2_monotone(i: nat, k: nat)
    requires
        i <= k,
    ensures
        pow2(i) <= pow2(k),
    decreases k,
{
    if i < k {
        lemma_pow2_monotone(i, (k - 1) as nat);
        lemma_pow2_positive((k - 1) as nat);
    }
}

/// The wait before retry number `retry`, or `None` where `base * 2^retry`
/// does not fit in a `u64`.
pub fn backoff_delay_ms(base_ms: u64, retry: u32) -> (r: Option<u64>)
    ensures
        backoff_delay(base_ms as int, retry as nat) <= u64::MAX ==> r == Some(
            backoff_delay(base_ms as int, retry as nat) as u64,
        ),
        backoff_delay(base_ms as int, retry as nat) > u64::MAX ==> r is None,
{
    let mut d: u64 = base_ms;
    let mut i: u32 = 0;
    assert(pow2(0) == 1);
    while i < retry
        invariant
            i <= retry,
            d as int == backoff_delay(base_ms as int, i as nat),
        decreases retry - i,
    {
        match d.checked_mul(2) {
            Some(next) => {
                d = next;
                i = i + 1;
                assert(d as int == backoff_delay(base_ms as int, i as nat)) by (nonlinear_arith)
                    requires
                        d == 2 * backoff_delay(base_ms as int, (i - 1) as nat),
                        pow2(i as nat) == 2 * pow2((i - 1) as nat),
                ;
            },
            None => {
                proof {
                    let n = (i + 1) as nat;
                    assert(pow2(n) == 2 * pow2(i as nat));
                    lemma_pow2_monotone(n, retry as nat);
                    assert(base_ms * pow2(n) <= base_ms * pow2(retry as nat)) by (nonlinear_arith)
                        requires
                            pow2(n) <= pow2(retry as nat),
                    ;
                    assert(base_ms * pow2(n) == 2 * (base_ms * pow2(i as nat))) by (nonlinear_arith)
                        requires
                            pow2(n) == 2 * pow2(i as nat),
                    ;
                }
                return None;
            },
        }
    }
    Some(d)
}

/// What made a remote call fail.
#[derive(Debug, Clone, Copy, PartialEq, Eq, Structural)]
pub enum FailureKind {
    /// A timeout, a rate limit or another failure that may pass.
    Transient,
    /// The call referred to chain state that has expired; retrying within
    /// the same window is futile.
    StaleState,
}

/// The terminal errors of a retried call.
#[derive(Debug, Clone, Copy, PartialEq, Eq, Structural)]
pub enum RetryError {
    MaxRetriesExceeded,
    StaleState,
}

/// What to do after a failed attempt.
#[derive(Debug, Clone, Copy, PartialEq, Eq, Structural)]
pub enum RetryStep {
    /// Sleep this long, then try again.
    Wait { delay_ms: u64 },
    /// Stop and report the error.
    GiveUp(RetryError),
}

/// The failures counted after one more failure, starting from `failures`.
/// The count stops at `MAX_RETRIES + 1`, where the call is given up.
pub open spec fn next_failures(failures: nat) -> nat {
    if failures + 1 <= MAX_RETRIES + 1 {
        failures + 1
    } else {
        (MAX_RETRIES + 1) as nat
    }
}

/// The step taken after a failure of kind `kind`, when `failures` failures
/// were counted before it.
pub open spec fn step_after(failures: nat, kind: FailureKind) -> RetryStep {
    match kind {
        FailureKind::StaleState => RetryStep::GiveUp(RetryError::StaleState),
        FailureKind::Transient => if failures + 1 <= MAX_RETRIES {
            RetryStep::Wait {
                delay_ms: backoff_delay(RETRY_DELAY_MS as int, failures + 1) as u64,
            }
        } else {
            RetryStep::GiveUp(RetryError::MaxRetriesExceeded)
        },
    }
}

/// The failure count after `n` transient failures in a row.
pub open spec fn failures_after(n: nat) -> nat
    decreases n,
{
    if n == 0 {
        0
    } else {
        next_failures(failures_after((n - 1) as nat))
    }
}

/// The backoff state of one retried remote call.
pub struct Backoff {
    failures: u32,
}

impl Backoff {
    /// Failures counted so far.
    pub closed spec fn failures(&self) -> nat {
        self.failures as nat
    }

    pub closed spec fn wf(&self) -> bool {
        self.failures <= MAX_RETRIES + 1
    }

    /// The state before the first attempt.
    pub fn new() -> (r: Backoff)
        ensures
            r.wf(),
            r.failures() == 0,
    {
        Backoff { failures: 0 }
    }

    /// Failures counted so far.
    pub fn failure_count(&self) -> (r: u32)
        ensures
            r as nat == self.failures(),
    {
        self.failures
    }

    /// Records a failed attempt and says whether to wait and retry or to
    /// give up. Retry number `k` waits `RETRY_DELAY_MS * 2^k`
    /// milliseconds; the failure after `MAX_RETRIES` retries gives up with
    /// `MaxRetriesExceeded`; a stale-state failure gives up at once.
    pub fn on_failure(&mut self, kind: FailureKind) -> (r: RetryStep)
        requires
            old(self).wf(),
        ensures
            final(self).wf(),
            r == step_after(old(self).failures(), kind),
            kind == FailureKind::Transient ==> final(self).failures() == next_failures(
                old(self).failures(),
            ),
            kind == FailureKind::StaleState ==> final(self).failures() == old(self).failures(),
    {
        match kind {
            FailureKind::StaleState => RetryStep::GiveUp(RetryError::StaleState),
            FailureKind::Transient => {
                if self.failures <= MAX_RETRIES {
                    self.failures = self.failures + 1;
                }
                if self.failures <= MAX_RETRIES {
                    proof {
                        lemma_pow2_monotone(self.failures as nat, MAX_RETRIES as nat);
                        lemma_pow2_five();
                        assert(RETRY_DELAY_MS * pow2(self.failures as nat) <= RETRY_DELAY_MS * 32)
                            by (nonlinear_arith)
                            requires
                                pow2(self.failures as nat) <= 32,
                        ;
                    }
                    match backoff_delay_ms(RETRY_DELAY_MS, self.failures) {
                        Some(d) => RetryStep::Wait { delay_ms: d },
                        None => RetryStep::GiveUp(RetryError::MaxRetriesExceeded),
                    }
                } else {
                    RetryStep::GiveUp(RetryError::MaxRetriesExceeded)
                }
            },
        }
    }
}

/// The retry schedule of a call whose every attempt fails transiently:
/// the failure after `k - 1` earlier ones, for `1 <= k <= MAX_RETRIES`,
/// waits `RETRY_DELAY_MS * 2^k` milliseconds and retries; the failure
/// after `MAX_RETRIES` retries gives up. So the call is attempted exactly
/// `MAX_RETRIES + 1` times, never fewer, never more.
pub proof fn lemma_backoff_schedule(k: nat)
    requires
        1 <= k <= MAX_RETRIES + 1,
    ensures
        k <= MAX_RETRIES ==> step_after(failures_after((k - 1) as nat), FailureKind::Transient)
            == (RetryStep::Wait {
            delay_ms: backoff_delay(RETRY_DELAY_MS as int, k) as u64,
        }),
        k == MAX_RETRIES + 1 ==> step_after(
            failures_after((k - 1) as nat),
            FailureKind::Transient,
        ) == RetryStep::GiveUp(RetryError::MaxRetriesExceeded),
{
    lemma_failures_after((k - 1) as nat);
}

/// Below the cap, `n` failures in a row are counted as `n`.
pub proof fn lemma_failures_after(n: nat)
    requires
        n <= MAX_RETRIES + 1,
    ensures
        failures_after(n) == n,
    decreases n,
{
    if n > 0 {
        lemma_failures_after((n - 1) as nat);
    }
}

/// Whether `needle` occurs in `hay` at position `i`.
pub open spec fn occurs_at(hay: Seq<u8>, needle: Seq<u8>, i: int) -> bool {
    0 <= i && i + needle.len() <= hay.len() && hay.subrange(i, i + needle.len()) == needle
}

/// Whether `needle` occurs anywhere in `hay`.
pub open spec fn contains_bytes(hay: Seq<u8>, needle: Seq<u8>) -> bool {
    exists|i: int| occurs_at(hay, needle, i)
}

/// Searches `hay` for `needle`.
pub fn find_bytes(hay: &[u8], needle: &[u8]) -> (r: bool)
    ensures
        r == contains_bytes(hay@, needle@),
{
    if needle.len() > hay.len() {
        assert forall|i: int| !occurs_at(hay@, needle@, i) by {}
        return false;
    }
    if needle.len() == 0 {
        assert(hay@.subrange(0, 0) =~= needle@);
        assert(occurs_at(hay@, needle@, 0));
        return true;
    }
    let last: usize = hay.len() - needle.len();
    let mut i: usize = 0;
    while i <= last
        invariant
            last == hay@.len() - needle@.len(),
            needle@.len() > 0,
            hay@.len() <= usize::MAX,
            i <= last + 1,
            forall|k: int| 0 <= k < i ==> !occurs_at(hay@, needle@, k),
        decreases last + 1 - i,
    {
        let mut j: usize = 0;
        let mut same = true;
        while j < needle.len()
            invariant
                i <= last,
                last == hay@.len() - needle@.len(),
                needle@.len() <= hay@.len(),
                hay@.len() <= usize::MAX,
                j <= needle@.len(),
                same == (forall|m: int| 0 <= m < j ==> hay@[i + m] == needle@[m]),
            decreases needle@.len() - j,
        {
            if hay[i + j] != needle[j] {
                same = false;
            }
            j = j + 1;
        }
        if same {
            assert(hay@.subrange(i as int, i + needle@.len()) =~= needle@);
            assert(occurs_at(hay@, needle@, i as int));
            return true;
        }
        proof {
            if occurs_at(hay@, needle@, i as int) {
                assert forall|m: int| 0 <= m < needle@.len() implies hay@[i + m] == needle@[m] by {
                    assert(hay@.subrange(i as int, i + needle@.len())[m] == hay@[i + m]);
                }
            }
        }
        i = i + 1;
    }
    assert forall|k: int| !occurs_at(hay@, needle@, k) by {
        if occurs_at(hay@, needle@, k) {
            assert(k <= last);
        }
    }
    false
}

/// The text by which the exchange reports an expired chain reference.
pub open spec fn stale_state_marker() -> Seq<u8> {
    seq![66u8, 108u8, 111u8, 99u8, 107u8, 104u8, 97u8, 115u8, 104u8, 32u8, 110u8, 111u8, 116u8, 32u8, 102u8, 111u8, 117u8, 110u8, 100u8]
}

/// The kind of a failure, from the text of its error: stale state where it
/// reports an expired chain reference, transient otherwise.
pub fn classify_failure(message: &[u8]) -> (r: FailureKind)
    ensures
        contains_bytes(message@, stale_state_marker()) ==> r == FailureKind::StaleState,
        !contains_bytes(message@, stale_state_marker()) ==> r == FailureKind::Transient,
{
    let marker: Vec<u8> = vec![66u8, 108u8, 111u8, 99u8, 107u8, 104u8, 97u8, 115u8, 104u8, 32u8, 110u8, 111u8, 116u8, 32u8, 102u8, 111u8, 117u8, 110u8, 100u8];
    assert(marker@ =~= stale_state_marker());
    if find_bytes(message, marker.as_slice()) {
        FailureKind::StaleState
    } else {
        FailureKind::Transient
    }
}

/// The error reported to a caller for a retried call that gave up.
pub fn retry_error_to_data_error(e: RetryError) -> (r: DriftDataError)
    ensures
        e == RetryError::MaxRetriesExceeded ==> r.message@ == "Max retries reached"@,
        e == RetryError::StaleState ==> r.message@ == "Blockhash expired"@,
{
    match e {
        RetryError::MaxRetriesExceeded => DriftDataError::new("Max retries reached"),
        RetryError::StaleState => DriftDataError::new("Blockhash expired"),
    }
}

} // verus!
