//! The streaming download pipeline, modelled as a state machine: the caller
//! performs the I/O and feeds in the response status, the declared length
//! and each arriving chunk; the machine validates the status, accumulates
//! the byte count and produces the progress events.

use vstd::prelude::*;

verus! {

/// Whether an HTTP status code reports success.
pub open spec fn spec_is_success_status(status: u16) -> bool {
    200 <= status < 300
}

/// Whether an HTTP status code reports success (the 2xx class).
pub fn is_success_status(status: u16) -> (r: bool)
    ensures
        r == spec_is_success_status(status),
{
    200 <= status && status < 300
}

/// Why a transfer failed: the server answered with a non-success status
/// code, or a network read or local write failed with the given cause.
#[derive(Debug, PartialEq, Eq)]
pub enum TransferError {
    ServerStatus(u16),
    Io(String),
}

/// One progress report: the bytes written so far and the declared total
/// length. The reported fraction is `written / total`.
#[derive(Clone, Copy, Debug, PartialEq, Eq, Structural)]
pub struct ProgressEvent {
    pub written: u64,
    pub total: u64,
}

/// One in-flight download: the declared total length (zero when the
/// response declared none) and the bytes written so far.
#[derive(Clone, Copy, Debug, PartialEq, Eq, Structural)]
pub struct Transfer {
    pub total: u64,
    pub written: u64,
}

/// The progress fraction of `a` is at most that of `b`, stated by cross
/// multiplication: `a.written / a.total <= b.written / b.total`.
pub open spec fn frac_le(a: ProgressEvent, b: ProgressEvent) -> bool {
    a.written * b.total <= b.written * a.total
}

/// The progress fraction of `p` is exactly one: `p.written / p.total == 1`.
pub open spec fn frac_is_one(p: ProgressEvent) -> bool {
    p.written == p.total
}

/// The progress fraction in thousandths, rounded down.
pub open spec fn spec_per_mille(p: ProgressEvent) -> int
    recommends
        p.total > 0,
{
    (p.written * 1000) / (p.total as int)
}

impl Transfer {
    /// Starts a download from the response head. A non-success status is a
    /// terminal failure carrying the status code; no transfer state exists
    /// then, so not a byte can be written for such a response. On success
    /// the declared length, or zero when the response declared none, becomes
    /// the progress denominator.
    pub fn begin(status: u16, content_length: Option<u64>) -> (r: Result<Transfer, TransferError>)
        ensures
            spec_is_success_status(status) ==> r == Ok::<Transfer, TransferError>(
                Transfer {
                    total: match content_length {
                        Some(n) => n,
                        None => 0,
                    },
                    written: 0,
                },
            ),
            !spec_is_success_status(status) ==> r == Err::<Transfer, TransferError>(
                TransferError::ServerStatus(status),
            ),
    {
        if is_success_status(status) {
            let total: u64 = match content_length {
                Some(n) => n,
                None => 0,
            };
            Ok(Transfer { total, written: 0 })
        } else {
            Err(TransferError::ServerStatus(status))
        }
    }

    /// Records one chunk written to the destination, in arrival order, and
    /// reports progress: exactly one event per chunk while the total length
    /// is known, and no event at all when it is unknown (zero).
    pub fn on_chunk(&mut self, chunk_len: u64) -> (p: Option<ProgressEvent>)
        requires
            old(self).written + chunk_len <= u64::MAX,
        ensures
            final(self).total == old(self).total,
            final(self).written == old(self).written + chunk_len,
            old(self).total > 0 ==> p == Some(
                ProgressEvent { written: (old(self).written + chunk_len) as u64, total: old(self).total },
            ),
            old(self).total == 0 ==> p is None,
    {
        self.written = self.written + chunk_len;
        if self.total > 0 {
            Some(ProgressEvent { written: self.written, total: self.total })
        } else {
            None
        }
    }
}

impl ProgressEvent {
    /// The progress fraction in thousandths, rounded down. The value is not
    /// capped: a transport that delivers more bytes than the response
    /// declared reports a fraction past one, as the raw quotient does. It
    /// stays within 1000 while the byte count is within the declared total,
    /// and is exactly 1000 once every declared byte is written.
    pub fn per_mille(&self) -> (r: u128)
        requires
            self.total > 0,
        ensures
            r == spec_per_mille(*self),
            self.written <= self.total ==> r <= 1000,
            self.written == self.total ==> r == 1000,
    {
        let w: u128 = self.written as u128;
        let t: u128 = self.total as u128;
        let q: u128 = (w * 1000) / t;
        proof {
            if self.written <= self.total {
                lemma_per_mille_monotonic(
                    *self,
                    ProgressEvent { written: self.total, total: self.total },
                );
            }
            lemma_per_mille_complete(ProgressEvent { written: self.total, total: self.total });
        }
        q
    }
}

/// Law: over the lifetime of one download the progress fraction is
/// monotonically non-decreasing — the total stays fixed and the byte count
/// only grows, so a later event's fraction is at least an earlier one's.
pub proof fn lemma_progress_monotonic(a: ProgressEvent, b: ProgressEvent)
    requires
        a.total == b.total,
        a.written <= b.written,
    ensures
        frac_le(a, b),
{
    assert(a.written * b.total <= b.written * a.total) by (nonlinear_arith)
        requires
            a.total == b.total,
            a.written <= b.written,
    ;
}

/// The thousandths form of the monotonicity law.
pub proof fn lemma_per_mille_monotonic(a: ProgressEvent, b: ProgressEvent)
    requires
        a.total == b.total,
        a.total > 0,
        a.written <= b.written,
    ensures
        spec_per_mille(a) <= spec_per_mille(b),
{
    vstd::arithmetic::div_mod::lemma_div_is_ordered(
        a.written * 1000,
        b.written * 1000,
        a.total as int,
    );
}

/// Law: when the total length was known, the fraction is exactly one — and
/// its thousandths form exactly 1000 — precisely at completion, once the
/// bytes written equal the declared total.
pub proof fn lemma_per_mille_complete(p: ProgressEvent)
    requires
        p.total > 0,
        p.written == p.total,
    ensures
        frac_is_one(p),
        spec_per_mille(p) == 1000,
{
    vstd::arithmetic::div_mod::lemma_div_multiples_vanish(1000, p.total as int);
    assert(p.written * 1000 == (p.total as int) * 1000);
}

} // verus!
