//! The pause store: an optional future expiry instant, persisted as a
//! single plain-text integer.
//!
//! The store is shared between the daemon (reader) and an out-of-process
//! control action (writer); absence of the marker means no pause.  A read
//! is a point-in-time predicate with a self-healing side effect: stale or
//! unparsable content reads as "no pause" and deletes the marker.
//!
//! `PauseStore` models the marker's content as a value; the surrounding
//! binary loads the marker's bytes into it before each operation and
//! writes the resulting content back (deleting the marker when the content
//! is gone).

use crate::digits::{dec_digits, format_u64, parse_u64_decimal, spec_parse_u64};
use crate::digits::lemma_parse_format_round_trip;
use vstd::prelude::*;

verus! {

/// The marker's content: `None` when no marker exists, otherwise the
/// marker's raw bytes.
pub struct PauseStore {
    pub marker: Option<Vec<u8>>,
}

impl PauseStore {
    /// The marker's content as a mathematical value.
    pub open spec fn marker_bytes(self) -> Option<Seq<u8>> {
        match self.marker {
            None => None,
            Some(m) => Some(m@),
        }
    }

    /// What a read at time `now` returns: the stored expiry instant when
    /// the marker holds one that is still in the future, nothing when the
    /// marker is absent, unparsable, or already due.
    pub open spec fn spec_read(self, now: u64) -> Option<u64> {
        match self.marker_bytes() {
            None => None,
            Some(m) => match spec_parse_u64(m) {
                None => None,
                Some(expiry) => if now < expiry {
                    Some(expiry)
                } else {
                    None
                },
            },
        }
    }

    /// The marker's content after a read at time `now`: unchanged while
    /// the pause is active, gone in every other case (absent stays absent;
    /// unparsable or due content is deleted).
    pub open spec fn spec_after_read(self, now: u64) -> Option<Seq<u8>> {
        if self.spec_read(now) is Some {
            self.marker_bytes()
        } else {
            None
        }
    }

    /// Whether a read at time `now` performs the deletion side effect.
    pub open spec fn spec_read_deletes(self, now: u64) -> bool {
        self.marker_bytes() is Some && self.spec_read(now) is None
    }

    /// A store with no marker.
    pub fn absent() -> (s: PauseStore)
        ensures
            s.marker_bytes() is None,
    {
        PauseStore { marker: None }
    }

    /// Reads the pause state at time `now` and self-heals the marker:
    /// returns the stored expiry while it lies in the future, and removes
    /// the marker whenever it is unparsable or no longer in the future.
    pub fn read(&mut self, now: u64) -> (r: Option<u64>)
        ensures
            r == old(self).spec_read(now),
            final(self).marker_bytes() == old(self).spec_after_read(now),
    {
        let deadline: Option<u64> = match &self.marker {
            None => {
                return None;
            }
            Some(m) => parse_u64_decimal(m.as_slice()),
        };
        match deadline {
            Some(expiry) => {
                if now < expiry {
                    Some(expiry)
                } else {
                    self.marker = None;
                    None
                }
            }
            None => {
                self.marker = None;
                None
            }
        }
    }

    /// Overwrites the marker with `expiry`, unconditionally: the previous
    /// content, whatever it was, is gone.
    pub fn set(&mut self, expiry: u64)
        ensures
            final(self).marker_bytes() == Some(dec_digits(expiry as nat)),
            forall|now: u64|
                #[trigger] final(self).spec_read(now) == (if now < expiry {
                    Some(expiry)
                } else {
                    None::<u64>
                }),
    {
        let bytes = format_u64(expiry);
        self.marker = Some(bytes);
        proof {
            lemma_parse_format_round_trip(expiry);
        }
    }

    /// Removes the marker if present; a no-op when it is absent.
    pub fn clear(&mut self)
        ensures
            final(self).marker_bytes() is None,
    {
        self.marker = None;
    }
}

/// The expiry instant for a pause of `minutes` minutes starting at `now`:
/// `now + minutes * 60`, or nothing when that does not fit in `u64`.
pub fn compute_expiry(now: u64, minutes: u64) -> (r: Option<u64>)
    ensures
        r == (if now + minutes * 60 <= u64::MAX {
            Some((now + minutes * 60) as u64)
        } else {
            None::<u64>
        }),
{
    match minutes.checked_mul(60) {
        Some(seconds) => now.checked_add(seconds),
        None => None,
    }
}

/// Pause expiry is idempotent under re-reads.  Once a read has found no
/// active pause — because the marker was absent, unparsable, or due — the
/// store it leaves behind reads as "no pause" at every later time, stays
/// unchanged, and never triggers the deletion side effect again.
pub proof fn lemma_expired_read_idempotent(s: PauseStore, healed: PauseStore, now: u64, later: u64)
    requires
        s.spec_read(now) is None,
        healed.marker_bytes() == s.spec_after_read(now),
    ensures
        healed.marker_bytes() is None,
        healed.spec_read(later) is None,
        healed.spec_after_read(later) is None,
        !healed.spec_read_deletes(later),
{
}

/// Setting a pause replaces the expiry outright — last write wins.  The
/// content `set(expiry)` leaves behind is fixed by `expiry` alone, with no
/// trace of what was stored before (an active window included), and a read
/// of it returns exactly the new expiry while that lies in the future:
/// durations neither extend nor stack.
pub proof fn lemma_set_replaces(after: PauseStore, expiry: u64, now: u64)
    requires
        after.marker_bytes() == Some(dec_digits(expiry as nat)),
    ensures
        after.spec_read(now) == (if now < expiry {
            Some(expiry)
        } else {
            None::<u64>
        }),
{
    lemma_parse_format_round_trip(expiry);
}

} // verus!
