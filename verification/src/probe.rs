//! Memoized, retry-friendly cache for one local system probe.
//!
//! A probe is a slow or side-effecting local read (here: a file that exposes a
//! hardware address for a network interface). [`ProbeCache`] stores the
//! normalized probe value for its key once it has been computed, and never
//! recomputes or clears it afterwards. A failed probe leaves the slot exactly
//! as it was, so a later call may retry: failures are never cached.
//!
//! The read itself is input/output and stays with the caller, as does the lock
//! that serialises concurrent callers. The protocol is: holding exclusive
//! access, call [`ProbeCache::lookup`]; only if it yields nothing, perform the
//! read and hand its outcome to [`ProbeCache::get_or_compute`].

use vstd::prelude::*;
use vstd::utf8::{decode_utf8, valid_utf8};

verus! {

/// The whitespace bytes stripped by normalization: the ASCII range of the
/// whitespace characters (tab, line feed, vertical tab, form feed, carriage
/// return, space).
pub open spec fn is_space(b: u8) -> bool {
    b == 0x20 || b == 0x09 || b == 0x0a || b == 0x0b || b == 0x0c || b == 0x0d
}

/// `s` with all leading and trailing whitespace bytes removed.
pub open spec fn trimmed(s: Seq<u8>) -> Seq<u8>
    decreases s.len(),
{
    if s.len() == 0 {
        s
    } else if is_space(s[0]) {
        trimmed(s.subrange(1, s.len() as int))
    } else if is_space(s[s.len() - 1]) {
        trimmed(s.subrange(0, s.len() - 1))
    } else {
        s
    }
}

/// What a successful probe stores: the raw bytes with surrounding whitespace
/// stripped, decoded as text; nothing when the stripped bytes are not valid
/// UTF-8.
pub open spec fn normalized(raw: Seq<u8>) -> Option<Seq<char>> {
    if valid_utf8(trimmed(raw)) {
        Some(decode_utf8(trimmed(raw)))
    } else {
        None
    }
}

/// Why a probe value could not be produced. The cause never crosses the
/// service boundary raw: the escalation layer adapts it first.
#[derive(Debug)]
pub enum ProbeError {
    /// The underlying system resource could not be read; carries the message
    /// the reader chose to report.
    ResourceAccess(String),
    /// The resource was read but its content is not valid text.
    NotText,
}

/// The probe outcome as the specification sees it: raw bytes, or the
/// access-failure message.
pub open spec fn probe_view(probe: Result<Vec<u8>, String>) -> Result<Seq<u8>, Seq<char>> {
    match probe {
        Ok(raw) => Ok(raw@),
        Err(m) => Err(m@),
    }
}

/// The cache slot after one `get_or_compute` step: a stored value is kept
/// whatever the probe outcome; an empty slot is filled exactly when the probe
/// succeeded and its bytes normalize, and stays empty otherwise.
pub open spec fn slot_after(
    slot: Option<Seq<char>>,
    probe: Result<Seq<u8>, Seq<char>>,
) -> Option<Seq<char>> {
    match slot {
        Some(v) => Some(v),
        None => match probe {
            Ok(raw) => normalized(raw),
            Err(_) => None,
        },
    }
}

/// Memoized slot for one probe key. The key is fixed at construction; the
/// value is computed at most once and then served to every caller.
pub struct ProbeCache {
    interface: String,
    value: Option<String>,
}

impl ProbeCache {
    /// The probe key: the name of the network interface whose address file is
    /// read.
    pub closed spec fn key(&self) -> Seq<char> {
        self.interface@
    }

    /// The memoized value, if one has been computed.
    pub closed spec fn slot(&self) -> Option<Seq<char>> {
        match self.value {
            Some(ref v) => Some(v@),
            None => None,
        }
    }

    /// A cache for `interface`, with nothing computed yet.
    pub fn new(interface: String) -> (c: Self)
        ensures
            c.key() == interface@,
            c.slot() is None,
    {
        ProbeCache { interface, value: None }
    }

    /// The probe key, so the caller can address the underlying resource.
    pub fn interface(&self) -> (r: &String)
        ensures
            r@ == self.key(),
    {
        &self.interface
    }

    /// The memoized value, or nothing when the caller must probe first.
    pub fn lookup(&self) -> (r: Option<String>)
        ensures
            r is Some <==> self.slot() is Some,
            r matches Some(s) ==> self.slot() == Some(s@),
    {
        match &self.value {
            Some(s) => Some(s.clone()),
            None => None,
        }
    }

    /// Serves the memoized value if one is stored, ignoring `probe`; otherwise
    /// consumes the probe outcome: a successful read is normalized, stored and
    /// returned, a failure is reported and leaves the slot untouched, so a
    /// later call may retry.
    pub fn get_or_compute(&mut self, probe: Result<Vec<u8>, String>) -> (r: Result<
        String,
        ProbeError,
    >)
        ensures
            final(self).key() == old(self).key(),
            final(self).slot() == slot_after(old(self).slot(), probe_view(probe)),
            match old(self).slot() {
                Some(v) => r matches Ok(s) && s@ == v,
                None => match probe {
                    Ok(raw) => match normalized(raw@) {
                        Some(c) => r matches Ok(s) && s@ == c,
                        None => r matches Err(e) && e is NotText,
                    },
                    Err(m) => r matches Err(e) && (e matches ProbeError::ResourceAccess(t)
                        && t@ == m@),
                },
            },
    {
        if let Some(s) = &self.value {
            return Ok(s.clone());
        }
        match probe {
            Ok(raw) => {
                let stripped = trim_bytes(&raw);
                match decode_text(stripped) {
                    Some(s) => {
                        self.value = Some(s.clone());
                        Ok(s)
                    },
                    None => Err(ProbeError::NotText),
                }
            },
            Err(m) => Err(ProbeError::ResourceAccess(m)),
        }
    }
}

/// Law — no negative caching: a failed probe leaves an empty slot empty, and a
/// later successful probe on the same cache then stores and yields its
/// normalized value.
pub proof fn lemma_no_negative_caching(cause: Seq<char>, raw: Seq<u8>)
    requires
        normalized(raw) is Some,
    ensures
        slot_after(None, Err::<Seq<u8>, Seq<char>>(cause)) is None,
        slot_after(slot_after(None, Err::<Seq<u8>, Seq<char>>(cause)), Ok(raw)) == Some(
            normalized(raw)->Some_0,
        ),
{
}

/// Law — idempotent memoization: once a value is stored, every further step
/// keeps exactly that value, whatever the probe outcome.
pub proof fn lemma_memoization(v: Seq<char>, probe: Result<Seq<u8>, Seq<char>>)
    ensures
        slot_after(Some(v), probe) == Some(v),
{
}

/// The cache slot after a whole sequence of `get_or_compute` steps, first
/// outcome first.
pub open spec fn slot_after_all(
    slot: Option<Seq<char>>,
    probes: Seq<Result<Seq<u8>, Seq<char>>>,
) -> Option<Seq<char>>
    decreases probes.len(),
{
    if probes.len() == 0 {
        slot
    } else {
        slot_after_all(slot_after(slot, probes[0]), probes.subrange(1, probes.len() as int))
    }
}

/// Law — single flight, sequential core: once a value is stored, any sequence
/// of further steps leaves exactly that value, so every later caller — under
/// the exclusive access that serialises them — observes the one stored
/// identifier, and `lookup` spares each of them the underlying read.
pub proof fn lemma_single_flight(v: Seq<char>, probes: Seq<Result<Seq<u8>, Seq<char>>>)
    ensures
        slot_after_all(Some(v), probes) == Some(v),
    decreases probes.len(),
{
    if probes.len() > 0 {
        lemma_single_flight(v, probes.subrange(1, probes.len() as int));
    }
}

/// Whether `b` is one of the whitespace bytes stripped by normalization.
fn is_space_byte(b: u8) -> (r: bool)
    ensures
        r == is_space(b),
{
    b == 0x20 || b == 0x09 || b == 0x0a || b == 0x0b || b == 0x0c || b == 0x0d
}

/// `v` with all leading and trailing whitespace bytes removed.
fn trim_bytes(v: &Vec<u8>) -> (r: Vec<u8>)
    ensures
        r@ == trimmed(v@),
{
    proof {
        assert(v@.subrange(0, v@.len() as int) =~= v@);
    }
    let mut lo: usize = 0;
    while lo < v.len() && is_space_byte(v[lo])
        invariant
            lo <= v@.len(),
            trimmed(v@.subrange(lo as int, v@.len() as int)) == trimmed(v@),
        decreases v@.len() - lo,
    {
        proof {
            let s = v@.subrange(lo as int, v@.len() as int);
            assert(s[0] == v@[lo as int]);
            assert(s.subrange(1, s.len() as int) =~= v@.subrange(
                lo as int + 1,
                v@.len() as int,
            ));
            assert(trimmed(s) == trimmed(s.subrange(1, s.len() as int)));
        }
        lo = lo + 1;
    }
    let mut hi: usize = v.len();
    while hi > lo && is_space_byte(v[hi - 1])
        invariant
            lo <= hi <= v@.len(),
            lo == v@.len() || !is_space(v@[lo as int]),
            trimmed(v@.subrange(lo as int, hi as int)) == trimmed(v@),
        decreases hi,
    {
        proof {
            let s = v@.subrange(lo as int, hi as int);
            assert(s[0] == v@[lo as int]);
            assert(s[s.len() - 1] == v@[hi as int - 1]);
            assert(s.subrange(0, s.len() - 1) =~= v@.subrange(lo as int, hi as int - 1));
            assert(trimmed(s) == trimmed(s.subrange(0, s.len() - 1)));
        }
        hi = hi - 1;
    }
    proof {
        let s = v@.subrange(lo as int, hi as int);
        if s.len() > 0 {
            assert(s[0] == v@[lo as int]);
            assert(s[s.len() - 1] == v@[hi as int - 1]);
        }
        assert(trimmed(s) == s);
    }
    let mut r: Vec<u8> = Vec::new();
    let mut k: usize = lo;
    while k < hi
        invariant
            lo <= k <= hi <= v@.len(),
            r@ == v@.subrange(lo as int, k as int),
        decreases hi - k,
    {
        r.push(v[k]);
        proof {
            assert(v@.subrange(lo as int, k as int + 1) =~= v@.subrange(lo as int, k as int).push(
                v@[k as int],
            ));
        }
        k = k + 1;
    }
    proof {
        assert(r@ =~= v@.subrange(lo as int, hi as int));
    }
    r
}

/// Relies on `String::from_utf8`: it succeeds exactly on valid UTF-8 input,
/// and the resulting string holds the decoded characters of that input.
#[verifier::external_body]
fn decode_text(raw: Vec<u8>) -> (r: Option<String>)
    ensures
        r is Some <==> valid_utf8(raw@),
        r matches Some(s) ==> s@ == decode_utf8(raw@),
{
    String::from_utf8(raw).ok()
}

} // verus!
