//! The application-layer sequence counter: a 4-bit value, advanced modulo 16
//! for every request the master sends.

use vstd::prelude::*;

verus! {

/// Largest value a 4-bit sequence number can take, plus one.
pub const SEQUENCE_MODULUS: u8 = 16;

/// Generates the 4-bit application sequence numbers that tag outgoing
/// requests.  `increment` issues the next number; `previous` reports the
/// number issued last, for comparison against the value echoed by a response.
#[derive(Copy, Clone, PartialEq, Eq, Structural, Debug)]
pub struct Sequence {
    value: u8,
}

impl Sequence {
    /// The number the counter will issue next.
    pub closed spec fn next_value(self) -> int {
        self.value as int
    }

    /// The number the counter issued last.
    pub open spec fn previous_value(self) -> int {
        (self.next_value() + 15) % 16
    }

    pub open spec fn wf(self) -> bool {
        0 <= self.next_value() < 16
    }

    /// A fresh counter; its first issued number is zero.
    pub fn new() -> (r: Self)
        ensures
            r.wf(),
            r.next_value() == 0,
    {
        Sequence { value: 0 }
    }

    /// Issues the next sequence number and advances the counter modulo 16.
    pub fn increment(&mut self) -> (r: u8)
        requires
            old(self).wf(),
        ensures
            final(self).wf(),
            r as int == old(self).next_value(),
            final(self).next_value() == (old(self).next_value() + 1) % 16,
            final(self).previous_value() == old(self).next_value(),
    {
        let issued = self.value;
        self.value = (self.value + 1) % SEQUENCE_MODULUS;
        proof {
            lemma_mod16_successor(issued as int);
        }
        issued
    }

    /// The sequence number issued by the most recent `increment`.
    pub fn previous(&self) -> (r: u8)
        requires
            self.wf(),
        ensures
            r as int == self.previous_value(),
    {
        (self.value + SEQUENCE_MODULUS - 1) % SEQUENCE_MODULUS
    }
}

impl Default for Sequence {
    fn default() -> (r: Self)
        ensures
            r.wf(),
            r.next_value() == 0,
    {
        Sequence::new()
    }
}

/// The value a fresh counter issues on its `n`-th call to `increment`,
/// counting from zero.
pub open spec fn nth_issued(n: nat) -> int
    decreases n,
{
    if n == 0 {
        0
    } else {
        (nth_issued((n - 1) as nat) + 1) % 16
    }
}

/// For any value below the modulus, advancing once more yields the successor
/// modulo 16.
pub proof fn lemma_mod16_successor(v: int)
    requires
        0 <= v < 16,
    ensures
        (v + 1) % 16 == if v == 15 { 0int } else { v + 1 },
        ((v + 1) % 16 + 15) % 16 == v,
{
    if v < 15 {
        vstd::arithmetic::div_mod::lemma_small_mod((v + 1) as nat, 16);
        vstd::arithmetic::div_mod::lemma_mod_add_multiples_vanish(v, 16);
        vstd::arithmetic::div_mod::lemma_small_mod(v as nat, 16);
    }
}

/// Sequence numbers issued by repeated `increment` calls on a fresh counter
/// are monotonic modulo the 4-bit boundary: the `n`-th issued value is
/// `n % 16`, so the counter climbs by one per request and wraps from 15 back
/// to 0.
pub proof fn lemma_sequence_wraps(n: nat)
    ensures
        nth_issued(n) == n % 16,
        0 <= nth_issued(n) < 16,
    decreases n,
{
    vstd::arithmetic::div_mod::lemma_mod_division_less_than_divisor(n as int, 16);
    if n > 0 {
        lemma_sequence_wraps((n - 1) as nat);
        vstd::arithmetic::div_mod::lemma_add_mod_noop((n - 1) as int, 1, 16);
        vstd::arithmetic::div_mod::lemma_small_mod(1, 16);
    }
}

} // verus!
