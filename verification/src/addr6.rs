//! The address value type and its bit-level classification predicates.

use vstd::prelude::*;

verus! {

use vstd::std_specs::convert::FromSpec;
use vstd::std_specs::cmp::PartialOrdSpec;

/// A MAC address in EUI-48 format: exactly six octets, ordered in
/// transmission order. Octet 0 carries the multicast bit (bit 0) and the
/// local-administration bit (bit 1). Every byte pattern is a valid address.
#[derive(Debug, Hash, Copy, Clone, Ord)]
pub struct MacAddr6([u8; 6]);

/// All six bytes of the sequence are zero.
pub open spec fn all_zero(s: Seq<u8>) -> bool {
    forall|i: int| 0 <= i < s.len() ==> s[i] == 0
}

/// All six bytes of the sequence are `0xFF`.
pub open spec fn all_ones(s: Seq<u8>) -> bool {
    forall|i: int| 0 <= i < s.len() ==> s[i] == 0xFF
}

impl View for MacAddr6 {
    type V = Seq<u8>;

    closed spec fn view(&self) -> Seq<u8> {
        self.0@
    }
}

impl MacAddr6 {
    /// Creates a new `MacAddr6` address from six explicit octets in
    /// transmission order.
    pub fn new(a: u8, b: u8, c: u8, d: u8, e: u8, f: u8) -> (r: MacAddr6)
        ensures
            r@ == seq![a, b, c, d, e, f],
    {
        let r = MacAddr6([a, b, c, d, e, f]);
        proof {
            assert(r@ =~= seq![a, b, c, d, e, f]);
        }
        r
    }

    /// The address is nil: all six bytes are zero.
    pub open spec fn spec_is_nil(&self) -> bool {
        all_zero(self@)
    }

    /// The address is broadcast: all six bytes are `0xFF`.
    pub open spec fn spec_is_broadcast(&self) -> bool {
        all_ones(self@)
    }

    /// The address is unicast: bit 0 of byte 0 is clear.
    pub open spec fn spec_is_unicast(&self) -> bool {
        self@[0] & 0x01 == 0
    }

    /// The address is multicast: bit 0 of byte 0 is set.
    pub open spec fn spec_is_multicast(&self) -> bool {
        self@[0] & 0x01 == 1
    }

    /// The address is universally administered: bit 1 of byte 0 is clear.
    pub open spec fn spec_is_universal(&self) -> bool {
        self@[0] & 0x02 == 0
    }

    /// The address is locally administered: bit 1 of byte 0 is set.
    pub open spec fn spec_is_local(&self) -> bool {
        self@[0] & 0x02 == 2
    }

    /// Returns `true` if the address is nil.
    pub fn is_nil(&self) -> (r: bool)
        ensures
            r == self.spec_is_nil(),
    {
        let r = self.0[0] == 0 && self.0[1] == 0 && self.0[2] == 0 && self.0[3] == 0
            && self.0[4] == 0 && self.0[5] == 0;
        r
    }

    /// Returns `true` if the address is broadcast.
    pub fn is_broadcast(&self) -> (r: bool)
        ensures
            r == self.spec_is_broadcast(),
    {
        let r = self.0[0] == 0xFF && self.0[1] == 0xFF && self.0[2] == 0xFF && self.0[3] == 0xFF
            && self.0[4] == 0xFF && self.0[5] == 0xFF;
        r
    }

    /// Returns `true` if the address is unicast (single recipient).
    pub fn is_unicast(&self) -> (r: bool)
        ensures
            r == self.spec_is_unicast(),
    {
        self.0[0] & 0x01 == 0
    }

    /// Returns `true` if the address is multicast (group recipient).
    pub fn is_multicast(&self) -> (r: bool)
        ensures
            r == self.spec_is_multicast(),
    {
        self.0[0] & 0x01 == 1
    }

    /// Returns `true` if the address is universally administered (assigned by
    /// a registered vendor).
    pub fn is_universal(&self) -> (r: bool)
        ensures
            r == self.spec_is_universal(),
    {
        self.0[0] & 0x02 == 0
    }

    /// Returns `true` if the address is locally administered (overridden by
    /// software or an administrator).
    pub fn is_local(&self) -> (r: bool)
        ensures
            r == self.spec_is_local(),
    {
        self.0[0] & 0x02 == 2
    }

    /// Consumes the address and returns its raw bytes.
    pub fn into_bytes(self) -> (r: [u8; 6])
        ensures
            r@ == self@,
    {
        self.0
    }

    /// Returns a read-only view of the six raw bytes.
    pub fn as_bytes(&self) -> (r: &[u8; 6])
        ensures
            r@ == self@,
    {
        &self.0
    }

    /// Overwrites one byte of the address in place; mutation directly changes
    /// the address's identity, with no re-validation.
    pub fn set_byte(&mut self, index: usize, value: u8)
        requires
            index < 6,
        ensures
            final(self)@ == old(self)@.update(index as int, value),
    {
        self.0[index] = value;
    }
}

impl From<[u8; 6]> for MacAddr6 {
    /// Builds an address by copying a caller-supplied six-byte sequence.
    fn from(bytes: [u8; 6]) -> (r: MacAddr6) {
        MacAddr6(bytes)
    }
}

impl vstd::std_specs::convert::FromSpecImpl<[u8; 6]> for MacAddr6 {
    open spec fn obeys_from_spec() -> bool {
        true
    }

    closed spec fn from_spec(bytes: [u8; 6]) -> MacAddr6 {
        MacAddr6(bytes)
    }
}

/// An address built from a six-byte sequence holds exactly those bytes.
pub broadcast proof fn lemma_from_spec_view(bytes: [u8; 6])
    ensures
        (#[trigger] MacAddr6::from_spec(bytes))@ == bytes@,
{
}

impl Default for MacAddr6 {
    /// The default address is the nil address: all six bytes zero.
    fn default() -> (r: MacAddr6)
        ensures
            r.spec_is_nil(),
    {
        MacAddr6([0, 0, 0, 0, 0, 0])
    }
}

/// Invariant law: the byte sequence of an address always has length six.
pub broadcast proof fn lemma_view_len(a: MacAddr6)
    ensures
        (#[trigger] a@).len() == 6,
{
}

/// `x` precedes `y` in lexicographic byte order: at the first index where
/// the two sequences differ, `x` holds the smaller byte.
pub open spec fn lex_lt(x: Seq<u8>, y: Seq<u8>) -> bool
    recommends
        x.len() == y.len(),
{
    exists|i: int|
        0 <= i < x.len() && x[i] < y[i] && (forall|j: int| 0 <= j < i ==> x[j] == y[j])
}

/// Two sequences that first differ at index `i`, where `x` holds the smaller
/// byte, are ordered `x` before `y` and not the other way round.
proof fn lemma_lex_lt_at(x: Seq<u8>, y: Seq<u8>, i: int)
    requires
        x.len() == y.len(),
        0 <= i < x.len(),
        x[i] < y[i],
        forall|j: int| 0 <= j < i ==> x[j] == y[j],
    ensures
        lex_lt(x, y),
        !lex_lt(y, x),
{
    assert(0 <= i < x.len() && x[i] < y[i] && (forall|j: int| 0 <= j < i ==> x[j] == y[j]));
    if lex_lt(y, x) {
        let k = choose|k: int|
            0 <= k < y.len() && y[k] < x[k] && (forall|j: int| 0 <= j < k ==> y[j] == x[j]);
        if k < i {
            assert(x[k] == y[k]);
        } else if k == i {
            assert(x[i] < y[i] && y[i] < x[i]);
        } else {
            assert(y[i] == x[i]);
        }
        assert(false);
    }
}

/// A sequence never precedes itself in lexicographic order.
proof fn lemma_lex_lt_irrefl(x: Seq<u8>, y: Seq<u8>)
    requires
        x == y,
    ensures
        !lex_lt(x, y),
{
    if lex_lt(x, y) {
        let k = choose|k: int|
            0 <= k < x.len() && x[k] < y[k] && (forall|j: int| 0 <= j < k ==> x[j] == y[j]);
        assert(false);
    }
}

impl PartialEq for MacAddr6 {
    /// Equality is byte-wise over the whole sequence.
    fn eq(&self, other: &MacAddr6) -> (r: bool) {
        let r = self.0[0] == other.0[0] && self.0[1] == other.0[1] && self.0[2] == other.0[2]
            && self.0[3] == other.0[3] && self.0[4] == other.0[4] && self.0[5] == other.0[5];
        proof {
            if r {
                assert(self@ =~= other@);
            }
        }
        r
    }
}

impl vstd::std_specs::cmp::PartialEqSpecImpl for MacAddr6 {
    open spec fn obeys_eq_spec() -> bool {
        true
    }

    open spec fn eq_spec(&self, other: &MacAddr6) -> bool {
        self@ == other@
    }
}

impl Eq for MacAddr6 {
}

impl PartialOrd for MacAddr6 {
    /// Ordering is lexicographic over the bytes in sequence order.
    fn partial_cmp(&self, other: &MacAddr6) -> (r: Option<core::cmp::Ordering>) {
        let mut i: usize = 0;
        while i < 6
            invariant
                i <= 6,
                forall|j: int| 0 <= j < i ==> self@[j] == other@[j],
            decreases 6 - i,
        {
            if self.0[i] < other.0[i] {
                proof {
                    lemma_lex_lt_at(self@, other@, i as int);
                }
                return Some(core::cmp::Ordering::Less);
            }
            if other.0[i] < self.0[i] {
                proof {
                    lemma_lex_lt_at(other@, self@, i as int);
                }
                return Some(core::cmp::Ordering::Greater);
            }
            i = i + 1;
        }
        proof {
            assert(self@ =~= other@);
            lemma_lex_lt_irrefl(self@, other@);
        }
        Some(core::cmp::Ordering::Equal)
    }
}

impl vstd::std_specs::cmp::PartialOrdSpecImpl for MacAddr6 {
    open spec fn obeys_partial_cmp_spec() -> bool {
        true
    }

    open spec fn partial_cmp_spec(&self, other: &MacAddr6) -> Option<core::cmp::Ordering> {
        if lex_lt(self@, other@) {
            Some(core::cmp::Ordering::Less)
        } else if lex_lt(other@, self@) {
            Some(core::cmp::Ordering::Greater)
        } else {
            Some(core::cmp::Ordering::Equal)
        }
    }
}

/// Ordering law: for two addresses `x` and `y` that first differ at byte
/// index `i`, `x` compares below `y` exactly when `x`'s byte at `i` is the
/// smaller one.
pub proof fn lemma_lexicographic_order(x: MacAddr6, y: MacAddr6, i: int)
    requires
        0 <= i < 6,
        x@[i] != y@[i],
        forall|j: int| 0 <= j < i ==> x@[j] == y@[j],
    ensures
        lex_lt(x@, y@) <==> x@[i] < y@[i],
        x.partial_cmp_spec(&y) == Some(core::cmp::Ordering::Less) <==> x@[i] < y@[i],
{
    lemma_view_len(x);
    lemma_view_len(y);
    if x@[i] < y@[i] {
        lemma_lex_lt_at(x@, y@, i);
    } else {
        lemma_lex_lt_at(y@, x@, i);
    }
}

/// Partition law: every address is exactly one of unicast and multicast,
/// according to bit 0 of byte 0.
pub proof fn lemma_unicast_multicast_partition(x: MacAddr6)
    ensures
        x.spec_is_unicast() != x.spec_is_multicast(),
{
    let b = x@[0];
    assert((b & 0x01 == 0) != (b & 0x01 == 1)) by (bit_vector);
}

/// Partition law: every address is exactly one of universally and locally
/// administered, according to bit 1 of byte 0.
pub proof fn lemma_universal_local_partition(x: MacAddr6)
    ensures
        x.spec_is_universal() != x.spec_is_local(),
{
    let b = x@[0];
    assert((b & 0x02 == 0) != (b & 0x02 == 2)) by (bit_vector);
}

/// Round-trip law: an address built from a six-byte sequence gives back
/// exactly that sequence. `a` is any address built from `s`, as `From`
/// promises it; `out` is any result of `into_bytes` on `a`.
pub proof fn lemma_from_into_round_trip(s: [u8; 6], a: MacAddr6, out: [u8; 6])
    requires
        a == MacAddr6::from_spec(s),
        out@ == a@,
    ensures
        out == s,
{
    assert(out =~= s);
}

} // verus!
