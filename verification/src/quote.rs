//! Raw attestation quotes, and the order in which they compare.
//!
//! A quote is an ordered sequence of bytes. Two quotes are equal where they
//! hold the same bytes, and quotes are ordered as words in a dictionary are:
//! by the first byte in which they differ, a quote coming before every
//! longer one that it begins.

use crate::encoding::{decode_str, hex_string_bytes, is_hex_string};
use crate::error::RegistrationError;
use core::cmp::Ordering;
use vstd::prelude::*;
use vstd::std_specs::cmp::{PartialEqSpecImpl, PartialOrdSpecImpl};
use vstd::std_specs::convert::{FromSpec, FromSpecImpl};

verus! {

/// One attestation quote as received.
#[derive(Debug, Eq, Ord)]
pub struct QuoteBytes(Vec<u8>);

impl View for QuoteBytes {
    type V = Seq<u8>;

    closed spec fn view(&self) -> Seq<u8> {
        self.0@
    }
}

/// Whether `a` and `b` agree in their first `k` bytes.
pub open spec fn agree_up_to(a: Seq<u8>, b: Seq<u8>, k: int) -> bool {
    &&& 0 <= k <= a.len()
    &&& k <= b.len()
    &&& forall|i: int| 0 <= i < k ==> a[i] == b[i]
}

/// Whether `a` comes before `b` on the strength of position `k`: the two
/// agree before `k`, and there `a` ends while `b` goes on, or `a` has the
/// smaller byte.
pub open spec fn precedes_at(a: Seq<u8>, b: Seq<u8>, k: int) -> bool {
    &&& agree_up_to(a, b, k)
    &&& if k == a.len() {
        k < b.len()
    } else {
        k < b.len() && a[k] < b[k]
    }
}

/// Whether `a` comes before `b` in lexicographic order.
pub open spec fn precedes(a: Seq<u8>, b: Seq<u8>) -> bool {
    exists|k: int| precedes_at(a, b, k)
}

/// How two byte strings stand to each other.
#[derive(Clone, Copy, Debug, PartialEq, Eq, Structural)]
pub enum Standing {
    Before,
    Same,
    After,
}

/// How `a` stands to `b` in lexicographic order.
pub open spec fn standing(a: Seq<u8>, b: Seq<u8>) -> Standing {
    if precedes(a, b) {
        Standing::Before
    } else if a == b {
        Standing::Same
    } else {
        Standing::After
    }
}

/// No byte string comes before itself, and of two byte strings at most one
/// comes before the other.
pub proof fn lemma_precedes_is_asymmetric(a: Seq<u8>, b: Seq<u8>)
    ensures
        !(precedes(a, b) && precedes(b, a)),
        !precedes(a, a),
        precedes(a, b) ==> a != b,
{
    if precedes(a, b) && precedes(b, a) {
        let k = choose|k: int| precedes_at(a, b, k);
        let m = choose|m: int| precedes_at(b, a, m);
        if k < m {
            assert(b[k] == a[k]);
        } else if m < k {
            assert(a[m] == b[m]);
        }
    }
    if precedes(a, a) {
        let k = choose|k: int| precedes_at(a, a, k);
    }
}

/// Of two byte strings that differ, one comes before the other.
pub proof fn lemma_precedes_is_total(a: Seq<u8>, b: Seq<u8>)
    ensures
        precedes(a, b) || a == b || precedes(b, a),
{
    lemma_agreement_ends(a, b, 0);
}

proof fn lemma_agreement_ends(a: Seq<u8>, b: Seq<u8>, k: int)
    requires
        agree_up_to(a, b, k),
    ensures
        precedes(a, b) || a == b || precedes(b, a),
    decreases a.len() - k,
{
    if k == a.len() {
        if k == b.len() {
            assert(a =~= b);
        } else {
            assert(precedes_at(a, b, k));
        }
    } else if k == b.len() {
        assert(precedes_at(b, a, k));
    } else if a[k] < b[k] {
        assert(precedes_at(a, b, k));
    } else if b[k] < a[k] {
        assert(precedes_at(b, a, k));
    } else {
        lemma_agreement_ends(a, b, k + 1);
    }
}

/// What comes before something that comes before a third comes before the
/// third.
pub proof fn lemma_precedes_is_transitive(a: Seq<u8>, b: Seq<u8>, c: Seq<u8>)
    requires
        precedes(a, b),
        precedes(b, c),
    ensures
        precedes(a, c),
{
    let k = choose|k: int| precedes_at(a, b, k);
    let m = choose|m: int| precedes_at(b, c, m);
    if k <= m {
        assert(precedes_at(a, c, k));
    } else {
        assert(precedes_at(a, c, m));
    }
}

/// How `a` stands to `b`, found by walking both to the first byte in which
/// they differ.
pub fn lexicographic_order(a: &[u8], b: &[u8]) -> (r: Standing)
    ensures
        r == standing(a@, b@),
{
    let mut i: usize = 0;
    while i < a.len() && i < b.len()
        invariant
            agree_up_to(a@, b@, i as int),
        decreases a@.len() - i,
    {
        if a[i] < b[i] {
            assert(precedes_at(a@, b@, i as int));
            return Standing::Before;
        }
        if a[i] > b[i] {
            assert(precedes_at(b@, a@, i as int));
            proof {
                lemma_precedes_is_asymmetric(a@, b@);
            }
            return Standing::After;
        }
        i += 1;
    }
    proof {
        lemma_precedes_is_asymmetric(a@, b@);
    }
    if i < b.len() {
        assert(precedes_at(a@, b@, i as int));
        Standing::Before
    } else if i < a.len() {
        assert(precedes_at(b@, a@, i as int));
        Standing::After
    } else {
        assert(a@ =~= b@);
        Standing::Same
    }
}

impl QuoteBytes {
    /// Reads a quote from hex text. The text must be an even number of
    /// hexadecimal digits, of either case; each pair of digits is one byte.
    pub fn from_hex(quote_hex: &String) -> (r: Result<QuoteBytes, RegistrationError>)
        ensures
            r is Ok <==> is_hex_string(quote_hex@),
            r matches Ok(quote) ==> quote@ == hex_string_bytes(quote_hex@),
            r matches Err(e) ==> e == RegistrationError::BadEncoding,
    {
        match decode_str(quote_hex.as_str()) {
            Some(bytes) => Ok(QuoteBytes(bytes)),
            None => Err(RegistrationError::BadEncoding),
        }
    }

    /// The bytes of the quote.
    pub fn as_slice(&self) -> (r: &[u8])
        ensures
            r@ == self@,
    {
        self.0.as_slice()
    }
}

impl Clone for QuoteBytes {
    fn clone(&self) -> (r: QuoteBytes)
        ensures
            r@ == self@,
    {
        QuoteBytes(self.0.clone())
    }
}

impl From<Vec<u8>> for QuoteBytes {
    fn from(bytes: Vec<u8>) -> (r: QuoteBytes) {
        QuoteBytes(bytes)
    }
}

impl FromSpecImpl<Vec<u8>> for QuoteBytes {
    open spec fn obeys_from_spec() -> bool {
        true
    }

    closed spec fn from_spec(bytes: Vec<u8>) -> QuoteBytes {
        QuoteBytes(bytes)
    }
}

impl From<QuoteBytes> for Vec<u8> {
    fn from(quote: QuoteBytes) -> (r: Vec<u8>) {
        quote.0
    }
}

impl FromSpecImpl<QuoteBytes> for Vec<u8> {
    open spec fn obeys_from_spec() -> bool {
        true
    }

    closed spec fn from_spec(quote: QuoteBytes) -> Vec<u8> {
        quote.0
    }
}

/// The quote made from bytes holds those bytes.
pub proof fn lemma_quote_from_bytes(bytes: Vec<u8>)
    ensures
        <QuoteBytes as FromSpec<Vec<u8>>>::from_spec(bytes)@ == bytes@,
{
}

/// The bytes that a quote is given up for are those it held.
pub proof fn lemma_bytes_from_quote(quote: QuoteBytes)
    ensures
        <Vec<u8> as FromSpec<QuoteBytes>>::from_spec(quote)@ == quote@,
{
}

impl core::ops::Deref for QuoteBytes {
    type Target = Vec<u8>;

    fn deref(&self) -> (r: &Vec<u8>)
        ensures
            r@ == self@,
    {
        &self.0
    }
}

impl PartialEq for QuoteBytes {
    fn eq(&self, other: &QuoteBytes) -> (r: bool) {
        match lexicographic_order(self.as_slice(), other.as_slice()) {
            Standing::Same => true,
            _ => false,
        }
    }
}

impl PartialEqSpecImpl for QuoteBytes {
    open spec fn obeys_eq_spec() -> bool {
        true
    }

    open spec fn eq_spec(&self, other: &QuoteBytes) -> bool {
        self@ == other@
    }
}

impl PartialOrd for QuoteBytes {
    fn partial_cmp(&self, other: &QuoteBytes) -> (r: Option<Ordering>) {
        match lexicographic_order(self.as_slice(), other.as_slice()) {
            Standing::Before => Some(Ordering::Less),
            Standing::Same => Some(Ordering::Equal),
            Standing::After => Some(Ordering::Greater),
        }
    }
}

impl PartialOrdSpecImpl for QuoteBytes {
    open spec fn obeys_partial_cmp_spec() -> bool {
        true
    }

    open spec fn partial_cmp_spec(&self, other: &QuoteBytes) -> Option<Ordering> {
        match standing(self@, other@) {
            Standing::Before => Some(Ordering::Less),
            Standing::Same => Some(Ordering::Equal),
            Standing::After => Some(Ordering::Greater),
        }
    }
}

} // verus!
