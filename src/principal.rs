//! Identities (principals) held as their raw bytes.
use candid::Principal;
use vstd::prelude::*;

verus! {

/// The most bytes a principal may hold.
pub const MAX_PRINCIPAL_LEN: usize = 29;

/// The bytes of the principal that a textual principal denotes, or `None`
/// where the text is not a valid principal.
pub uninterp spec fn principal_text_bytes(text: Seq<char>) -> Option<Seq<u8>>;

/// An identity on the network, held as the bytes of its principal.
#[derive(Debug, PartialEq, Eq)]
pub struct PrincipalId {
    bytes: Vec<u8>,
}

impl View for PrincipalId {
    type V = Seq<u8>;

    closed spec fn view(&self) -> Seq<u8> {
        self.bytes@
    }
}

impl PrincipalId {
    #[verifier::type_invariant]
    closed spec fn inv(self) -> bool {
        self.bytes@.len() <= MAX_PRINCIPAL_LEN
    }

    /// The principal made of `bytes`, or `None` where there are too many.
    pub fn from_bytes(bytes: Vec<u8>) -> (r: Option<PrincipalId>)
        ensures
            bytes@.len() <= MAX_PRINCIPAL_LEN <==> r is Some,
            r matches Some(p) ==> p@ == bytes@,
    {
        if bytes.len() <= MAX_PRINCIPAL_LEN {
            Some(PrincipalId { bytes })
        } else {
            None
        }
    }

    /// The principal that `text` denotes, or `None` where it denotes none.
    pub fn from_text(text: &str) -> (r: Option<PrincipalId>)
        ensures
            r is Some <==> principal_text_bytes(text@) is Some,
            r matches Some(p) ==> principal_text_bytes(text@) == Some(p@),
    {
        match parse_principal_text(text) {
            Some(bytes) => PrincipalId::from_bytes(bytes),
            None => None,
        }
    }

    /// A copy of the principal's bytes.
    pub fn to_bytes(&self) -> (r: Vec<u8>)
        ensures
            r@ == self@,
    {
        self.bytes.clone()
    }

    /// The principal's bytes, at most `MAX_PRINCIPAL_LEN` of them.
    pub fn as_bytes(&self) -> (r: &[u8])
        ensures
            r@ == self@,
            r@.len() <= MAX_PRINCIPAL_LEN,
    {
        proof {
            use_type_invariant(self);
        }
        self.bytes.as_slice()
    }

    /// Whether two principals are the same identity.
    pub fn same_as(&self, other: &PrincipalId) -> (r: bool)
        ensures
            r == (self@ == other@),
    {
        let a = &self.bytes;
        let b = &other.bytes;
        if a.len() != b.len() {
            return false;
        }
        let mut i: usize = 0;
        while i < a.len()
            invariant
                a@ == self@,
                b@ == other@,
                a@.len() == b@.len(),
                i <= a@.len(),
                a@.subrange(0, i as int) == b@.subrange(0, i as int),
            decreases a@.len() - i,
        {
            if a[i] != b[i] {
                assert(a@[i as int] != b@[i as int]);
                return false;
            }
            assert(a@.subrange(0, i + 1) == a@.subrange(0, i as int).push(a@[i as int]));
            assert(b@.subrange(0, i + 1) == b@.subrange(0, i as int).push(b@[i as int]));
            i = i + 1;
        }
        assert(a@ == a@.subrange(0, a@.len() as int));
        assert(b@ == b@.subrange(0, b@.len() as int));
        true
    }
}

/// Relies on `candid::Principal::from_text`: it parses the textual form of a
/// principal, and the bytes of a parsed principal number at most 29.
#[verifier::external_body]
fn parse_principal_text(text: &str) -> (r: Option<Vec<u8>>)
    ensures
        r is Some <==> principal_text_bytes(text@) is Some,
        r matches Some(b) ==> principal_text_bytes(text@) == Some(b@) && b@.len()
            <= MAX_PRINCIPAL_LEN,
{
    Principal::from_text(text).ok().map(|p| p.as_slice().to_vec())
}

} // verus!
