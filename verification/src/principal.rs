//! Principals as the library sees them: their significant bytes.
use vstd::prelude::*;

verus! {

/// The textual form of the principal whose bytes are `bytes`, as candid's
/// `Principal::to_text` writes it.
pub uninterp spec fn principal_text(bytes: Seq<u8>) -> Seq<char>;

/// The longest principal the Internet Computer allows, in bytes.
pub const MAX_PRINCIPAL_LEN: usize = 29;

/// A principal, held as its significant bytes (at most
/// [`MAX_PRINCIPAL_LEN`] of them). Two principals are the same exactly when
/// their bytes are.
#[derive(Debug, PartialEq, Eq)]
pub struct PrincipalId {
    bytes: Vec<u8>,
}

impl View for PrincipalId {
    type V = Seq<u8>;

    closed spec fn view(&self) -> Seq<u8> {
        self.bytes@
    }
}

impl PrincipalId {
    #[verifier::type_invariant]
    spec fn short_enough(self) -> bool {
        self.bytes@.len() <= MAX_PRINCIPAL_LEN
    }

    /// The principal whose bytes are `slice`.
    pub fn from_slice(slice: &[u8]) -> (p: PrincipalId)
        requires
            slice@.len() <= MAX_PRINCIPAL_LEN,
        ensures
            p@ == slice@,
    {
        let mut bytes: Vec<u8> = Vec::new();
        let mut i: usize = 0;
        while i < slice.len()
            invariant
                i <= slice@.len(),
                slice@.len() <= MAX_PRINCIPAL_LEN,
                bytes@ == slice@.take(i as int),
            decreases slice@.len() - i,
        {
            bytes.push(slice[i]);
            i = i + 1;
            assert(bytes@ == slice@.take(i as int));
        }
        assert(slice@.take(slice@.len() as int) == slice@);
        PrincipalId { bytes }
    }

    /// The principal's significant bytes.
    pub fn as_slice(&self) -> (s: &[u8])
        ensures
            s@ == self@,
    {
        self.bytes.as_slice()
    }

    /// Whether `self` and `other` are the same principal.
    pub fn same_as(&self, other: &PrincipalId) -> (same: bool)
        ensures
            same == (self@ == other@),
    {
        if self.bytes.len() != other.bytes.len() {
            return false;
        }
        let mut i: usize = 0;
        while i < self.bytes.len()
            invariant
                i <= self@.len(),
                self@.len() == other@.len(),
                forall|j: int| 0 <= j < i ==> self@[j] == other@[j],
            decreases self@.len() - i,
        {
            if self.bytes[i] != other.bytes[i] {
                return false;
            }
            i = i + 1;
        }
        assert(self@ =~= other@);
        true
    }

    /// Calls `candid::Principal::from_slice(..).to_text()`; trusted to give the
    /// textual form of this principal, a function of its bytes alone
    /// ([`principal_text`]). `from_slice` panics on more than
    /// [`MAX_PRINCIPAL_LEN`] bytes, which the `requires` rules out.
    #[verifier::external_body]
    fn candid_text(&self) -> (t: String)
        requires
            self@.len() <= MAX_PRINCIPAL_LEN,
        ensures
            t@ == principal_text(self@),
    {
        candid::Principal::from_slice(self.bytes.as_slice()).to_text()
    }

    /// The textual form of the principal, as the Internet Computer writes it
    /// (e.g. in canister URLs).
    pub fn text(&self) -> (t: String)
        ensures
            t@ == principal_text(self@),
    {
        proof {
            use_type_invariant(self);
        }
        self.candid_text()
    }

    /// A second handle on the same principal.
    pub fn duplicate(&self) -> (p: PrincipalId)
        ensures
            p@ == self@,
    {
        proof {
            use_type_invariant(self);
        }
        PrincipalId::from_slice(self.bytes.as_slice())
    }
}

impl Clone for PrincipalId {
    fn clone(&self) -> (p: Self)
        ensures
            p@ == self@,
    {
        self.duplicate()
    }
}

} // verus!
