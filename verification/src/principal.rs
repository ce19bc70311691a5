//! Identities of actors and execution units.

use vstd::prelude::*;
use vstd::std_specs::cmp::PartialEqSpecImpl;

verus! {

/// The largest number of bytes an identity may hold.
pub const MAX_PRINCIPAL_LEN: usize = 29;

/// An opaque identity: between 0 and 29 bytes.
///
/// Two principals are equal exactly when they hold the same bytes. The
/// unused tail of the buffer is kept at zero, so equality of the bytes and
/// equality of the values coincide.
#[derive(Clone, Copy, Debug, Hash)]
pub struct Principal {
    len: u8,
    bytes: [u8; 29],
}

/// The text that stands for the identity with the bytes `bytes`: a
/// checksum of the bytes followed by the bytes, written in lower-case
/// base 32 in groups of five characters. What it is for given bytes is
/// settled by the `candid` crate and not stated here.
pub uninterp spec fn principal_text(bytes: Seq<u8>) -> Seq<char>;

/// Calls `candid::Principal::from_slice` and `to_text` on `bytes`. The
/// first accepts up to 29 bytes; the text the second returns depends on
/// nothing but the bytes, and carries the name `principal_text` here. That
/// the two agree is taken on trust.
#[verifier::external_body]
fn text_of(bytes: &[u8]) -> (text: String)
    requires
        bytes@.len() <= MAX_PRINCIPAL_LEN,
    ensures
        text@ == principal_text(bytes@),
{
    candid::Principal::from_slice(bytes).to_text()
}

/// An actor that asks for a unit.
pub type ActorId = Principal;

/// An execution unit handed out by the provisioning service.
pub type UnitId = Principal;

impl View for Principal {
    type V = Seq<u8>;

    closed spec fn view(&self) -> Seq<u8> {
        self.bytes@.take(self.len as int)
    }
}

impl Principal {
    #[verifier::type_invariant]
    closed spec fn padded(self) -> bool {
        &&& self.len <= 29
        &&& forall|i: int| self.len <= i < 29 ==> self.bytes[i] == 0
    }

    /// The identity with no bytes at all.
    pub fn empty() -> (p: Principal)
        ensures
            p@ == Seq::<u8>::empty(),
    {
        let p = Principal { len: 0, bytes: [0u8; 29] };
        assert(p@ =~= Seq::<u8>::empty());
        p
    }

    /// The anonymous identity: the single byte 4.
    pub fn anonymous() -> (p: Principal)
        ensures
            p@ == seq![4u8],
    {
        let mut bytes = [0u8; 29];
        bytes[0] = 4;
        let p = Principal { len: 1, bytes };
        assert(p@ =~= seq![4u8]);
        p
    }

    /// Builds an identity from its bytes; `None` when there are more than 29.
    pub fn from_slice(slice: &[u8]) -> (r: Option<Principal>)
        ensures
            slice@.len() > MAX_PRINCIPAL_LEN ==> r.is_none(),
            slice@.len() <= MAX_PRINCIPAL_LEN ==> r.is_some() && r.unwrap()@ == slice@,
    {
        let n: usize = slice.len();
        if n > 29 {
            return None;
        }
        let mut bytes = [0u8; 29];
        let mut i: usize = 0;
        while i < n
            invariant
                n == slice@.len(),
                n <= 29,
                0 <= i <= n,
                forall|j: int| 0 <= j < i ==> bytes[j] == slice@[j],
                forall|j: int| i <= j < 29 ==> bytes[j] == 0,
            decreases n - i,
        {
            bytes[i] = slice[i];
            i = i + 1;
        }
        let p = Principal { len: n as u8, bytes };
        assert(p@ =~= slice@);
        Some(p)
    }

    /// The bytes of this identity.
    pub fn to_vec(&self) -> (v: Vec<u8>)
        ensures
            v@ == self@,
    {
        proof {
            use_type_invariant(self);
        }
        let mut v: Vec<u8> = Vec::new();
        let mut i: usize = 0;
        while i < self.len as usize
            invariant
                self.len <= 29,
                0 <= i <= self.len,
                v@ == self.bytes@.take(i as int),
            decreases self.len - i,
        {
            v.push(self.bytes[i]);
            assert(self.bytes@.take(i + 1) =~= self.bytes@.take(i as int).push(self.bytes[i as int]));
            i = i + 1;
        }
        v
    }

    /// The text that stands for this identity.
    pub fn to_text(&self) -> (text: String)
        ensures
            text@ == principal_text(self@),
    {
        proof {
            use_type_invariant(self);
        }
        let bytes = self.to_vec();
        text_of(bytes.as_slice())
    }

    /// Whether two identities are the same; equal bytes and equal values
    /// coincide.
    pub fn same(&self, other: &Principal) -> (r: bool)
        ensures
            r == (*self == *other),
            r == (self@ == other@),
    {
        proof {
            use_type_invariant(self);
            use_type_invariant(other);
        }
        if self.len != other.len {
            assert(self@.len() != other@.len());
            return false;
        }
        let mut i: usize = 0;
        while i < 29
            invariant
                0 <= i <= 29,
                self.len == other.len,
                self.len <= 29,
                forall|j: int| self.len <= j < 29 ==> self.bytes[j] == 0 && other.bytes[j] == 0,
                forall|j: int| 0 <= j < i ==> self.bytes[j] == other.bytes[j],
            decreases 29 - i,
        {
            if self.bytes[i] != other.bytes[i] {
                proof {
                    if i < self.len {
                        assert(self@[i as int] != other@[i as int]);
                    }
                }
                return false;
            }
            i = i + 1;
        }
        assert(self.bytes =~= other.bytes);
        true
    }

    /// The number of bytes held.
    pub fn len(&self) -> (n: usize)
        ensures
            n == self@.len(),
            n <= MAX_PRINCIPAL_LEN,
    {
        proof {
            use_type_invariant(self);
        }
        self.len as usize
    }
}

impl PartialEq for Principal {
    fn eq(&self, other: &Principal) -> (same: bool) {
        self.same(other)
    }
}

impl Eq for Principal {}

impl PartialEqSpecImpl for Principal {
    open spec fn obeys_eq_spec() -> bool {
        true
    }

    open spec fn eq_spec(&self, other: &Principal) -> bool {
        *self == *other
    }
}

/// Decides whether `who` occurs in `list`.
pub fn list_contains(list: &Vec<Principal>, who: &Principal) -> (r: bool)
    ensures
        r == list@.contains(*who),
{
    let mut i: usize = 0;
    while i < list.len()
        invariant
            0 <= i <= list@.len(),
            forall|j: int| 0 <= j < i ==> list@[j] != *who,
        decreases list@.len() - i,
    {
        if list[i].same(who) {
            return true;
        }
        i = i + 1;
    }
    false
}

/// Decides whether no identity occurs twice in `list`.
pub fn list_distinct(list: &Vec<Principal>) -> (r: bool)
    ensures
        r == list@.no_duplicates(),
{
    let mut i: usize = 0;
    while i < list.len()
        invariant
            0 <= i <= list@.len(),
            forall|a: int, b: int| 0 <= a < b < i ==> list@[a] != list@[b],
        decreases list@.len() - i,
    {
        let mut j: usize = 0;
        while j < i
            invariant
                0 <= j <= i < list@.len(),
                forall|a: int| 0 <= a < j ==> list@[a] != list@[i as int],
            decreases i - j,
        {
            if list[j].same(&list[i]) {
                return false;
            }
            j = j + 1;
        }
        i = i + 1;
    }
    assert forall|a: int, b: int|
        0 <= a < list@.len() && 0 <= b < list@.len() && a != b implies list@[a] != list@[b] by {
        if a < b {
            assert(list@[a] != list@[b]);
        } else {
            assert(list@[b] != list@[a]);
        }
    }
    true
}

/// A copy of `list`.
pub fn list_copy(list: &Vec<Principal>) -> (copy: Vec<Principal>)
    ensures
        copy@ == list@,
{
    let mut copy: Vec<Principal> = Vec::new();
    let mut i: usize = 0;
    while i < list.len()
        invariant
            0 <= i <= list@.len(),
            copy@ == list@.take(i as int),
        decreases list@.len() - i,
    {
        copy.push(list[i]);
        assert(list@.take(i + 1) =~= list@.take(i as int).push(list@[i as int]));
        i = i + 1;
    }
    assert(copy@ =~= list@);
    copy
}

} // verus!
