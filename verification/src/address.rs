//! Mailbox addresses.

use vstd::prelude::*;

verus! {

/// Transport type of the addresses that name mailboxes on the local node.
pub const LOCAL: u8 = 0;

/// What an address is: a transport type and the bytes that name the mailbox.
pub struct AddressView {
    pub tt: u8,
    pub bytes: Seq<u8>,
}

/// The identifier of one mailbox. Two addresses are the same address when
/// their transport types and their bytes agree.
#[derive(Debug, Hash)]
pub struct Address {
    pub tt: u8,
    pub inner: Vec<u8>,
}

impl View for Address {
    type V = AddressView;

    open spec fn view(&self) -> AddressView {
        AddressView { tt: self.tt, bytes: self.inner@ }
    }
}

/// An ASCII digit or one of the letters `a` to `f`.
pub open spec fn is_lower_hex(b: u8) -> bool {
    (0x30 <= b <= 0x39) || (0x61 <= b <= 0x66)
}

impl AddressView {
    /// The shape of every randomly drawn address: local, and thirty-two
    /// lower-case hexadecimal digits that spell sixteen random bytes.
    pub open spec fn is_random_local(self) -> bool {
        &&& self.tt == LOCAL
        &&& self.bytes.len() == 32
        &&& forall|i: int| 0 <= i < 32 ==> is_lower_hex(#[trigger] self.bytes[i])
    }
}

/// Draws an address through `ockam_core::Address::random`, which samples
/// sixteen bytes, writes them as lower-case hexadecimal and stamps the result
/// with the transport type it was given. Nothing is claimed of which digits
/// come out.
#[verifier::external_body]
fn draw_address(tt: u8) -> (r: Address)
    ensures
        r@.tt == tt,
        r@.bytes.len() == 32,
        forall|i: int| 0 <= i < 32 ==> is_lower_hex(#[trigger] r@.bytes[i]),
{
    let drawn = ockam_core::Address::random(tt);
    Address { tt: drawn.tt, inner: drawn.to_vec() }
}

fn same_bytes(a: &Vec<u8>, b: &Vec<u8>) -> (r: bool)
    ensures
        r == (a@ == b@),
{
    if a.len() != b.len() {
        return false;
    }
    let mut i: usize = 0;
    while i < a.len()
        invariant
            a.len() == b.len(),
            i <= a.len(),
            forall|j: int| 0 <= j < i ==> a@[j] == b@[j],
        decreases a.len() - i,
    {
        if a[i] != b[i] {
            return false;
        }
        i += 1;
    }
    assert(a@ =~= b@);
    true
}

impl Address {
    pub fn new(tt: u8, inner: Vec<u8>) -> (r: Address)
        ensures
            r@ == (AddressView { tt, bytes: inner@ }),
    {
        Address { tt, inner }
    }

    /// The address of a mailbox on the local node.
    pub fn local(inner: Vec<u8>) -> (r: Address)
        ensures
            r@ == (AddressView { tt: LOCAL, bytes: inner@ }),
    {
        Address { tt: LOCAL, inner }
    }

    /// A fresh local address. The tag says what the address is for; it is
    /// for the reader of a log and leaves no trace in the address.
    ///
    /// Uniqueness is a matter of chance: sixteen random bytes make a
    /// collision negligible, and nothing rules one out.
    pub fn random_tagged(_tag: &str) -> (r: Address)
        ensures
            r@.is_random_local(),
    {
        draw_address(LOCAL)
    }
}

impl Clone for Address {
    fn clone(&self) -> (r: Address)
        ensures
            r@ == self@,
    {
        Address { tt: self.tt, inner: self.inner.clone() }
    }
}

impl PartialEq for Address {
    fn eq(&self, other: &Address) -> (r: bool) {
        self.tt == other.tt && same_bytes(&self.inner, &other.inner)
    }
}

impl Eq for Address {}

impl vstd::std_specs::cmp::PartialEqSpecImpl for Address {
    open spec fn obeys_eq_spec() -> bool {
        true
    }

    open spec fn eq_spec(&self, other: &Address) -> bool {
        self@ == other@
    }
}

} // verus!
