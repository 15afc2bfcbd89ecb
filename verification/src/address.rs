//! Account addresses: 32 opaque bytes.

use vstd::prelude::*;
use vstd::array::{spec_array_fill_for_copy_type, spec_array_update};

verus! {

/// The identity of an account or a program.
#[derive(Clone, Copy, Debug, PartialEq, Eq, Hash)]
pub struct Address {
    pub bytes: [u8; 32],
}

impl View for Address {
    type V = Seq<u8>;

    open spec fn view(&self) -> Seq<u8> {
        self.bytes@
    }
}

impl Address {
    /// The address whose bytes are the 32 bytes of `s`.
    pub open spec fn from_seq(s: Seq<u8>) -> Address
        recommends
            s.len() == 32,
    {
        Address { bytes: first_bytes(s, 32) }
    }

    /// Reads the address that stands in `data` from `at` on.
    pub fn read(data: &[u8], at: usize) -> (a: Address)
        requires
            at + 32 <= data.len(),
        ensures
            a == Address::from_seq(data@.subrange(at as int, at + 32)),
            a@ == data@.subrange(at as int, at + 32),
    {
        let mut bytes: [u8; 32] = [0u8; 32];
        let mut i: usize = 0;
        while i < 32
            invariant
                i <= 32,
                at + 32 <= data.len(),
                forall|j: int| 0 <= j < i ==> bytes@[j] == data@[at + j],
            decreases 32 - i,
        {
            bytes[i] = data[at + i];
            i += 1;
        }
        let a = Address { bytes };
        proof {
            let s = data@.subrange(at as int, at + 32);
            assert(a@ =~= s);
            from_seq_view(s);
            same_bytes_same_address(a, Address::from_seq(s));
        }
        a
    }

    /// Writes the address into `data` from `at` on.
    pub fn write(&self, data: &mut Vec<u8>, at: usize)
        requires
            at + 32 <= old(data).len(),
        ensures
            final(data)@.len() == old(data)@.len(),
            final(data)@.subrange(at as int, at + 32) == self@,
            forall|j: int|
                0 <= j < at || at + 32 <= j < old(data)@.len() ==> final(data)@[j] == old(data)@[j],
    {
        let mut i: usize = 0;
        while i < 32
            invariant
                i <= 32,
                at + 32 <= data.len(),
                data@.len() == old(data)@.len(),
                forall|j: int| 0 <= j < i ==> data@[at + j] == self.bytes@[j],
                forall|j: int|
                    0 <= j < at || at + 32 <= j < old(data)@.len() ==> data@[j] == old(data)@[j],
            decreases 32 - i,
        {
            data[at + i] = self.bytes[i];
            i += 1;
        }
        assert(data@.subrange(at as int, at + 32) =~= self@);
    }

    /// Wraps 32 bytes as an address.
    pub fn new(bytes: [u8; 32]) -> (a: Address)
        ensures
            a.bytes == bytes,
    {
        Address { bytes }
    }

    /// Whether two addresses hold the same bytes.
    pub fn same(&self, other: &Address) -> (b: bool)
        ensures
            b == (*self == *other),
            b == (self@ == other@),
    {
        let mut i: usize = 0;
        while i < 32
            invariant
                i <= 32,
                forall|j: int| 0 <= j < i ==> self.bytes@[j] == other.bytes@[j],
            decreases 32 - i,
        {
            if self.bytes[i] != other.bytes[i] {
                return false;
            }
            i += 1;
        }
        proof {
            assert(self@ =~= other@);
            same_bytes_same_address(*self, *other);
        }
        true
    }
}

/// Two addresses with the same byte sequence are the same address.
pub proof fn same_bytes_same_address(a: Address, b: Address)
    requires
        a@ == b@,
    ensures
        a == b,
{
    assert(a.bytes =~= b.bytes);
}

/// The array that starts with the first `n` bytes of `s` and is zero after them.
pub open spec fn first_bytes(s: Seq<u8>, n: nat) -> [u8; 32]
    decreases n,
{
    if n == 0 {
        spec_array_fill_for_copy_type::<u8, 32>(0u8)
    } else {
        spec_array_update(first_bytes(s, (n - 1) as nat), n - 1, s[n - 1])
    }
}

proof fn first_bytes_view(s: Seq<u8>, n: nat)
    requires
        n <= 32,
        n <= s.len(),
    ensures
        forall|i: int| 0 <= i < n ==> first_bytes(s, n)@[i] == s[i],
    decreases n,
{
    if n > 0 {
        first_bytes_view(s, (n - 1) as nat);
    }
}

/// An address made from 32 bytes holds those bytes.
pub proof fn from_seq_view(s: Seq<u8>)
    requires
        s.len() == 32,
    ensures
        Address::from_seq(s)@ == s,
{
    first_bytes_view(s, 32);
    assert(Address::from_seq(s)@ =~= s);
}

/// An address is the one made from its bytes.
pub proof fn from_seq_of_view(a: Address)
    ensures
        Address::from_seq(a@) == a,
{
    from_seq_view(a@);
    same_bytes_same_address(Address::from_seq(a@), a);
}

} // verus!
