//! 32-byte account addresses, held as plain bytes.
use vstd::prelude::*;

verus! {

/// A 32-byte account address: the identity of an account, a mint, or a
/// program. Held as raw bytes so that contracts can speak of it as a
/// byte sequence.
#[derive(Clone, Copy, Debug)]
pub struct Address {
    pub bytes: [u8; 32],
}

impl View for Address {
    type V = Seq<u8>;

    open spec fn view(&self) -> Seq<u8> {
        self.bytes@
    }
}

/// Byte-wise equality of two addresses.
pub fn address_eq(a: &Address, b: &Address) -> (r: bool)
    ensures
        r <==> a@ == b@,
{
    let mut k: usize = 0;
    while k < 32
        invariant
            k <= 32,
            forall|m: int| 0 <= m < k ==> a.bytes@[m] == b.bytes@[m],
        decreases 32 - k,
    {
        if a.bytes[k] != b.bytes[k] {
            assert(a@[k as int] != b@[k as int]);
            return false;
        }
        k = k + 1;
    }
    proof {
        assert(a@ =~= b@);
    }
    true
}

} // verus!
