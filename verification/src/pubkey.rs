use vstd::prelude::*;

verus! {

broadcast use vstd::array::group_array_axioms;

/// A 32-byte account address.
#[derive(Clone, Copy, Debug, PartialEq, Eq)]
pub struct Pubkey(pub [u8; 32]);

impl View for Pubkey {
    type V = Seq<u8>;

    open spec fn view(&self) -> Seq<u8> {
        self.0@
    }
}

/// The array whose first `n` entries are `s[0..n]`, the others zero.
closed spec fn array_prefix(s: Seq<u8>, n: nat) -> [u8; 32]
    decreases n,
{
    if n == 0 {
        vstd::array::spec_array_fill_for_copy_type::<u8, 32>(0u8)
    } else {
        vstd::array::spec_array_update(array_prefix(s, (n - 1) as nat), n - 1, s[n - 1])
    }
}

proof fn lemma_array_prefix(s: Seq<u8>, n: nat)
    requires
        n <= 32,
    ensures
        forall|i: int| 0 <= i < n ==> #[trigger] array_prefix(s, n)@[i] == s[i],
    decreases n,
{
    if n > 0 {
        let prev = array_prefix(s, (n - 1) as nat);
        lemma_array_prefix(s, (n - 1) as nat);
        assert(array_prefix(s, n)@ == prev@.update(n - 1, s[n - 1]));
    }
}

/// The address whose bytes are `s` (for a sequence of 32 bytes).
pub closed spec fn pubkey_from_seq(s: Seq<u8>) -> Pubkey {
    Pubkey(array_prefix(s, 32))
}

/// An address is determined by its bytes, and `pubkey_from_seq` gives
/// back the address of a 32-byte sequence.
pub proof fn lemma_pubkey_from_seq(s: Seq<u8>)
    requires
        s.len() == 32,
    ensures
        pubkey_from_seq(s)@ == s,
        forall|k: Pubkey| k@ == s ==> k == pubkey_from_seq(s),
{
    lemma_array_prefix(s, 32);
    assert(pubkey_from_seq(s)@ =~= s);
    assert forall|k: Pubkey| k@ == s implies k == pubkey_from_seq(s) by {
        assert(k.0 =~= pubkey_from_seq(s).0);
    }
}

/// Two addresses are equal exactly when their bytes are.
pub proof fn lemma_pubkey_view_injective(a: Pubkey, b: Pubkey)
    ensures
        a@ == b@ <==> a == b,
{
    if a@ == b@ {
        assert(a.0 =~= b.0);
    }
}

impl Pubkey {
    /// Byte-wise comparison of two addresses.
    pub fn key_eq(&self, other: &Pubkey) -> (r: bool)
        ensures
            r == (*self == *other),
            r == (self@ == other@),
    {
        let mut i: usize = 0;
        while i < 32
            invariant
                i <= 32,
                forall|j: int| 0 <= j < i ==> self.0@[j] == other.0@[j],
            decreases 32 - i,
        {
            if self.0[i] != other.0[i] {
                proof {
                    lemma_pubkey_view_injective(*self, *other);
                }
                return false;
            }
            i = i + 1;
        }
        assert(self@ =~= other@);
        proof {
            lemma_pubkey_view_injective(*self, *other);
        }
        true
    }

    /// The address formed by the 32 bytes of `data` from `offset` on.
    pub fn from_slice_at(data: &[u8], offset: usize) -> (k: Pubkey)
        requires
            offset + 32 <= data.len(),
        ensures
            k@ == data@.subrange(offset as int, offset + 32),
            k == pubkey_from_seq(data@.subrange(offset as int, offset + 32)),
    {
        let mut a = [0u8; 32];
        let mut i: usize = 0;
        while i < 32
            invariant
                i <= 32,
                offset + 32 <= data.len(),
                forall|j: int| 0 <= j < i ==> a@[j] == data@[offset + j],
            decreases 32 - i,
        {
            a[i] = data[offset + i];
            i = i + 1;
        }
        let k = Pubkey(a);
        assert(k@ =~= data@.subrange(offset as int, offset + 32));
        proof {
            lemma_pubkey_from_seq(data@.subrange(offset as int, offset + 32));
        }
        k
    }

    /// Appends the 32 bytes of the address to `out`.
    pub fn write_to(&self, out: &mut Vec<u8>)
        ensures
            final(out)@ == old(out)@ + self@,
    {
        let mut i: usize = 0;
        while i < 32
            invariant
                i <= 32,
                out@ == old(out)@ + self@.take(i as int),
            decreases 32 - i,
        {
            out.push(self.0[i]);
            assert(self@.take(i + 1) =~= self@.take(i as int).push(self.0@[i as int]));
            i = i + 1;
        }
        assert(self@.take(32) =~= self@);
    }
}

} // verus!
