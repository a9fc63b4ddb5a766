//! Small helpers shared by the data models: RobTop's XOR scheme, comparison of optional values and
//! the tokens some boolean and integer fields are written as.

use vstd::prelude::*;
use vstd::std_specs::cmp::PartialEqSpec;
use crate::serde::{bool_token, BoolStyle};

pub mod default_to_none;

verus! {

/// `data` with each byte XOR-ed with the key byte at the same position, the key being repeated as
/// often as needed. An empty key leaves the data unchanged.
pub open spec fn xor_cycled(data: Seq<u8>, key: Seq<u8>) -> Seq<u8> {
    if key.len() == 0 {
        data
    } else {
        Seq::new(data.len(), |i: int| data[i] ^ key[i % (key.len() as int)])
    }
}

/// Performs RobTop's XOR en-/decoding routine on `encoded` using `key`, in place.
///
/// The key is repeated cyclically over the whole input; with an empty key nothing changes.
pub fn cyclic_xor(encoded: &mut Vec<u8>, key: &[u8])
    ensures
        final(encoded)@ == xor_cycled(old(encoded)@, key@),
{
    let klen = key.len();
    if klen == 0 {
        return;
    }
    let ghost orig = encoded@;
    let n = encoded.len();
    let mut i: usize = 0;
    let mut j: usize = 0;
    while i < n
        invariant
            klen == key@.len(),
            klen > 0,
            n == orig.len(),
            encoded@.len() == n,
            i <= n,
            j < klen,
            j == i % klen,
            forall|k: int| 0 <= k < i ==> encoded@[k] == orig[k] ^ key@[k % (klen as int)],
            forall|k: int| i <= k < n ==> encoded@[k] == orig[k],
        decreases n - i,
    {
        let b = encoded[i] ^ key[j];
        encoded.set(i, b);
        assert((i + 1) % (klen as int) == if j + 1 == klen { 0 } else { j + 1 }) by (nonlinear_arith)
            requires
                j == (i as int) % (klen as int),
                j < klen,
                klen > 0,
        {
            vstd::arithmetic::div_mod::lemma_fundamental_div_mod(i as int, klen as int);
            vstd::arithmetic::div_mod::lemma_fundamental_div_mod((i + 1) as int, klen as int);
        }
        i = i + 1;
        j = if j + 1 == klen { 0 } else { j + 1 };
    }
    assert(encoded@ =~= xor_cycled(orig, key@));
}

/// Applying RobTop's XOR scheme twice with the same key gives back the data it started from.
pub proof fn lemma_cyclic_xor_involution(data: Seq<u8>, key: Seq<u8>)
    ensures
        xor_cycled(xor_cycled(data, key), key) == data,
{
    if key.len() > 0 {
        assert forall|i: int| 0 <= i < data.len() implies #[trigger] xor_cycled(
            xor_cycled(data, key),
            key,
        )[i] == data[i] by {
            let a = data[i];
            let k = key[i % (key.len() as int)];
            assert((a ^ k) ^ k == a) by (bit_vector);
        }
        assert(xor_cycled(xor_cycled(data, key), key) =~= data);
    }
}

/// Whether two optional values are both absent, or both present and equal.
pub fn option_variant_eq<A: PartialEq<B>, B>(a: &Option<A>, b: &Option<B>) -> (res: bool)
    ensures
        a is None && b is None ==> res,
        (a is Some) != (b is Some) ==> !res,
        a is Some && b is Some && A::obeys_eq_spec() ==> res == a->0.eq_spec(&b->0),
{
    match (a, b) {
        (Some(x), Some(y)) => x == y,
        (None, None) => true,
        _ => false,
    }
}

/// The token a flag is written as when `false` is written as the empty string.
pub fn false_to_empty_string(b: bool) -> (res: &'static str)
    ensures
        res@ == bool_token(BoolStyle::OneEmpty, b),
{
    proof {
        reveal_strlit("1");
        reveal_strlit("");
    }
    if b { "1" } else { "" }
}

/// The token a flag is written as when `true` is written as `2`.
pub fn true_to_two(b: bool) -> (res: &'static str)
    ensures
        res@ == bool_token(BoolStyle::TwoZero, b),
{
    proof {
        reveal_strlit("2");
        reveal_strlit("0");
    }
    if b { "2" } else { "0" }
}

/// The token a flag is written as when `true` is written as `10`.
pub fn true_to_ten(b: bool) -> (res: &'static str)
    ensures
        res@ == bool_token(BoolStyle::TenZero, b),
{
    proof {
        reveal_strlit("10");
        reveal_strlit("0");
    }
    if b { "10" } else { "0" }
}

} // verus!
