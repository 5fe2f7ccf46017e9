//! Unsigned 256-bit integers, held as the 32-byte big-endian word in which a
//! remote call carries them.

use vstd::arithmetic::div_mod::*;
use vstd::arithmetic::power2::*;
use vstd::bits::*;
use vstd::prelude::*;

verus! {

/// The number that `bytes` spell in base 256, most significant byte first.
pub open spec fn be_value(bytes: Seq<u8>) -> nat
    decreases bytes.len(),
{
    if bytes.len() == 0 {
        0
    } else {
        be_value(bytes.drop_last()) * 256 + bytes.last() as nat
    }
}

/// The `len` low-order base-256 digits of `n`, most significant digit first.
pub open spec fn be_bytes(n: nat, len: nat) -> Seq<u8>
    decreases len,
{
    if len == 0 {
        Seq::empty()
    } else {
        be_bytes(n / 256, (len - 1) as nat).push((n % 256) as u8)
    }
}

/// A number of `bytes.len()` digits is below `256` to the power `bytes.len()`.
pub proof fn lemma_be_value_bound(bytes: Seq<u8>)
    ensures
        be_value(bytes) < pow2(8 * bytes.len()),
    decreases bytes.len(),
{
    if bytes.len() == 0 {
        lemma2_to64();
    } else {
        let rest = bytes.drop_last();
        lemma_be_value_bound(rest);
        lemma_pow2_adds(8 * rest.len(), 8);
        lemma2_to64();
        assert(be_value(rest) * 256 + 255 < pow2(8 * rest.len()) * 256) by (nonlinear_arith)
            requires
                be_value(rest) < pow2(8 * rest.len()),
        ;
    }
}

/// A number is zero exactly when all of its digits are.
pub proof fn lemma_be_value_zero(bytes: Seq<u8>)
    ensures
        be_value(bytes) == 0 <==> (forall|i: int| 0 <= i < bytes.len() ==> bytes[i] == 0),
    decreases bytes.len(),
{
    if bytes.len() > 0 {
        let rest = bytes.drop_last();
        lemma_be_value_zero(rest);
        if be_value(bytes) == 0 {
            assert(be_value(rest) == 0 && bytes.last() == 0) by (nonlinear_arith)
                requires
                    be_value(rest) * 256 + bytes.last() as nat == 0,
            ;
            assert forall|i: int| 0 <= i < bytes.len() implies bytes[i] == 0 by {
                if i < rest.len() {
                    assert(rest[i] == bytes[i]);
                }
            }
        }
        if forall|i: int| 0 <= i < bytes.len() ==> bytes[i] == 0 {
            assert forall|i: int| 0 <= i < rest.len() implies rest[i] == 0 by {
                assert(rest[i] == bytes[i]);
            }
            assert(bytes.last() == 0);
        }
    }
}

/// A single digit spells itself.
pub proof fn lemma_be_value_single(bytes: Seq<u8>)
    requires
        bytes.len() == 1,
    ensures
        be_value(bytes) == bytes[0],
{
    assert(be_value(bytes.drop_last()) == 0);
}

/// The digits before position `k` count `256` to the power of the number of
/// digits that follow them.
pub proof fn lemma_be_value_split(bytes: Seq<u8>, k: int)
    requires
        0 <= k <= bytes.len(),
    ensures
        be_value(bytes) == be_value(bytes.take(k)) * pow2((8 * (bytes.len() - k)) as nat)
            + be_value(bytes.skip(k)),
    decreases bytes.len(),
{
    if k == bytes.len() {
        assert(bytes.take(k) =~= bytes);
        assert(bytes.skip(k) =~= Seq::<u8>::empty());
        assert(be_value(bytes.skip(k)) == 0);
        assert(pow2(0) == 1) by {
            lemma2_to64();
        }
        assert(be_value(bytes) * 1 + 0 == be_value(bytes));
    } else {
        let rest = bytes.drop_last();
        let low = (bytes.len() - 1 - k) as nat;
        lemma_be_value_split(rest, k);
        assert(rest.take(k) =~= bytes.take(k));
        assert(bytes.skip(k).drop_last() =~= rest.skip(k));
        assert(bytes.skip(k).last() == bytes.last());
        lemma_pow2_adds(8 * low, 8);
        let high = be_value(bytes.take(k));
        let mid = be_value(rest.skip(k));
        let last = bytes.last() as nat;
        let p = pow2(8 * low);
        assert(pow2(8) == 256) by {
            lemma2_to64();
        }
        assert(pow2((8 * (bytes.len() - k)) as nat) == p * 256);
        assert(be_value(rest) == high * p + mid);
        assert(be_value(bytes.skip(k)) == mid * 256 + last);
        assert(be_value(bytes) == be_value(rest) * 256 + last);
        assert((high * p + mid) * 256 + last == high * (p * 256) + (mid * 256 + last))
            by (nonlinear_arith);
        assert(be_value(bytes) == high * pow2((8 * (bytes.len() - k)) as nat) + be_value(
            bytes.skip(k),
        ));
    }
}

/// Reading back the digits of a number that fits gives the number.
pub proof fn lemma_be_value_of_bytes(n: nat, len: nat)
    requires
        n < pow2(8 * len),
    ensures
        be_value(be_bytes(n, len)) == n,
    decreases len,
{
    lemma2_to64();
    if len > 0 {
        let rest = (len - 1) as nat;
        lemma_pow2_adds(8 * rest, 8);
        assert(n / 256 < pow2(8 * rest)) by (nonlinear_arith)
            requires
                n < pow2(8 * rest) * 256,
        ;
        lemma_be_value_of_bytes(n / 256, rest);
        assert(be_bytes(n, len).drop_last() =~= be_bytes(n / 256, rest));
        lemma_fundamental_div_mod(n as int, 256);
    }
}

/// Writing out the digits of the number that `bytes` spell gives `bytes`.
pub proof fn lemma_be_bytes_of_value(bytes: Seq<u8>)
    ensures
        be_bytes(be_value(bytes), bytes.len()) == bytes,
    decreases bytes.len(),
{
    if bytes.len() == 0 {
        assert(bytes =~= Seq::<u8>::empty());
    } else {
        let rest = bytes.drop_last();
        let n = be_value(bytes);
        lemma_be_bytes_of_value(rest);
        lemma_fundamental_div_mod_converse(
            n as int,
            256,
            be_value(rest) as int,
            bytes.last() as int,
        );
        assert(be_bytes(n, bytes.len()) =~= bytes);
    }
}

/// An unsigned integer below `2^256`.
#[derive(Clone, Copy, Debug, PartialEq, Eq)]
pub struct Uint256 {
    pub(crate) bytes: [u8; 32],
}

impl View for Uint256 {
    type V = nat;

    /// The number held.
    closed spec fn view(&self) -> nat {
        be_value(self.bytes@)
    }
}

impl DeepView for Uint256 {
    type V = nat;

    open spec fn deep_view(&self) -> nat {
        self@
    }
}

/// Every number of this type is below `2^256`.
pub proof fn lemma_uint256_bound(number: Uint256)
    ensures
        number@ < pow2(256),
{
    lemma_be_value_bound(number.bytes@);
}

/// Writing a number out as 32 bytes and reading them back gives the number.
pub proof fn lemma_uint256_round_trip(number: Uint256)
    ensures
        be_value(be_bytes(number@, 32)) == number@,
        be_bytes(number@, 32).len() == 32,
{
    lemma_uint256_bound(number);
    lemma_be_value_of_bytes(number@, 32);
    lemma_be_bytes_of_value(number.bytes@);
}

impl Uint256 {
    /// The number whose big-endian digits are `bytes`.
    pub fn from_be_bytes(bytes: [u8; 32]) -> (r: Self)
        ensures
            r@ == be_value(bytes@),
    {
        Uint256 { bytes }
    }

    /// The 32 big-endian digits of the number.
    pub fn to_be_bytes(&self) -> (bytes: [u8; 32])
        ensures
            bytes@ == be_bytes(self@, 32),
    {
        proof {
            lemma_be_bytes_of_value(self.bytes@);
        }
        self.bytes
    }

    /// Zero.
    pub fn zero() -> (r: Self)
        ensures
            r@ == 0,
    {
        let bytes = [0u8; 32];
        proof {
            lemma_be_value_zero(bytes@);
        }
        Uint256 { bytes }
    }

    /// Widens an 8-bit number.
    pub fn from_u8(x: u8) -> (r: Self)
        ensures
            r@ == x,
    {
        let mut bytes = [0u8; 32];
        bytes[31] = x;
        proof {
            lemma_be_value_zero(bytes@.drop_last());
        }
        Uint256 { bytes }
    }

    /// Widens a 128-bit number.
    pub fn from_u128(x: u128) -> (r: Self)
        ensures
            r@ == x,
    {
        let mut bytes = [0u8; 32];
        let mut rest: u128 = x;
        let mut i: usize = 32;
        proof {
            assert(pow2(0) == 1) by {
                lemma2_to64();
            }
            assert(bytes@.skip(32) =~= Seq::<u8>::empty());
            assert(be_value(bytes@.skip(32)) == 0);
            assert(x as nat / 1 == x as nat && x as nat % 1 == 0);
        }
        while i > 16
            invariant
                16 <= i <= 32,
                rest as nat == x as nat / pow2((8 * (32 - i)) as nat),
                be_value(bytes@.skip(i as int)) == x as nat % pow2((8 * (32 - i)) as nat),
                forall|j: int| 0 <= j < i ==> bytes@[j] == 0,
            decreases i,
        {
            let ghost done = (8 * (32 - i)) as nat;
            let ghost before = bytes@;
            i = i - 1;
            bytes[i] = (rest % 256) as u8;
            rest = rest / 256;
            proof {
                let after = bytes@.skip(i as int);
                let p = pow2(done);
                lemma_pow2_pos(done);
                lemma_pow2_adds(done, 8);
                lemma2_to64();
                assert(after.skip(1) =~= before.skip(i + 1));
                lemma_be_value_single(after.take(1));
                lemma_be_value_split(after, 1);
                lemma_breakdown(x as int, p as int, 256);
                lemma_div_denominator(x as int, p as int, 256);
                assert(p * ((x as nat / p) % 256) == ((x as nat / p) % 256) * p)
                    by (nonlinear_arith);
            }
        }
        proof {
            lemma_be_value_split(bytes@, 16);
            lemma_be_value_zero(bytes@.take(16));
            lemma2_to64();
            lemma_pow2_adds(64, 64);
            lemma_small_mod(x as nat, pow2(128));
        }
        Uint256 { bytes }
    }

    /// Whether the number can be written in `bits` binary digits.
    pub fn fits(&self, bits: usize) -> (ok: bool)
        ensures
            ok == (self@ < pow2(bits as nat)),
    {
        if bits >= 256 {
            proof {
                lemma_be_value_bound(self.bytes@);
                if bits > 256 {
                    lemma_pow2_strictly_increases(256, bits as nat);
                }
            }
            return true;
        }
        let whole: usize = bits / 8;
        let part: usize = bits % 8;
        let top: usize = 31 - whole;
        let ghost unit = pow2((8 * whole) as nat);
        let ghost head = self.bytes@.take(top + 1);
        let ghost low = be_value(self.bytes@.skip(top + 1));
        proof {
            lemma_be_value_split(self.bytes@, top + 1);
            lemma_be_value_bound(self.bytes@.skip(top + 1));
            lemma_pow2_adds(part as nat, (8 * whole) as nat);
            lemma_pow2_pos(part as nat);
            lemma2_to64();
            assert(head.drop_last() =~= self.bytes@.take(top as int));
            assert(self@ == be_value(head) * unit + low);
            assert(low < unit);
            assert(pow2(bits as nat) == pow2(part as nat) * unit);
            assert(pow2(part as nat) <= 128) by {
                if part < 7 {
                    lemma_pow2_strictly_increases(part as nat, 7);
                }
            }
        }
        let mut i: usize = 0;
        while i < top && self.bytes[i] == 0
            invariant
                0 <= i <= top < 32,
                forall|j: int| 0 <= j < i ==> self.bytes@[j] == 0,
            decreases top - i,
        {
            i = i + 1;
        }
        if i < top {
            proof {
                lemma_be_value_zero(head.drop_last());
                assert(head.drop_last()[i as int] == self.bytes@[i as int]);
                assert(be_value(head) >= 256);
                assert(be_value(head) * unit + low >= pow2(part as nat) * unit)
                    by (nonlinear_arith)
                    requires
                        be_value(head) >= 256,
                        pow2(part as nat) <= 128,
                        unit >= 0,
                        low >= 0,
                ;
            }
            return false;
        }
        let digit: u8 = self.bytes[top];
        let shifted: u8 = digit >> (part as u8);
        proof {
            lemma_be_value_zero(head.drop_last());
            assert(be_value(head) == digit as nat);
            lemma_u8_shr_is_div(digit, part as u8);
            let limit = pow2(part as nat);
            lemma_fundamental_div_mod(digit as int, limit as int);
            lemma_mod_bound(digit as int, limit as int);
            if shifted == 0 {
                assert(digit as nat / limit == 0);
                assert(digit as int == limit * 0 + digit as int % limit as int);
                assert(digit < limit);
                assert(digit * unit + low < limit * unit) by (nonlinear_arith)
                    requires
                        digit < limit,
                        low < unit,
                ;
            } else {
                assert(digit as nat / limit >= 1);
                assert(digit >= limit) by (nonlinear_arith)
                    requires
                        digit as nat / limit >= 1,
                        digit as nat == limit * (digit as nat / limit) + digit as nat % limit,
                        limit > 0,
                ;
                assert(digit * unit + low >= limit * unit) by (nonlinear_arith)
                    requires
                        digit >= limit,
                        unit >= 0,
                        low >= 0,
                ;
            }
        }
        shifted == 0
    }
}

} // verus!
