//! Block heights: positions on a chain's canonical history.
use vstd::prelude::*;

verus! {

/// Largest number a [`BlockHeight`] can hold: two to the power 256, less one.
pub open spec fn max_height() -> nat {
    0xffff_ffff_ffff_ffff_ffff_ffff_ffff_ffff_ffff_ffff_ffff_ffff_ffff_ffff_ffff_ffffnat
}

/// A position on a chain, held as a 256-bit unsigned number in two limbs.
///
/// The derived order compares `hi` first and `lo` second, which is the order of
/// the numbers the values stand for.
#[derive(Clone, Copy, Debug, PartialEq, Eq, Structural, PartialOrd, Ord, Hash)]
pub struct BlockHeight {
    /// The upper 128 bits.
    pub hi: u128,
    /// The lower 128 bits.
    pub lo: u128,
}

impl View for BlockHeight {
    type V = nat;

    /// The number the two limbs stand for: `hi` times two to the power 128,
    /// plus `lo`.
    open spec fn view(&self) -> nat {
        (self.hi * 0x1_0000_0000_0000_0000_0000_0000_0000_0000 + self.lo) as nat
    }
}

impl BlockHeight {
    /// Builds a height from its upper and lower 128 bits.
    pub fn from_limbs(hi: u128, lo: u128) -> (h: BlockHeight)
        ensures
            h.hi == hi,
            h.lo == lo,
    {
        BlockHeight { hi, lo }
    }

    /// Builds the height that the 32 bytes spell, most significant byte first.
    pub fn from_be_bytes(bytes: [u8; 32]) -> (h: BlockHeight)
        ensures
            h@ == be_value(bytes@),
    {
        let hi = limb_from_be(&bytes, 0);
        let lo = limb_from_be(&bytes, 16);
        proof {
            lemma_limbs_spell_height(bytes@, BlockHeight { hi, lo });
        }
        BlockHeight { hi, lo }
    }

    /// Spells the height as 32 bytes, most significant byte first. No other
    /// 32 bytes spell it.
    pub fn to_be_bytes(&self) -> (bytes: [u8; 32])
        ensures
            be_value(bytes@) == self@,
            forall|other: Seq<u8>| other.len() == 32 && be_value(other) == self@ ==> other == bytes@,
    {
        let mut bytes = [0u8; 32];
        limb_to_be(&mut bytes, 0, self.hi);
        let ghost upper = bytes@.subrange(0, 16);
        limb_to_be(&mut bytes, 16, self.lo);
        proof {
            assert(bytes@.subrange(0, 16) =~= upper);
            lemma_limbs_spell_height(bytes@, *self);
            assert forall|other: Seq<u8>|
                other.len() == 32 && be_value(other) == self@ implies other == bytes@ by {
                lemma_be_value_injective(other, bytes@);
            }
        }
        bytes
    }

    /// Builds the height that stands for `n`.
    pub fn from_u64(n: u64) -> (h: BlockHeight)
        ensures
            h@ == n,
            h.hi == 0,
            h.lo == n,
    {
        BlockHeight { hi: 0, lo: n as u128 }
    }

    /// The height as a `u64`, where it fits in one.
    pub fn to_u64(&self) -> (r: Option<u64>)
        ensures
            self@ <= u64::MAX ==> r == Some(self@ as u64),
            self@ > u64::MAX ==> r is None,
    {
        if self.hi == 0 && self.lo <= u64::MAX as u128 {
            Some(self.lo as u64)
        } else {
            None
        }
    }

    /// Whether `self` lies strictly below `other`.
    pub fn is_below(&self, other: &BlockHeight) -> (r: bool)
        ensures
            r == (self@ < other@),
    {
        self.hi < other.hi || (self.hi == other.hi && self.lo < other.lo)
    }

    /// Whether `self` lies at or below `other`.
    pub fn is_at_most(&self, other: &BlockHeight) -> (r: bool)
        ensures
            r == (self@ <= other@),
    {
        self.hi < other.hi || (self.hi == other.hi && self.lo <= other.lo)
    }

    /// The height one above `self`, or `None` at the largest height.
    pub fn successor(&self) -> (r: Option<BlockHeight>)
        ensures
            self@ < max_height() ==> r is Some && r.unwrap()@ == self@ + 1,
            self@ >= max_height() ==> r is None,
    {
        if self.lo < u128::MAX {
            Some(BlockHeight { hi: self.hi, lo: self.lo + 1 })
        } else if self.hi < u128::MAX {
            Some(BlockHeight { hi: self.hi + 1, lo: 0 })
        } else {
            None
        }
    }
}

/// The weight of the byte that has `n` bytes to its right: 256 to the power `n`.
pub open spec fn byte_weight(n: nat) -> nat
    decreases n,
{
    if n == 0 {
        1
    } else {
        256 * byte_weight((n - 1) as nat)
    }
}

/// The number that `bytes` spell, most significant byte first.
pub open spec fn be_value(bytes: Seq<u8>) -> nat
    decreases bytes.len(),
{
    if bytes.len() == 0 {
        0
    } else {
        be_value(bytes.drop_last()) * 256 + bytes.last() as nat
    }
}

/// Sixteen bytes fill one limb: the seventeenth byte from the right weighs two
/// to the power 128.
proof fn lemma_limb_weight()
    ensures
        byte_weight(16) == 0x1_0000_0000_0000_0000_0000_0000_0000_0000,
{
    reveal_with_fuel(byte_weight, 17);
}

/// The sixteen bytes of the upper limb followed by the sixteen of the lower
/// spell the number of the two limbs.
proof fn lemma_limbs_spell_height(bytes: Seq<u8>, h: BlockHeight)
    requires
        bytes.len() == 32,
        h.hi == be_value(bytes.subrange(0, 16)),
        h.lo == be_value(bytes.subrange(16, 32)),
    ensures
        be_value(bytes) == h@,
{
    assert(bytes =~= bytes.subrange(0, 16) + bytes.subrange(16, 32));
    lemma_be_value_concat(bytes.subrange(0, 16), bytes.subrange(16, 32));
    lemma_limb_weight();
    assert(h.hi * byte_weight(16) == h.hi * 0x1_0000_0000_0000_0000_0000_0000_0000_0000)
        by (nonlinear_arith)
        requires
            byte_weight(16) == 0x1_0000_0000_0000_0000_0000_0000_0000_0000,
    ;
}

/// Two runs of bytes of one length that spell the same number are the same
/// run.
pub proof fn lemma_be_value_injective(a: Seq<u8>, b: Seq<u8>)
    requires
        a.len() == b.len(),
        be_value(a) == be_value(b),
    ensures
        a == b,
    decreases a.len(),
{
    if a.len() > 0 {
        lemma_be_value_injective(a.drop_last(), b.drop_last());
        assert(a =~= a.drop_last().push(a.last()));
        assert(b =~= b.drop_last().push(b.last()));
    } else {
        assert(a =~= b);
    }
}

/// One more byte to the right multiplies the weight by 256.
proof fn lemma_weight_step(n: nat)
    ensures
        byte_weight(n + 1) == 256 * byte_weight(n),
        byte_weight(n) >= 1,
    decreases n,
{
    if n > 0 {
        lemma_weight_step((n - 1) as nat);
    }
}

/// The bytes of `left` followed by those of `right` spell the number of `left`,
/// shifted by the length of `right`, plus the number of `right`.
proof fn lemma_be_value_concat(left: Seq<u8>, right: Seq<u8>)
    ensures
        be_value(left + right) == be_value(left) * byte_weight(right.len()) + be_value(right),
    decreases right.len(),
{
    if right.len() == 0 {
        assert(left + right =~= left);
        assert(byte_weight(0) == 1);
        assert(be_value(right) == 0);
    } else {
        let front = right.drop_last();
        assert((left + right).drop_last() =~= left + front);
        assert((left + right).last() == right.last());
        lemma_be_value_concat(left, front);
        lemma_weight_step(front.len());
        let x = be_value(left);
        let w = byte_weight(front.len());
        let y = be_value(front);
        assert((x * w + y) * 256 == x * (256 * w) + y * 256) by (nonlinear_arith);
        assert(be_value(left + right) == (x * w + y) * 256 + right.last());
        assert(be_value(right) == y * 256 + right.last());
        assert(byte_weight(right.len()) == 256 * w);
    }
}

/// A run of bytes spells a number below the weight of its length.
proof fn lemma_be_value_bound(bytes: Seq<u8>)
    ensures
        be_value(bytes) < byte_weight(bytes.len()),
    decreases bytes.len(),
{
    if bytes.len() > 0 {
        lemma_be_value_bound(bytes.drop_last());
        lemma_weight_step(bytes.drop_last().len());
    }
}

/// Reads up to sixteen bytes of `bytes`, from index `from` on, as one number.
fn limb_from_be(bytes: &[u8; 32], from: usize) -> (limb: u128)
    requires
        from <= 16,
    ensures
        limb == be_value(bytes@.subrange(from as int, from + 16)),
{
    let mut limb: u128 = 0;
    let mut i: usize = 0;
    while i < 16
        invariant
            from <= 16,
            i <= 16,
            limb == be_value(bytes@.subrange(from as int, from + i)),
        decreases 16 - i,
    {
        proof {
            let read = bytes@.subrange(from as int, from + i);
            let more = bytes@.subrange(from as int, from + i + 1);
            assert(more.drop_last() =~= read);
            lemma_be_value_bound(read);
            lemma_be_value_bound(more);
            lemma_limb_weight();
            lemma_weight_monotone((i + 1) as nat, 16);
        }
        limb = limb * 256 + bytes[from + i] as u128;
        i += 1;
    }
    limb
}

/// A byte further left weighs no less.
proof fn lemma_weight_monotone(m: nat, n: nat)
    requires
        m <= n,
    ensures
        byte_weight(m) <= byte_weight(n),
    decreases n,
{
    if m < n {
        lemma_weight_monotone(m, (n - 1) as nat);
        lemma_weight_step((n - 1) as nat);
    }
}

/// Writes `limb` as sixteen bytes into `bytes`, from index `from` on, and
/// leaves the other bytes as they are.
fn limb_to_be(bytes: &mut [u8; 32], from: usize, limb: u128)
    requires
        from <= 16,
    ensures
        be_value(final(bytes)@.subrange(from as int, from + 16)) == limb,
        forall|k: int| 0 <= k < 32 && !(from <= k < from + 16) ==> final(bytes)@[k] == old(bytes)@[k],
{
    let mut rest: u128 = limb;
    let mut left: usize = 16;
    proof {
        lemma_limb_weight();
        assert(bytes@.subrange(from + 16, from + 16) =~= Seq::<u8>::empty());
        assert(rest * byte_weight(0) == rest) by (nonlinear_arith)
            requires
                byte_weight(0) == 1,
        ;
    }
    while left > 0
        invariant
            from <= 16,
            left <= 16,
            rest < byte_weight(left as nat),
            limb == rest * byte_weight((16 - left) as nat) + be_value(
                bytes@.subrange(from + left, from + 16),
            ),
            forall|k: int| 0 <= k < 32 && !(from <= k < from + 16) ==> bytes@[k] == old(bytes)@[k],
        decreases left,
    {
        let ghost before = bytes@;
        let byte = (rest % 256) as u8;
        bytes[from + left - 1] = byte;
        proof {
            let written = before.subrange(from + left, from + 16);
            let now = bytes@.subrange(from + left - 1, from + 16);
            assert(now =~= seq![byte] + written);
            lemma_be_value_concat(seq![byte], written);
            assert(seq![byte].drop_last() =~= Seq::<u8>::empty());
            assert(be_value(seq![byte].drop_last()) == 0);
            assert(be_value(seq![byte]) == byte);
            lemma_weight_step((16 - left) as nat);
            lemma_weight_step((left - 1) as nat);
            let w = byte_weight((16 - left) as nat);
            let q = (rest / 256) as int;
            assert((q * 256 + byte) * w == q * (256 * w) + byte * w) by (nonlinear_arith);
        }
        rest = rest / 256;
        left -= 1;
    }
}

} // verus!
