//! Sizes written approximately with binary prefixes, such as `4 Ki`.
//! The prefixes are `Ki = 2^10`, `Mi = 2^20` and `Gi = 2^30`.

use vstd::prelude::*;
use vstd::string::StringSliceAdditionalSpecFns;

verus! {

/// The decimal digits of `n`, in ASCII, most significant first.
pub open spec fn decimal(n: nat) -> Seq<u8>
    decreases n,
{
    if n < 10 {
        seq![(48 + n) as u8]
    } else {
        decimal(n / 10).push((48 + n % 10) as u8)
    }
}

/// The value shown and the prefix it carries: the largest of none, `Ki`, `Mi`,
/// `Gi` that still leaves at least 10 units, or `Gi` above that.
pub open spec fn scaled(n: nat) -> (nat, Seq<u8>) {
    if n < 10 * 1024 {
        (n, seq![])
    } else if n < 10 * 1024 * 1024 {
        (n / 1024, seq![75u8, 105u8])
    } else if n < 10 * 1024 * 1024 * 1024 {
        (n / (1024 * 1024), seq![77u8, 105u8])
    } else {
        (n / (1024 * 1024 * 1024), seq![71u8, 105u8])
    }
}

/// `"{value} {prefix}{suffix}"`.
pub open spec fn display_bytes(n: nat, suffix: Seq<u8>) -> Seq<u8> {
    decimal(scaled(n).0) + seq![32u8] + scaled(n).1 + suffix
}

/// Appends the decimal digits of `n`.
fn push_decimal(out: &mut Vec<u8>, n: u64)
    ensures
        final(out)@ == old(out)@ + decimal(n as nat),
    decreases n,
{
    if n >= 10 {
        push_decimal(out, n / 10);
    }
    out.push((48 + n % 10) as u8);
    proof {
        if n >= 10 {
            assert(decimal(n as nat) == decimal((n / 10) as nat).push((48 + n % 10) as u8));
        }
    }
    assert(final(out)@ =~= old(out)@ + decimal(n as nat));
}

/// A quantity to be shown with binary prefixes.
#[derive(Debug, Copy, Clone, PartialEq, Eq, PartialOrd, Ord, Hash)]
pub struct BinaryPrefixes<T>(pub T);

impl BinaryPrefixes<usize> {
    /// The quantity as ASCII text: the value scaled down to the largest prefix
    /// that still leaves at least 10 units (`Gi` at most), rounded down, a space,
    /// the prefix and `suffix`. `20480` with suffix `B` is `20 KiB`.
    pub fn display(&self, suffix: &str) -> (r: Vec<u8>)
        ensures
            r@ == display_bytes(self.0 as nat, suffix.spec_bytes()),
    {
        let n = self.0 as u64;
        let mut out: Vec<u8> = Vec::new();
        let prefix: Vec<u8>;
        let shown: u64;
        if n < 10 * 1024 {
            shown = n;
            prefix = vec![];
        } else if n < 10 * 1024 * 1024 {
            shown = n >> 10u64;
            prefix = vec![75u8, 105u8];
        } else if n < 10 * 1024 * 1024 * 1024 {
            shown = n >> 20u64;
            prefix = vec![77u8, 105u8];
        } else {
            shown = n >> 30u64;
            prefix = vec![71u8, 105u8];
        }
        proof {
            assert(n >> 10u64 == n / 1024u64) by (bit_vector);
            assert(n >> 20u64 == n / 0x10_0000u64) by (bit_vector);
            assert(n >> 30u64 == n / 0x4000_0000u64) by (bit_vector);
        }
        assert(shown == scaled(n as nat).0);
        assert(prefix@ =~= scaled(n as nat).1);
        push_decimal(&mut out, shown);
        out.push(32u8);
        let mut i: usize = 0;
        while i < prefix.len()
            invariant
                i <= prefix@.len(),
                out@ == decimal(shown as nat) + seq![32u8] + prefix@.take(i as int),
            decreases prefix@.len() - i,
        {
            out.push(prefix[i]);
            assert(prefix@.take(i + 1) =~= prefix@.take(i as int).push(prefix@[i as int]));
            i = i + 1;
        }
        let bytes = suffix.as_bytes();
        let mut j: usize = 0;
        assert(prefix@.take(prefix@.len() as int) =~= prefix@);
        while j < bytes.len()
            invariant
                j <= bytes@.len(),
                bytes@ == suffix.spec_bytes(),
                out@ == decimal(shown as nat) + seq![32u8] + prefix@ + bytes@.take(j as int),
            decreases bytes@.len() - j,
        {
            out.push(bytes[j]);
            assert(bytes@.take(j + 1) =~= bytes@.take(j as int).push(bytes@[j as int]));
            j = j + 1;
        }
        assert(bytes@.take(bytes@.len() as int) =~= bytes@);
        assert(out@ =~= display_bytes(self.0 as nat, suffix.spec_bytes()));
        out
    }
}

/// A number of bytes, shown with binary prefixes and the unit `B`.
#[derive(Debug, Copy, Clone, PartialEq, Eq, PartialOrd, Ord, Hash)]
pub struct HumanBytes(pub usize);

impl HumanBytes {
    /// The text of the size, as [`BinaryPrefixes::display`] gives it with suffix `B`.
    pub fn to_ascii(&self) -> (r: Vec<u8>)
        ensures
            r@ == display_bytes(self.0 as nat, seq![66u8]),
    {
        let r = BinaryPrefixes(self.0).display("B");
        proof {
            reveal_strlit("B");
            vstd::string::is_ascii_spec_bytes("B");
            assert("B".spec_bytes() =~= seq![66u8]);
        }
        r
    }
}

} // verus!
