//! Pattern/signature matcher: compiles a hex-plus-wildcard signature string
//! into pattern bytes, a wildcard mask and a Boyer-Moore-Horspool style skip
//! table that stays safe in the presence of wildcard bytes, then scans byte
//! buffers for the first match.
use vstd::prelude::*;
use vstd::string::StringSliceAdditionalSpecFns;

verus! {

/// Value of a signature nibble: hex digits map to their value, `?` maps to
/// the wildcard marker `0x10`, every other byte is ignored.
pub open spec fn nibble_of(b: u8) -> Option<u8> {
    if 48 <= b && b <= 57 {
        Some((b - 48) as u8)
    } else if 97 <= b && b <= 102 {
        Some((b - 97 + 10) as u8)
    } else if 65 <= b && b <= 70 {
        Some((b - 65 + 10) as u8)
    } else if b == 63 {
        Some(16u8)
    } else {
        None
    }
}

/// The sequence of nibble values drawn from a signature string's bytes,
/// in order, with all other bytes dropped.
pub open spec fn sig_nibbles(s: Seq<u8>) -> Seq<u8>
    decreases s.len(),
{
    if s.len() == 0 {
        seq![]
    } else {
        match nibble_of(s[0]) {
            Some(n) => seq![n] + sig_nibbles(s.drop_first()),
            None => sig_nibbles(s.drop_first()),
        }
    }
}

/// Pattern bytes: nibbles consumed in pairs, high nibble first. A trailing
/// unpaired nibble is discarded. The wildcard marker overflows out of the
/// high nibble, so a byte whose first nibble alone is `?` keeps only the low
/// nibble, while `?` in the low nibble contributes `0x10`.
pub open spec fn pair_bytes(nibs: Seq<u8>) -> Seq<u8> {
    Seq::new((nibs.len() / 2) as nat, |i: int| ((nibs[2 * i] << 4) | nibs[2 * i + 1]) as u8)
}

/// Wildcard mask: a pattern byte is a wildcard exactly when both of its
/// nibbles are `?`.
pub open spec fn pair_mask(nibs: Seq<u8>) -> Seq<bool> {
    Seq::new((nibs.len() / 2) as nat, |i: int| nibs[2 * i] == 16 && nibs[2 * i + 1] == 16)
}

/// The window of `bytes.len()` buffer bytes starting at `pos` matches the
/// pattern: every position is either masked out or equal.
pub open spec fn matches_at(bytes: Seq<u8>, mask: Seq<bool>, buf: Seq<u8>, pos: int) -> bool {
    forall|j: int| 0 <= j < bytes.len() ==> (mask[j] || bytes[j] == buf[pos + j])
}

/// A compiled signature.
pub struct Signature {
    /// Pattern bytes.
    pub bytes: Vec<u8>,
    /// True where the pattern byte is a full wildcard.
    pub mask: Vec<bool>,
    /// For each possible terminal byte value, how far the scan may advance
    /// on a window mismatch without skipping a match.
    pub skip_offsets: Vec<usize>,
}

impl Signature {
    /// Structural well-formedness plus safety of the skip table: advancing
    /// by any amount below `skip_offsets[c]` aligns the terminal buffer byte
    /// `c` with a concrete pattern byte that differs from `c`, so no match
    /// can start in the skipped range.
    pub open spec fn wf(self) -> bool {
        &&& self.mask@.len() == self.bytes@.len()
        &&& self.skip_offsets@.len() == 256
        &&& self.bytes@.len() >= 1 ==> {
            &&& forall|c: int|
                0 <= c < 256 ==> 1 <= #[trigger] self.skip_offsets@[c] <= self.bytes@.len()
            &&& forall|c: int, j: int|
                #![trigger self.skip_offsets@[c], self.mask@[j]]
                0 <= c < 256 && 0 <= j < self.bytes@.len() - 1 && self.bytes@.len() - 1 - j
                    < self.skip_offsets@[c] ==> !self.mask@[j] && self.bytes@[j] != c
        }
    }
}

/// Index of the last position `i < j` holding a concrete (unmasked) pattern
/// byte equal to `c`, or `-1` if there is none.
pub open spec fn last_concrete(bytes: Seq<u8>, mask: Seq<bool>, c: int, j: int) -> int
    decreases j,
{
    if j <= 0 {
        -1
    } else if !mask[j - 1] && bytes[j - 1] == c {
        j - 1
    } else {
        last_concrete(bytes, mask, c, j - 1)
    }
}

/// Index of the last position `i < j` holding a wildcard byte, or `-1`.
pub open spec fn last_wild(mask: Seq<bool>, j: int) -> int
    decreases j,
{
    if j <= 0 {
        -1
    } else if mask[j - 1] {
        j - 1
    } else {
        last_wild(mask, j - 1)
    }
}

proof fn lemma_last_concrete(bytes: Seq<u8>, mask: Seq<bool>, c: int, j: int)
    requires
        0 <= j <= bytes.len(),
        mask.len() == bytes.len(),
    ensures
        -1 <= last_concrete(bytes, mask, c, j) < j,
        last_concrete(bytes, mask, c, j) >= 0 ==> {
            let l = last_concrete(bytes, mask, c, j);
            !mask[l] && bytes[l] == c
        },
        forall|i: int|
            last_concrete(bytes, mask, c, j) < i < j ==> !(!mask[i] && bytes[i] == c),
    decreases j,
{
    if j > 0 {
        lemma_last_concrete(bytes, mask, c, j - 1);
    }
}

proof fn lemma_last_wild(mask: Seq<bool>, j: int)
    requires
        0 <= j <= mask.len(),
    ensures
        -1 <= last_wild(mask, j) < j,
        last_wild(mask, j) >= 0 ==> mask[last_wild(mask, j)],
        forall|i: int| last_wild(mask, j) < i < j ==> !mask[i],
    decreases j,
{
    if j > 0 {
        lemma_last_wild(mask, j - 1);
    }
}

proof fn lemma_sig_nibbles_push(s: Seq<u8>, x: u8)
    ensures
        sig_nibbles(s.push(x)) == sig_nibbles(s) + (match nibble_of(x) {
            Some(n) => seq![n],
            None => Seq::<u8>::empty(),
        }),
    decreases s.len(),
{
    let tail = match nibble_of(x) {
        Some(n) => seq![n],
        None => Seq::<u8>::empty(),
    };
    if s.len() == 0 {
        assert(s.push(x).drop_first() =~= Seq::<u8>::empty());
        assert(s.push(x)[0] == x);
        assert(sig_nibbles(Seq::<u8>::empty()) =~= Seq::<u8>::empty());
        assert(sig_nibbles(s.push(x)) =~= tail);
        assert(sig_nibbles(s) + tail =~= tail);
    } else {
        lemma_sig_nibbles_push(s.drop_first(), x);
        assert(s.push(x).drop_first() =~= s.drop_first().push(x));
        assert(s.push(x)[0] == s[0]);
        match nibble_of(s[0]) {
            Some(n) => {
                assert(sig_nibbles(s.push(x)) =~= seq![n] + sig_nibbles(s.drop_first().push(x)));
                assert(seq![n] + (sig_nibbles(s.drop_first()) + tail) =~= (seq![n] + sig_nibbles(
                    s.drop_first(),
                )) + tail);
            },
            None => {},
        }
    }
}

/// Collects the nibble values of every recognised signature character.
fn parse_nibbles(sig: &[u8]) -> (nibs: Vec<u8>)
    ensures
        nibs@ == sig_nibbles(sig@),
{
    let mut nibs: Vec<u8> = Vec::new();
    let mut i: usize = 0;
    proof {
        assert(sig@.take(0) =~= Seq::<u8>::empty());
    }
    while i < sig.len()
        invariant
            i <= sig@.len(),
            nibs@ == sig_nibbles(sig@.take(i as int)),
        decreases sig@.len() - i,
    {
        let b = sig[i];
        proof {
            assert(sig@.take(i + 1) =~= sig@.take(i as int).push(sig@[i as int]));
            lemma_sig_nibbles_push(sig@.take(i as int), sig@[i as int]);
        }
        if 48 <= b && b <= 57 {
            nibs.push(b - 48);
        } else if 97 <= b && b <= 102 {
            nibs.push(b - 97 + 10);
        } else if 65 <= b && b <= 70 {
            nibs.push(b - 65 + 10);
        } else if b == 63 {
            nibs.push(16);
        }
        i = i + 1;
    }
    proof {
        assert(sig@.take(sig@.len() as int) =~= sig@);
    }
    nibs
}

impl Signature {
    /// Compiles a signature string: pairs its hex/wildcard nibbles into
    /// pattern bytes and a wildcard mask, then builds the skip table.
    pub fn new(signature: &str) -> (sig: Signature)
        ensures
            sig.wf(),
            sig.bytes@ == pair_bytes(sig_nibbles(signature.spec_bytes())),
            sig.mask@ == pair_mask(sig_nibbles(signature.spec_bytes())),
    {
        let nibs = parse_nibbles(signature.as_bytes());
        let ghost gnibs = nibs@;

        let mut bytes: Vec<u8> = Vec::new();
        let mut mask: Vec<bool> = Vec::new();
        let nlen = nibs.len();
        let pairs = nlen / 2;
        let mut k: usize = 0;
        while k < pairs
            invariant
                gnibs == nibs@,
                nlen == nibs@.len(),
                pairs == nibs@.len() / 2,
                k <= pairs,
                bytes@ =~= pair_bytes(gnibs).take(k as int),
                mask@ =~= pair_mask(gnibs).take(k as int),
            decreases pairs - k,
        {
            proof {
                assert(2 * (pairs as int) <= nibs@.len());
            }
            let a = nibs[2 * k];
            let b = nibs[2 * k + 1];
            bytes.push((a << 4u8) | b);
            mask.push(a == 16 && b == 16);
            proof {
                assert(pair_bytes(gnibs)[k as int] == ((gnibs[2 * k] << 4) | gnibs[2 * k
                    + 1]) as u8);
                assert(bytes@ =~= pair_bytes(gnibs).take(k + 1));
                assert(mask@ =~= pair_mask(gnibs).take(k + 1));
            }
            k = k + 1;
        }
        proof {
            assert(bytes@ =~= pair_bytes(gnibs));
            assert(mask@ =~= pair_mask(gnibs));
        }

        let n = bytes.len();
        let mut skip_offsets: Vec<usize> = Vec::new();
        let mut z: usize = 0;
        while z < 256
            invariant
                skip_offsets@.len() == z,
                z <= 256,
                forall|c: int| 0 <= c < z ==> #[trigger] skip_offsets@[c] == 0,
            decreases 256 - z,
        {
            skip_offsets.push(0);
            z = z + 1;
        }

        if n == 0 {
            return Signature { bytes, mask, skip_offsets };
        }

        let end = n - 1;
        let mut unknown: usize = 0;
        let mut i2: usize = 0;
        while i2 < end
            invariant
                end == bytes@.len() - 1,
                bytes@.len() >= 1,
                mask@.len() == bytes@.len(),
                bytes@.len() <= usize::MAX,
                i2 <= end,
                skip_offsets@.len() == 256,
                forall|c: int|
                    0 <= c < 256 ==> #[trigger] skip_offsets@[c] == {
                        let l = last_concrete(bytes@, mask@, c, i2 as int);
                        if l == -1 {
                            0int
                        } else {
                            end - l
                        }
                    },
                unknown == {
                    let w = last_wild(mask@, i2 as int);
                    if w == -1 {
                        0int
                    } else {
                        end - w
                    }
                },
            decreases end - i2,
        {
            let byte = bytes[i2];
            if !mask[i2] {
                skip_offsets.set(byte as usize, end - i2);
            } else {
                unknown = end - i2;
            }
            proof {
                assert(forall|c: int|
                    0 <= c < 256 && c != byte as int ==> last_concrete(
                        bytes@,
                        mask@,
                        c,
                        i2 + 1,
                    ) == last_concrete(bytes@, mask@, c, i2 as int));
            }
            i2 = i2 + 1;
        }

        proof {
            lemma_last_wild(mask@, end as int);
            let w0 = last_wild(mask@, end as int);
            assert(unknown == if w0 == -1 {
                0int
            } else {
                end - w0
            });
        }
        if unknown == 0 {
            unknown = n;
        }

        let ghost pre_skip = skip_offsets@;
        let mut c2: usize = 0;
        while c2 < 256
            invariant
                skip_offsets@.len() == 256,
                pre_skip.len() == 256,
                c2 <= 256,
                1 <= unknown <= bytes@.len(),
                forall|c: int| c2 <= c < 256 ==> #[trigger] skip_offsets@[c] == pre_skip[c],
                forall|c: int|
                    0 <= c < c2 ==> #[trigger] skip_offsets@[c] == (if pre_skip[c] == 0
                        || pre_skip[c] > unknown {
                        unknown as int
                    } else {
                        pre_skip[c] as int
                    }),
            decreases 256 - c2,
        {
            let v = skip_offsets[c2];
            if unknown < v || v == 0 {
                skip_offsets.set(c2, unknown);
            }
            c2 = c2 + 1;
        }

        let sig = Signature { bytes, mask, skip_offsets };
        proof {
            let bs = sig.bytes@;
            let ms = sig.mask@;
            let endi = bs.len() - 1;
            let w = last_wild(ms, endi);
            lemma_last_wild(ms, endi);
            assert forall|c: int| 0 <= c < 256 implies 1 <= #[trigger] sig.skip_offsets@[c]
                <= bs.len() by {
                let l = last_concrete(bs, ms, c, endi);
                lemma_last_concrete(bs, ms, c, endi);
            }
            assert forall|c: int, j: int|
                0 <= c < 256 && 0 <= j < bs.len() - 1 && bs.len() - 1 - j
                    < sig.skip_offsets@[c] implies !ms[j] && bs[j] != c by {
                let l = last_concrete(bs, ms, c, endi);
                lemma_last_concrete(bs, ms, c, endi);
                let s = endi - j;
                let pre = if l == -1 {
                    0int
                } else {
                    endi - l
                };
                // s is below the final skip entry, which is at most `unknown`;
                // a wildcard at j would make `unknown <= s`.
                if ms[j] {
                    assert(w >= j);
                    assert(unknown <= endi - w <= s);
                    assert(false);
                }
                // a concrete occurrence of c at j would make the pre-clamp
                // entry at most s, and a positive entry at most `unknown`
                // survives clamping, contradicting s < skip[c].
                if !ms[j] && bs[j] == c {
                    assert(l >= j);
                    assert(1 <= pre <= s);
                    assert(sig.skip_offsets@[c] <= s);
                    assert(false);
                }
            }
        }
        sig
    }
}

/// A fully wildcarded pattern matches any buffer wherever it stands, so
/// scanning a buffer at least as long as such a pattern finds index zero.
pub proof fn lemma_all_wildcard_matches(bytes: Seq<u8>, mask: Seq<bool>, buf: Seq<u8>, pos: int)
    requires
        mask.len() == bytes.len(),
        forall|j: int| 0 <= j < mask.len() ==> mask[j],
    ensures
        matches_at(bytes, mask, buf, pos),
{
}

proof fn lemma_skip_safe(sig: Signature, c: int, j: int)
    requires
        sig.wf(),
        sig.bytes@.len() >= 1,
        0 <= c < 256,
        0 <= j < sig.bytes@.len() - 1,
        sig.bytes@.len() - 1 - j < sig.skip_offsets@[c],
    ensures
        !sig.mask@[j] && sig.bytes@[j] != c,
{
    assert(sig.skip_offsets@[c] <= sig.bytes@.len());
    assert(!sig.mask@[j] && sig.bytes@[j] != c) by {
        assert(0 <= c < 256 && 0 <= j < sig.bytes@.len() - 1 && sig.bytes@.len() - 1 - j
            < sig.skip_offsets@[c]);
    }
}

/// True exactly when the pattern window matches the buffer at `pos`.
fn window_matches(bytes: &Vec<u8>, mask: &Vec<bool>, buf: &[u8], pos: usize) -> (b: bool)
    requires
        mask@.len() == bytes@.len(),
        pos + bytes@.len() <= buf@.len(),
    ensures
        b == matches_at(bytes@, mask@, buf@, pos as int),
{
    let blen = buf.len();
    let n = bytes.len();
    let mut j: usize = 0;
    while j < n
        invariant
            n == bytes@.len(),
            mask@.len() == bytes@.len(),
            pos + bytes@.len() <= buf@.len(),
            buf@.len() == blen,
            j <= n,
            forall|t: int| 0 <= t < j ==> (mask@[t] || bytes@[t] == buf@[pos + t]),
        decreases n - j,
    {
        if !mask[j] && bytes[j] != buf[pos + j] {
            proof {
                assert(!(mask@[j as int] || bytes@[j as int] == buf@[pos + j]));
            }
            return false;
        }
        j = j + 1;
    }
    true
}

impl Signature {
    /// Scans `buf` for the first position where the pattern matches,
    /// wildcards taken into account. An empty pattern, or one longer than
    /// the buffer, never matches.
    pub fn scan(&self, buf: &[u8]) -> (r: Option<usize>)
        requires
            self.wf(),
        ensures
            match r {
                Some(i) => {
                    &&& self.bytes@.len() >= 1
                    &&& i + self.bytes@.len() <= buf@.len()
                    &&& matches_at(self.bytes@, self.mask@, buf@, i as int)
                    &&& forall|k: int|
                        0 <= k < i ==> !matches_at(self.bytes@, self.mask@, buf@, k)
                },
                None => self.bytes@.len() == 0 || forall|k: int|
                    0 <= k && k + self.bytes@.len() <= buf@.len() ==> !matches_at(
                        self.bytes@,
                        self.mask@,
                        buf@,
                        k,
                    ),
            },
    {
        let n = self.bytes.len();
        if n == 0 || n > buf.len() {
            return None;
        }
        let end = n - 1;
        let mut current: usize = 0;
        while current <= buf.len() - n
            invariant
                self.wf(),
                n == self.bytes@.len(),
                end == n - 1,
                1 <= n <= buf@.len(),
                current <= buf@.len(),
                forall|k: int| 0 <= k < current ==> !matches_at(self.bytes@, self.mask@, buf@, k),
            decreases buf@.len() - current,
        {
            if window_matches(&self.bytes, &self.mask, buf, current) {
                return Some(current);
            }
            let cb = buf[current + end];
            let ci = cb as usize;
            let off = self.skip_offsets[ci];
            proof {
                let bs = self.bytes@;
                let ms = self.mask@;
                let c = ci as int;
                assert(c == buf@[current + end] as int);
                assert(off == self.skip_offsets@[c]);
                assert forall|k: int| 0 <= k < current + off implies !matches_at(
                    bs,
                    ms,
                    buf@,
                    k,
                ) by {
                    if current < k {
                        let s = k - current;
                        let j = end - s;
                        assert(0 <= j < bs.len() - 1);
                        assert(bs.len() - 1 - j < self.skip_offsets@[c]);
                        lemma_skip_safe(*self, c, j);
                        assert(buf@[k + j] == buf@[current + end]);
                        assert(!(ms[j] || bs[j] == buf@[k + j]));
                    }
                }
            }
            current = current + off;
        }
        None
    }
}

} // verus!
