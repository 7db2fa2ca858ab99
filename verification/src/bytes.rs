//! Byte-sequence helpers shared by the router, the binder and the envelope:
//! literal views, prefix tests, searching, and decimal conversion.

use vstd::prelude::*;
use vstd::string::StringSliceAdditionalSpecFns;

verus! {

/// The UTF-8 bytes of a string literal, as written in the source.
pub open spec fn lit(s: &str) -> Seq<u8> {
    s.spec_bytes()
}

/// `s` begins with `prefix`.
pub open spec fn spec_starts_with(s: Seq<u8>, prefix: Seq<u8>) -> bool {
    prefix.len() <= s.len() && s.take(prefix.len() as int) == prefix
}

/// `b` occurs somewhere in `s`.
pub open spec fn spec_contains_byte(s: Seq<u8>, b: u8) -> bool {
    exists|i: int| 0 <= i < s.len() && s[i] == b
}

/// Compare two byte slices for equality.
pub fn bytes_eq(a: &[u8], b: &[u8]) -> (r: bool)
    ensures
        r == (a@ == b@),
{
    if a.len() != b.len() {
        return false;
    }
    let mut i: usize = 0;
    while i < a.len()
        invariant
            a@.len() == b@.len(),
            0 <= i <= a@.len(),
            forall|j: int| 0 <= j < i ==> a@[j] == b@[j],
        decreases a@.len() - i,
    {
        if a[i] != b[i] {
            return false;
        }
        i = i + 1;
    }
    proof {
        assert(a@ =~= b@);
    }
    true
}

/// Does `s` begin with `prefix`?
pub fn slice_starts_with(s: &[u8], prefix: &[u8]) -> (r: bool)
    ensures
        r == spec_starts_with(s@, prefix@),
{
    if prefix.len() > s.len() {
        return false;
    }
    let mut i: usize = 0;
    while i < prefix.len()
        invariant
            prefix@.len() <= s@.len(),
            0 <= i <= prefix@.len(),
            forall|j: int| 0 <= j < i ==> s@[j] == prefix@[j],
        decreases prefix@.len() - i,
    {
        if s[i] != prefix[i] {
            assert(s@.take(prefix@.len() as int)[i as int] != prefix@[i as int]);
            return false;
        }
        i = i + 1;
    }
    proof {
        assert(s@.take(prefix@.len() as int) =~= prefix@);
    }
    true
}

/// Copy the suffix of `s` that starts at `from`.
pub fn tail_from(s: &[u8], from: usize) -> (r: Vec<u8>)
    requires
        from <= s@.len(),
    ensures
        r@ == s@.skip(from as int),
{
    let mut out: Vec<u8> = Vec::new();
    let mut i: usize = from;
    while i < s.len()
        invariant
            from <= i <= s@.len(),
            out@ == s@.subrange(from as int, i as int),
        decreases s@.len() - i,
    {
        out.push(s[i]);
        assert(out@ =~= s@.subrange(from as int, i + 1 as int));
        i = i + 1;
    }
    proof {
        assert(s@.subrange(from as int, s@.len() as int) =~= s@.skip(from as int));
    }
    out
}

/// Copy the bytes of `s` between `from` and `to`.
pub fn sub_bytes(s: &[u8], from: usize, to: usize) -> (r: Vec<u8>)
    requires
        from <= to <= s@.len(),
    ensures
        r@ == s@.subrange(from as int, to as int),
{
    let mut out: Vec<u8> = Vec::new();
    let mut i: usize = from;
    while i < to
        invariant
            from <= i <= to <= s@.len(),
            out@ == s@.subrange(from as int, i as int),
        decreases to - i,
    {
        out.push(s[i]);
        assert(out@ =~= s@.subrange(from as int, i + 1 as int));
        i = i + 1;
    }
    out
}

/// Append every byte of `src` to `dst`.
pub fn push_all(dst: &mut Vec<u8>, src: &[u8])
    ensures
        final(dst)@ == old(dst)@ + src@,
{
    let mut i: usize = 0;
    while i < src.len()
        invariant
            0 <= i <= src@.len(),
            dst@ == old(dst)@ + src@.take(i as int),
        decreases src@.len() - i,
    {
        dst.push(src[i]);
        assert(old(dst)@ + src@.take(i as int) + seq![src@[i as int]] =~= old(dst)@ + src@.take(
            i + 1 as int,
        ));
        i = i + 1;
    }
    proof {
        assert(src@.take(src@.len() as int) =~= src@);
    }
}

/// Find the first occurrence of `b` in `s` at or after `from`.
pub fn find_byte(s: &[u8], from: usize, b: u8) -> (r: Option<usize>)
    requires
        from <= s@.len(),
    ensures
        match r {
            Some(j) => from <= j < s@.len() && s@[j as int] == b && forall|m: int|
                from <= m < j ==> s@[m] != b,
            None => forall|m: int| from <= m < s@.len() ==> s@[m] != b,
        },
{
    let mut i: usize = from;
    while i < s.len()
        invariant
            from <= i <= s@.len(),
            forall|m: int| from <= m < i ==> s@[m] != b,
        decreases s@.len() - i,
    {
        if s[i] == b {
            return Some(i);
        }
        i = i + 1;
    }
    None
}

/// Does `b` occur in `s`?
pub fn contains_byte(s: &[u8], b: u8) -> (r: bool)
    ensures
        r == spec_contains_byte(s@, b),
{
    match find_byte(s, 0, b) {
        Some(_) => true,
        None => false,
    }
}

/// Split `s` at the first occurrence of `sep`: the part before it, and,
/// when `sep` occurs at all, the part after it.
pub open spec fn split_first(s: Seq<u8>, sep: u8) -> (Seq<u8>, Option<Seq<u8>>)
    decreases s.len(),
{
    if s.len() == 0 {
        (Seq::<u8>::empty(), None::<Seq<u8>>)
    } else if s[0] == sep {
        (Seq::<u8>::empty(), Some(s.skip(1)))
    } else {
        let r = split_first(s.skip(1), sep);
        (seq![s[0]] + r.0, r.1)
    }
}

/// `split_first` read off from the position of the first separator.
pub proof fn lemma_split_first_at(s: Seq<u8>, sep: u8, k: int)
    requires
        0 <= k <= s.len(),
        forall|m: int| 0 <= m < k ==> s[m] != sep,
        k == s.len() || s[k] == sep,
    ensures
        split_first(s, sep).0 == s.take(k),
        split_first(s, sep).1 == (if k == s.len() {
            None::<Seq<u8>>
        } else {
            Some(s.skip(k + 1))
        }),
    decreases s.len(),
{
    if s.len() == 0 {
        assert(split_first(s, sep).0 =~= s.take(k));
    } else if s[0] == sep {
        assert(k == 0);
        assert(split_first(s, sep).0 =~= s.take(k));
    } else {
        let t = s.skip(1);
        assert(forall|m: int| 0 <= m < k - 1 ==> t[m] != sep);
        lemma_split_first_at(t, sep, k - 1);
        assert(seq![s[0]] + t.take(k - 1) =~= s.take(k));
        if k < s.len() {
            assert(t.skip(k) =~= s.skip(k + 1));
        }
    }
}

/// The remainder that `split_first` hands back is shorter than its input.
pub proof fn lemma_split_first_rest_len(s: Seq<u8>, sep: u8)
    ensures
        split_first(s, sep).1 matches Some(r) ==> r.len() < s.len(),
    decreases s.len(),
{
    if s.len() > 0 && s[0] != sep {
        lemma_split_first_rest_len(s.skip(1), sep);
    }
}

/// Split a slice at the first occurrence of `sep`.
pub fn split_first_exec(s: &[u8], sep: u8) -> (r: (Vec<u8>, Option<Vec<u8>>))
    ensures
        r.0@ == split_first(s@, sep).0,
        match r.1 {
            Some(rest) => split_first(s@, sep).1 == Some(rest@),
            None => split_first(s@, sep).1 is None,
        },
{
    let n = s.len();
    match find_byte(s, 0, sep) {
        Some(j) => {
            proof {
                lemma_split_first_at(s@, sep, j as int);
            }
            let head = sub_bytes(s, 0, j);
            assert(j < n);
            let rest = tail_from(s, j + 1);
            assert(s@.subrange(0, j as int) =~= s@.take(j as int));
            (head, Some(rest))
        },
        None => {
            proof {
                lemma_split_first_at(s@, sep, s@.len() as int);
            }
            let head = sub_bytes(s, 0, n);
            assert(s@.subrange(0, s@.len() as int) =~= s@.take(s@.len() as int));
            (head, None)
        },
    }
}

/// The decimal digits of `n`, most significant first.
pub open spec fn dec_digits(n: u8) -> Seq<u8>
    decreases n,
{
    if n < 10 {
        seq![('0' as u8 + n) as u8]
    } else {
        dec_digits(n / 10) + seq![('0' as u8 + n % 10) as u8]
    }
}

/// Render `n` in decimal.
pub fn u8_decimal(n: u8) -> (r: Vec<u8>)
    ensures
        r@ == dec_digits(n),
{
    let mut out: Vec<u8> = Vec::new();
    if n >= 100 {
        out.push('0' as u8 + n / 100);
        out.push('0' as u8 + (n / 10) % 10);
        out.push('0' as u8 + n % 10);
        proof {
            assert(dec_digits(n) == dec_digits(n / 10) + seq![('0' as u8 + n % 10) as u8]);
            assert(dec_digits(n / 10) == dec_digits(n / 100) + seq![
                ('0' as u8 + (n / 10) % 10) as u8,
            ]);
            assert(n / 100 < 10) by {
                assert(n <= 255);
            }
            assert(out@ =~= dec_digits(n));
        }
    } else if n >= 10 {
        out.push('0' as u8 + n / 10);
        out.push('0' as u8 + n % 10);
        proof {
            assert(dec_digits(n) == dec_digits(n / 10) + seq![('0' as u8 + n % 10) as u8]);
            assert(out@ =~= dec_digits(n));
        }
    } else {
        out.push('0' as u8 + n);
        proof {
            assert(out@ =~= dec_digits(n));
        }
    }
    out
}

/// Every byte of `s` is a decimal digit.
pub open spec fn all_digits(s: Seq<u8>) -> bool {
    forall|i: int| 0 <= i < s.len() ==> '0' as u8 <= #[trigger] s[i] <= '9' as u8
}

/// The numeric value of a digit string, most significant digit first.
pub open spec fn dec_value(s: Seq<u8>) -> int
    decreases s.len(),
{
    if s.len() == 0 {
        0
    } else {
        dec_value(s.drop_last()) * 10 + (s.last() - '0' as u8)
    }
}

/// What a decimal byte string denotes as a `u8`, if anything.
pub open spec fn parse_u8_spec(s: Seq<u8>) -> Option<u8> {
    if s.len() > 0 && all_digits(s) && dec_value(s) <= 255 {
        Some(dec_value(s) as u8)
    } else {
        None
    }
}

pub proof fn lemma_dec_value_nonneg(s: Seq<u8>)
    requires
        all_digits(s),
    ensures
        dec_value(s) >= 0,
    decreases s.len(),
{
    if s.len() > 0 {
        assert(all_digits(s.drop_last()));
        lemma_dec_value_nonneg(s.drop_last());
    }
}

pub proof fn lemma_dec_value_prefix(s: Seq<u8>, i: int)
    requires
        all_digits(s),
        0 <= i <= s.len(),
    ensures
        dec_value(s.take(i)) <= dec_value(s),
    decreases s.len() - i,
{
    if i < s.len() {
        let t = s.take(i + 1);
        assert(t.drop_last() =~= s.take(i));
        assert(all_digits(s.take(i)));
        lemma_dec_value_nonneg(s.take(i));
        assert(dec_value(t) == dec_value(s.take(i)) * 10 + (t.last() - '0' as u8));
        assert(dec_value(s.take(i)) <= dec_value(s.take(i + 1)));
        lemma_dec_value_prefix(s, i + 1);
        assert(s.take(s.len() as int) =~= s);
    } else {
        assert(s.take(i) =~= s);
    }
}

/// Parse a decimal byte string into a `u8`.
pub fn parse_u8(s: &[u8]) -> (r: Option<u8>)
    ensures
        r == parse_u8_spec(s@),
{
    if s.len() == 0 {
        return None;
    }
    let mut acc: u16 = 0;
    let mut i: usize = 0;
    while i < s.len()
        invariant
            0 <= i <= s@.len(),
            s@.len() > 0,
            all_digits(s@.take(i as int)),
            acc <= 255,
            acc == dec_value(s@.take(i as int)),
        decreases s@.len() - i,
    {
        let c = s[i];
        if c < '0' as u8 || c > '9' as u8 {
            assert(!all_digits(s@));
            return None;
        }
        let d = (c - '0' as u8) as u16;
        let next = acc * 10 + d;
        assert(s@.take(i + 1 as int).drop_last() =~= s@.take(i as int));
        assert(next == dec_value(s@.take(i + 1 as int)));
        if next > 255 {
            proof {
                if all_digits(s@) {
                    lemma_dec_value_prefix(s@, i + 1);
                }
            }
            return None;
        }
        acc = next;
        i = i + 1;
    }
    proof {
        assert(s@.take(s@.len() as int) =~= s@);
    }
    Some(acc as u8)
}

} // verus!
