//! Percent-decoding of path captures and query text, and
//! `application/x-www-form-urlencoded` encoding of query parameters.

use vstd::prelude::*;

verus! {

/// `b` is an ASCII hexadecimal digit.
pub open spec fn is_hex_digit(b: u8) -> bool {
    ('0' as u8 <= b <= '9' as u8) || ('a' as u8 <= b <= 'f' as u8) || ('A' as u8 <= b
        <= 'F' as u8)
}

/// The value of a hexadecimal digit.
pub open spec fn hex_value(b: u8) -> u8 {
    if '0' as u8 <= b <= '9' as u8 {
        (b - '0' as u8) as u8
    } else if 'a' as u8 <= b <= 'f' as u8 {
        (b - 'a' as u8 + 10) as u8
    } else {
        (b - 'A' as u8 + 10) as u8
    }
}

/// Strict percent-decoding: every `%` must be followed by two hexadecimal
/// digits, else the whole input is rejected. With `plus_space`, `+` decodes
/// to a space, as in query strings; path text keeps `+` as it is.
pub open spec fn pct_decode(s: Seq<u8>, plus_space: bool) -> Option<Seq<u8>>
    decreases s.len(),
{
    if s.len() == 0 {
        Some(Seq::<u8>::empty())
    } else if s[0] == '%' as u8 {
        if s.len() >= 3 && is_hex_digit(s[1]) && is_hex_digit(s[2]) {
            match pct_decode(s.skip(3), plus_space) {
                Some(r) => Some(seq![(hex_value(s[1]) * 16 + hex_value(s[2])) as u8] + r),
                None => None,
            }
        } else {
            None
        }
    } else {
        let b = if plus_space && s[0] == '+' as u8 {
            ' ' as u8
        } else {
            s[0]
        };
        match pct_decode(s.skip(1), plus_space) {
            Some(r) => Some(seq![b] + r),
            None => None,
        }
    }
}

/// The value of `b` as a hexadecimal digit, if it is one.
pub fn hex_digit_value(b: u8) -> (r: Option<u8>)
    ensures
        r == (if is_hex_digit(b) {
            Some(hex_value(b))
        } else {
            None::<u8>
        }),
{
    if '0' as u8 <= b && b <= '9' as u8 {
        Some(b - '0' as u8)
    } else if 'a' as u8 <= b && b <= 'f' as u8 {
        Some(b - 'a' as u8 + 10)
    } else if 'A' as u8 <= b && b <= 'F' as u8 {
        Some(b - 'A' as u8 + 10)
    } else {
        None
    }
}

/// Percent-decode `s`; `None` when a `%` is not followed by two
/// hexadecimal digits.
pub fn percent_decode(s: &[u8], plus_space: bool) -> (r: Option<Vec<u8>>)
    ensures
        match r {
            Some(v) => pct_decode(s@, plus_space) == Some(v@),
            None => pct_decode(s@, plus_space) is None,
        },
{
    let mut out: Vec<u8> = Vec::new();
    let mut i: usize = 0;
    assert(s@.skip(0) =~= s@);
    while i < s.len()
        invariant
            0 <= i <= s@.len(),
            pct_decode(s@, plus_space) == (match pct_decode(s@.skip(i as int), plus_space) {
                Some(r) => Some(out@ + r),
                None => None::<Seq<u8>>,
            }),
        decreases s@.len() - i,
    {
        let ghost pre = s@.skip(i as int);
        let c = s[i];
        assert(pre[0] == c);
        if c == '%' as u8 {
            if s.len() - i < 3 {
                assert(pre.len() < 3);
                return None;
            }
            let h = hex_digit_value(s[i + 1]);
            let l = hex_digit_value(s[i + 2]);
            assert(pre[1] == s@[i + 1] && pre[2] == s@[i + 2]);
            match (h, l) {
                (Some(hv), Some(lv)) => {
                    let d = hv * 16 + lv;
                    proof {
                        assert(pre.skip(3) =~= s@.skip(i + 3));
                        if let Some(r) = pct_decode(s@.skip(i + 3), plus_space) {
                            assert((out@ + seq![d]) + r =~= out@ + (seq![d] + r));
                        }
                    }
                    out.push(d);
                    i = i + 3;
                },
                _ => {
                    return None;
                },
            }
        } else {
            let b = if plus_space && c == '+' as u8 {
                ' ' as u8
            } else {
                c
            };
            proof {
                assert(pre.skip(1) =~= s@.skip(i + 1));
                if let Some(r) = pct_decode(s@.skip(i + 1), plus_space) {
                    assert((out@ + seq![b]) + r =~= out@ + (seq![b] + r));
                }
            }
            out.push(b);
            i = i + 1;
        }
    }
    proof {
        assert(s@.skip(s@.len() as int) =~= Seq::<u8>::empty());
        assert(out@ + Seq::<u8>::empty() =~= out@);
    }
    Some(out)
}

/// Bytes that form-encoding leaves as they are.
pub open spec fn form_unchanged(b: u8) -> bool {
    b == '*' as u8 || b == '-' as u8 || b == '.' as u8 || ('0' as u8 <= b <= '9' as u8) || (
    'A' as u8 <= b <= 'Z' as u8) || b == '_' as u8 || ('a' as u8 <= b <= 'z' as u8)
}

/// The upper-case hexadecimal digit for a value below 16.
pub open spec fn hex_upper_digit(n: u8) -> u8 {
    if n < 10 {
        ('0' as u8 + n) as u8
    } else {
        ('A' as u8 + n - 10) as u8
    }
}

/// One byte under form-encoding: kept, `+` for a space, or `%XX`.
pub open spec fn form_encode_byte(b: u8) -> Seq<u8> {
    if form_unchanged(b) {
        seq![b]
    } else if b == ' ' as u8 {
        seq!['+' as u8]
    } else {
        seq!['%' as u8, hex_upper_digit(b / 16), hex_upper_digit(b % 16)]
    }
}

/// The form-encoding of a whole byte string.
pub open spec fn form_encode(s: Seq<u8>) -> Seq<u8>
    decreases s.len(),
{
    if s.len() == 0 {
        Seq::<u8>::empty()
    } else {
        form_encode_byte(s[0]) + form_encode(s.skip(1))
    }
}

/// Append the form-encoding of `s` to `out`.
pub fn push_form_encoded(out: &mut Vec<u8>, s: &[u8])
    ensures
        final(out)@ == old(out)@ + form_encode(s@),
{
    let ghost start = old(out)@;
    let mut i: usize = 0;
    assert(s@.skip(0) =~= s@);
    while i < s.len()
        invariant
            0 <= i <= s@.len(),
            start + form_encode(s@) == out@ + form_encode(s@.skip(i as int)),
        decreases s@.len() - i,
    {
        let ghost pre = s@.skip(i as int);
        let b = s[i];
        assert(pre[0] == b);
        proof {
            assert(pre.skip(1) =~= s@.skip(i + 1));
        }
        if b == '*' as u8 || b == '-' as u8 || b == '.' as u8 || ('0' as u8 <= b && b
            <= '9' as u8) || ('A' as u8 <= b && b <= 'Z' as u8) || b == '_' as u8 || ('a' as u8 <= b
            && b <= 'z' as u8) {
            proof {
                assert((out@ + seq![b]) + form_encode(s@.skip(i + 1)) =~= out@ + (seq![b]
                    + form_encode(s@.skip(i + 1))));
            }
            out.push(b);
        } else if b == ' ' as u8 {
            proof {
                assert((out@ + seq!['+' as u8]) + form_encode(s@.skip(i + 1)) =~= out@ + (seq![
                    '+' as u8,
                ] + form_encode(s@.skip(i + 1))));
            }
            out.push('+' as u8);
        } else {
            let hi = b / 16;
            let lo = b % 16;
            let hd = if hi < 10 {
                '0' as u8 + hi
            } else {
                'A' as u8 + hi - 10
            };
            let ld = if lo < 10 {
                '0' as u8 + lo
            } else {
                'A' as u8 + lo - 10
            };
            proof {
                assert(form_encode_byte(b) =~= seq!['%' as u8, hd, ld]);
                assert((out@ + seq!['%' as u8, hd, ld]) + form_encode(s@.skip(i + 1)) =~= out@ + (
                seq!['%' as u8, hd, ld] + form_encode(s@.skip(i + 1))));
            }
            out.push('%' as u8);
            out.push(hd);
            out.push(ld);
        }
        i = i + 1;
    }
    proof {
        assert(s@.skip(s@.len() as int) =~= Seq::<u8>::empty());
        assert(form_encode(Seq::<u8>::empty()) =~= Seq::<u8>::empty());
        assert(out@ + Seq::<u8>::empty() =~= out@);
    }
}

} // verus!
