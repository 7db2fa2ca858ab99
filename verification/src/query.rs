//! The query-string binder: decompose `k=v&k2=v2` text into decoded
//! key/value pairs, rejecting malformed percent-encoding. Unknown keys are
//! kept untouched so they pass through to the downstream collaborator.

use vstd::prelude::*;
use crate::bytes::{split_first, split_first_exec, lemma_split_first_at, lemma_split_first_rest_len,
    find_byte, sub_bytes};
use crate::percent::{pct_decode, percent_decode};

verus! {

/// One `key=value` chunk, decoded; the value is empty when `=` is absent.
pub open spec fn parse_pair(c: Seq<u8>) -> Option<(Seq<u8>, Seq<u8>)> {
    let kraw = split_first(c, '=' as u8).0;
    let vraw = match split_first(c, '=' as u8).1 {
        Some(v) => v,
        None => Seq::<u8>::empty(),
    };
    match (pct_decode(kraw, true), pct_decode(vraw, true)) {
        (Some(k), Some(v)) => Some((k, v)),
        _ => None,
    }
}

/// The pairs one chunk contributes: none for an empty chunk, one otherwise.
pub open spec fn chunk_pairs(c: Seq<u8>) -> Option<Seq<(Seq<u8>, Seq<u8>)>> {
    if c.len() == 0 {
        Some(Seq::<(Seq<u8>, Seq<u8>)>::empty())
    } else {
        match parse_pair(c) {
            Some(p) => Some(seq![p]),
            None => None,
        }
    }
}

/// All pairs of a raw query string, in order of appearance; `None` when
/// any chunk is malformed. Empty chunks (doubled or trailing `&`) are
/// skipped, and an empty query has no pairs.
pub open spec fn parse_query(q: Seq<u8>) -> Option<Seq<(Seq<u8>, Seq<u8>)>>
    decreases q.len(),
    via parse_query_decreases
{
    if q.len() == 0 {
        Some(Seq::<(Seq<u8>, Seq<u8>)>::empty())
    } else {
        let c = split_first(q, '&' as u8).0;
        match split_first(q, '&' as u8).1 {
            None => chunk_pairs(c),
            Some(r) => match (chunk_pairs(c), parse_query(r)) {
                (Some(a), Some(b)) => Some(a + b),
                _ => None,
            },
        }
    }
}

#[via_fn]
proof fn parse_query_decreases(q: Seq<u8>) {
    lemma_split_first_rest_len(q, '&' as u8);
}

/// The value of the last pair with the given key: where one mapping entry
/// per key is wanted, the last occurrence wins.
pub open spec fn last_value(pairs: Seq<(Seq<u8>, Seq<u8>)>, key: Seq<u8>) -> Option<Seq<u8>>
    decreases pairs.len(),
{
    if pairs.len() == 0 {
        None
    } else if pairs.last().0 == key {
        Some(pairs.last().1)
    } else {
        last_value(pairs.drop_last(), key)
    }
}

/// Bind one `key=value` chunk and append it to `out`; `false` when the
/// chunk is malformed. An empty chunk contributes nothing.
fn bind_chunk(chunk: &[u8], out: &mut Vec<(Vec<u8>, Vec<u8>)>) -> (ok: bool)
    ensures
        ok == (chunk_pairs(chunk@) is Some),
        ok ==> final(out).deep_view() == old(out).deep_view() + chunk_pairs(chunk@).unwrap(),
{
    let ghost entered = old(out).deep_view();
    if chunk.len() == 0 {
        proof {
            assert(entered + chunk_pairs(chunk@).unwrap() =~= entered);
        }
        return true;
    }
    let (kraw, vopt) = split_first_exec(chunk, '=' as u8);
    let kdec = percent_decode(kraw.as_slice(), true);
    let vdec = match vopt {
        Some(v) => percent_decode(v.as_slice(), true),
        None => {
            let empty: Vec<u8> = Vec::new();
            assert(empty@ =~= Seq::<u8>::empty());
            percent_decode(empty.as_slice(), true)
        },
    };
    match (kdec, vdec) {
        (Some(kv), Some(vv)) => {
            proof {
                assert(parse_pair(chunk@) == Some((kv@, vv@)));
                assert(chunk_pairs(chunk@) == Some(seq![(kv@, vv@)]));
            }
            out.push((kv, vv));
            proof {
                assert(out.deep_view() =~~= entered + seq![(kv@, vv@)]);
            }
            true
        },
        _ => {
            proof {
                assert(parse_pair(chunk@) is None);
                assert(chunk_pairs(chunk@) is None);
            }
            false
        },
    }
}

/// Parse a raw query string into decoded key/value pairs; `None` when its
/// encoding is malformed.
pub fn parse_query_exec(q: &[u8]) -> (r: Option<Vec<(Vec<u8>, Vec<u8>)>>)
    ensures
        match r {
            Some(v) => parse_query(q@) == Some(v.deep_view()),
            None => parse_query(q@) is None,
        },
{
    let n = q.len();
    let mut out: Vec<(Vec<u8>, Vec<u8>)> = Vec::new();
    let mut i: usize = 0;
    assert(q@.skip(0) =~= q@);
    loop
        invariant
            0 <= i <= q@.len(),
            n == q@.len(),
            parse_query(q@) == (match parse_query(q@.skip(i as int)) {
                Some(r) => Some(out.deep_view() + r),
                None => None::<Seq<(Seq<u8>, Seq<u8>)>>,
            }),
        decreases q@.len() - i,
    {
        let ghost pre = q@.skip(i as int);
        let ghost entered = out.deep_view();
        match find_byte(q, i, '&' as u8) {
            Some(j) => {
                let ghost k = j - i;
                proof {
                    assert(forall|m: int| 0 <= m < k ==> pre[m] == q@[i + m]);
                    assert(forall|m: int| 0 <= m < k ==> pre[m] != '&' as u8);
                    assert(pre[k] == q@[j as int]);
                    lemma_split_first_at(pre, '&' as u8, k);
                }
                let chunk = sub_bytes(q, i, j);
                proof {
                    assert(chunk@ =~= pre.take(k));
                }
                if !bind_chunk(chunk.as_slice(), &mut out) {
                    proof {
                        assert(parse_query(pre) is None);
                    }
                    return None;
                }
                proof {
                    assert(pre.len() > 0);
                    assert(pre.skip(k + 1) =~= q@.skip(j + 1));
                    let rest = q@.skip(j + 1);
                    let aa = chunk_pairs(chunk@).unwrap();
                    assert(parse_query(pre) == (match parse_query(rest) {
                        Some(bb) => Some(aa + bb),
                        None => None::<Seq<(Seq<u8>, Seq<u8>)>>,
                    }));
                    if let Some(bb) = parse_query(rest) {
                        assert(entered + (aa + bb) =~= (entered + aa) + bb);
                    }
                }
                i = j + 1;
            },
            None => {
                let ghost k = n - i;
                proof {
                    assert(forall|m: int| 0 <= m < k ==> pre[m] == q@[i + m]);
                    assert(forall|m: int| 0 <= m < k ==> pre[m] != '&' as u8);
                    lemma_split_first_at(pre, '&' as u8, k);
                }
                let chunk = sub_bytes(q, i, n);
                proof {
                    assert(chunk@ =~= pre.take(k));
                    assert(chunk@ =~= pre);
                }
                if !bind_chunk(chunk.as_slice(), &mut out) {
                    proof {
                        assert(pre.len() > 0);
                        assert(parse_query(pre) is None);
                    }
                    return None;
                }
                proof {
                    if pre.len() == 0 {
                        assert(parse_query(pre) == Some(Seq::<(Seq<u8>, Seq<u8>)>::empty()));
                    } else {
                        assert(parse_query(pre) == chunk_pairs(chunk@));
                    }
                    assert(entered + parse_query(pre).unwrap() == out.deep_view() || pre.len()
                        == 0);
                    if pre.len() == 0 {
                        assert(entered + Seq::<(Seq<u8>, Seq<u8>)>::empty() =~= entered);
                    }
                }
                return Some(out);
            },
        }
    }
}

} // verus!
