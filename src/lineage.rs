//! Lookup names of persona versions: `base`, or `base.vN` for version N.

use vstd::prelude::*;
use crate::text::{all_digits, decimal, decimal_string, digit_value, digits_value, is_digit, lemma_decimal_value};

verus! {

/// The dot-separated segments of `s`, in order; there is always at least one.
pub open spec fn segments(s: Seq<char>) -> Seq<Seq<char>>
    decreases s.len(),
{
    if s.len() == 0 {
        seq![Seq::empty()]
    } else {
        let segs = segments(s.drop_last());
        if s.last() == '.' {
            segs.push(Seq::empty())
        } else {
            segs.update(segs.len() - 1, segs.last().push(s.last()))
        }
    }
}

/// A segment that starts with `v` followed by only digits.
pub open spec fn v_digits(seg: Seq<char>) -> bool {
    seg.len() >= 1 && seg[0] == 'v' && all_digits(seg.subrange(1, seg.len() as int))
}

/// The version that a segment names: `v` and digits whose value is from 1 to 255.
pub open spec fn token_value(seg: Seq<char>) -> Option<nat> {
    if seg.len() >= 2 && v_digits(seg) && 1 <= digits_value(seg.subrange(1, seg.len() as int))
        <= 255 {
        Some(digits_value(seg.subrange(1, seg.len() as int)))
    } else {
        None
    }
}

/// The version named by the first version segment, the leading one included.
pub open spec fn first_token(segs: Seq<Seq<char>>) -> Option<nat>
    decreases segs.len(),
{
    if segs.len() == 0 {
        None
    } else {
        match first_token(segs.drop_last()) {
            Some(v) => Some(v),
            None => token_value(segs.last()),
        }
    }
}

/// The version that a lookup name carries, 1 when it carries none.
pub open spec fn version_of(name: Seq<char>) -> nat {
    match first_token(segments(name)) {
        Some(v) => v,
        None => 1,
    }
}

/// The lineage key of a lookup name: its part before the first dot, or the
/// whole name when that part is empty.
pub open spec fn base_name_of(name: Seq<char>) -> Seq<char> {
    if segments(name)[0].len() == 0 {
        name
    } else {
        segments(name)[0]
    }
}

/// The lookup name of a version of a lineage.
pub open spec fn versioned_name(base: Seq<char>, version: nat) -> Seq<char> {
    base + seq!['.', 'v'] + decimal(version)
}

/// An optional version widened to `nat`.
pub open spec fn opt_nat(o: Option<u8>) -> Option<nat> {
    match o {
        Some(v) => Some(v as nat),
        None => None,
    }
}

/// There is always at least one segment.
pub proof fn lemma_segments_nonempty(s: Seq<char>)
    ensures
        segments(s).len() >= 1,
    decreases s.len(),
{
    if s.len() > 0 {
        lemma_segments_nonempty(s.drop_last());
    }
}

/// Appending characters without a dot extends the last segment only.
pub proof fn lemma_segments_extend(a: Seq<char>, t: Seq<char>)
    requires
        forall|k: int| 0 <= k < t.len() ==> t[k] != '.',
    ensures
        segments(a + t) == segments(a).update(segments(a).len() - 1, segments(a).last() + t),
    decreases t.len(),
{
    lemma_segments_nonempty(a);
    if t.len() == 0 {
        assert(a + t =~= a);
        assert(segments(a).last() + t =~= segments(a).last());
        assert(segments(a).update(segments(a).len() - 1, segments(a).last()) =~= segments(a));
    } else {
        let t0 = t.drop_last();
        lemma_segments_extend(a, t0);
        assert((a + t).drop_last() =~= a + t0);
        assert((a + t).last() == t.last());
        assert(segments(a).last() + t0 + seq![t.last()] =~= segments(a).last() + t);
        let s0 = segments(a + t0);
        assert(s0.last() == segments(a).last() + t0);
        assert(s0.len() == segments(a).len());
        assert(s0.last().push(t.last()) =~= segments(a).last() + t);
        assert(s0.update(s0.len() - 1, s0.last().push(t.last())) =~= segments(a).update(
            segments(a).len() - 1,
            segments(a).last() + t,
        ));
    }
}

/// A versioned name splits back into its base and its version.
pub proof fn lemma_versioned_name_round_trip(base: Seq<char>, version: nat)
    requires
        base.len() >= 1,
        forall|k: int| 0 <= k < base.len() ==> base[k] != '.',
        token_value(base) is None,
        1 <= version <= 255,
    ensures
        version_of(versioned_name(base, version)) == version,
        base_name_of(versioned_name(base, version)) == base,
{
    let d = decimal(version);
    lemma_decimal_value(version);
    let tok = seq!['v'] + d;
    assert forall|k: int| 0 <= k < tok.len() implies tok[k] != '.' by {
        if k >= 1 {
            assert(tok[k] == d[k - 1]);
            assert(is_digit(d[k - 1]));
        }
    }
    lemma_segments_extend(Seq::empty(), base);
    assert(Seq::<char>::empty() + base =~= base);
    assert(segments(Seq::<char>::empty()) =~= seq![Seq::<char>::empty()]);
    assert(segments(base) =~= seq![base]);
    let with_dot = base.push('.');
    assert(with_dot.drop_last() =~= base);
    assert(segments(with_dot) =~= seq![base, Seq::<char>::empty()]);
    lemma_segments_extend(with_dot, tok);
    assert(versioned_name(base, version) =~= with_dot + tok);
    let segs = segments(with_dot + tok);
    assert(Seq::<char>::empty() + tok =~= tok);
    assert(segs =~= seq![base, tok]);
    assert(tok.subrange(1, tok.len() as int) =~= d);
    assert(segs.drop_last() =~= seq![base]);
    assert(token_value(tok) == Some(version));
    assert(seq![base].drop_last() =~= Seq::<Seq<char>>::empty());
    assert(first_token(Seq::<Seq<char>>::empty()) == None::<nat>);
    assert(seq![base].last() == base);
    assert(first_token(seq![base]) == None::<nat>);
    assert(segs.last() == tok);
    assert(first_token(segs) == Some(version));
}

/// Splits a lookup name into its lineage key and its version.
pub fn parse_lookup_name(name: &str) -> (r: (String, u8))
    ensures
        r.0@ == base_name_of(name@),
        r.1 as nat == version_of(name@),
{
    let n = name.unicode_len();
    let mut i: usize = 0;
    let mut seen_dot = false;
    let mut base_end: usize = 0;
    let mut cur_len: usize = 0;
    let mut cur_ok = false;
    let mut cur_val: u64 = 0;
    let mut found: Option<u8> = None;
    assert(name@.subrange(0, 0) =~= Seq::<char>::empty());
    while i < n
        invariant
            n == name@.len(),
            i <= n,
            cur_len <= i,
            segments(name@.subrange(0, i as int)).len() >= 1,
            cur_len == segments(name@.subrange(0, i as int)).last().len(),
            cur_ok == v_digits(segments(name@.subrange(0, i as int)).last()),
            cur_ok ==> cur_val == if digits_value(
                segments(name@.subrange(0, i as int)).last().subrange(1, cur_len as int),
            ) < 256 {
                digits_value(
                    segments(name@.subrange(0, i as int)).last().subrange(1, cur_len as int),
                )
            } else {
                256
            },
            opt_nat(found) == first_token(segments(name@.subrange(0, i as int)).drop_last()),
            !seen_dot ==> segments(name@.subrange(0, i as int)) == seq![name@.subrange(0, i as int)],
            seen_dot ==> segments(name@.subrange(0, i as int)).len() >= 2 && base_end < i
                && segments(name@.subrange(0, i as int))[0] == name@.subrange(0, base_end as int),
        decreases n - i,
    {
        let ghost p = name@.subrange(0, i as int);
        let ghost segs = segments(p);
        let ghost grown = name@.subrange(0, i as int + 1);
        let c = name.get_char(i);
        assert(grown.drop_last() =~= p);
        assert(grown.last() == c);
        if c == '.' {
            if found.is_none() && cur_ok && cur_len >= 2 && 1 <= cur_val && cur_val
                <= 255 {
                found = Some(cur_val as u8);
            }
            proof {
                assert(segments(grown) == segs.push(Seq::empty()));
                assert(segments(grown).drop_last() =~= segs);
            }
            if !seen_dot {
                seen_dot = true;
                base_end = i;
            }
            cur_len = 0;
            cur_ok = false;
            cur_val = 0;
        } else {
            let ghost cur = segs.last();
            let ghost cur1 = cur.push(c);
            proof {
                assert(segments(grown) == segs.update(segs.len() - 1, cur1));
                assert(segments(grown).drop_last() =~= segs.drop_last());
                assert(segments(grown).last() == cur1);
                if !seen_dot {
                    assert(cur == p);
                    assert(cur1 =~= grown);
                    assert(segments(grown) =~= seq![grown]);
                } else {
                    assert(segments(grown)[0] == segs[0]);
                }
            }
            if cur_len == 0 {
                cur_ok = c == 'v';
                cur_val = 0;
                proof {
                    assert(cur1.subrange(1, 1) =~= Seq::<char>::empty());
                }
            } else if cur_ok && '0' <= c && c <= '9' {
                let d = (c as u32 - '0' as u32) as u64;
                assert(d as nat == digit_value(c));
                proof {
                    let ds = cur.subrange(1, cur_len as int);
                    let ds1 = cur1.subrange(1, cur_len as int + 1);
                    assert(ds1 =~= ds.push(c));
                    assert(ds1.drop_last() =~= ds);
                    assert(digits_value(ds1) == digits_value(ds) * 10 + digit_value(c));
                    assert(all_digits(ds1)) by {
                        assert forall|k: int| 0 <= k < ds1.len() implies is_digit(#[trigger] ds1[k]) by {
                            if k < ds.len() {
                                assert(ds1[k] == ds[k]);
                            }
                        }
                    }
                }
                if cur_val >= 256 {
                    cur_val = 256;
                } else {
                    let v = cur_val * 10 + d;
                    cur_val = if v >= 256 { 256 } else { v };
                }
            } else {
                cur_ok = false;
                proof {
                    if v_digits(cur1) {
                        let ds1 = cur1.subrange(1, cur_len as int + 1);
                        assert(ds1[cur_len - 1] == c);
                        assert(all_digits(cur.subrange(1, cur_len as int))) by {
                            assert forall|k: int| 0 <= k < cur_len - 1 implies is_digit(
                                #[trigger] cur.subrange(1, cur_len as int)[k],
                            ) by {
                                assert(ds1[k] == cur.subrange(1, cur_len as int)[k]);
                            }
                        }
                    }
                }
            }
            cur_len = cur_len + 1;
        }
        i = i + 1;
    }
    assert(name@.subrange(0, n as int) =~= name@);
    let version: u8 = match found {
        Some(v) => v,
        None => {
            if cur_ok && cur_len >= 2 && 1 <= cur_val && cur_val <= 255 {
                cur_val as u8
            } else {
                1
            }
        },
    };
    let base = if seen_dot && base_end > 0 {
        name.substring_char(0, base_end).to_owned()
    } else {
        name.to_owned()
    };
    (base, version)
}

/// The lookup name `base.vN` of version `N` of a lineage.
pub fn versioned_lookup_name(base: &str, version: u8) -> (r: String)
    ensures
        r@ == versioned_name(base@, version as nat),
{
    let mut s = base.to_owned();
    s.append(".v");
    let digits = decimal_string(version as u64);
    s.append(digits.as_str());
    proof {
        reveal_strlit(".v");
    }
    s
}

} // verus!
