//! Inbound mentions: the watermark over mention ids, the indexed list the
//! completion provider chooses from, and reading its choice back.

use vstd::prelude::*;
use crate::text::{all_digits, decimal, decimal_string, digit_value, digits_value, is_digit, join_strings, joined, texts};

verus! {

/// A mention of the persona on the social platform.
#[derive(Debug)]
pub struct Mention {
    pub id: u64,
    pub text: String,
}

/// The highest mention id seen so far; later fetches ask only for ids above it.
#[derive(Debug, Clone, Copy, PartialEq, Eq, Structural)]
pub struct MentionWatermark {
    pub latest: u64,
}

/// The ids of a batch of mentions.
pub open spec fn ids_of(ms: Seq<Mention>) -> Seq<u64> {
    ms.map_values(|m: Mention| m.id)
}

/// The largest of `ids`, or 0 when there are none.
pub open spec fn max_id(ids: Seq<u64>) -> nat
    decreases ids.len(),
{
    if ids.len() == 0 {
        0
    } else {
        let rest = max_id(ids.drop_last());
        if ids.last() as nat > rest {
            ids.last() as nat
        } else {
            rest
        }
    }
}

/// The watermark after a fetch: a failed one (`None`) leaves it, a
/// successful one raises it to the largest id fetched if that is higher.
pub open spec fn after_fetch(w: nat, fetched: Option<Seq<u64>>) -> nat {
    match fetched {
        None => w,
        Some(ids) => if max_id(ids) > w {
            max_id(ids)
        } else {
            w
        },
    }
}

/// The watermark after a sequence of fetches, in order.
pub open spec fn after_fetches(w: nat, fetches: Seq<Option<Seq<u64>>>) -> nat
    decreases fetches.len(),
{
    if fetches.len() == 0 {
        w
    } else {
        after_fetch(after_fetches(w, fetches.drop_last()), fetches.last())
    }
}

/// The watermark never moves back: over any sequence of fetches, empty and
/// failed ones included, its value after the first `i` fetches is at most
/// its value after the first `j`, for `i <= j`.
pub proof fn lemma_watermark_monotone(w: nat, fetches: Seq<Option<Seq<u64>>>, i: int, j: int)
    requires
        0 <= i <= j <= fetches.len(),
    ensures
        w <= after_fetches(w, fetches.take(i)),
        after_fetches(w, fetches.take(i)) <= after_fetches(w, fetches.take(j)),
    decreases j,
{
    if j > 0 {
        assert(fetches.take(j).drop_last() =~= fetches.take(j - 1));
        if i < j {
            lemma_watermark_monotone(w, fetches, i, j - 1);
        } else {
            lemma_watermark_monotone(w, fetches, j - 1, j - 1);
        }
    } else {
        assert(fetches.take(0) =~= Seq::<Option<Seq<u64>>>::empty());
    }
}

/// One line of the list handed to the completion provider: `id - text`.
pub open spec fn mention_line(m: Mention) -> Seq<char> {
    decimal(m.id as nat) + seq![' ', '-', ' '] + m.text@
}

/// The list of mentions, one line each.
pub open spec fn mention_list_text(ms: Seq<Mention>) -> Seq<char> {
    joined(ms.map_values(|m: Mention| mention_line(m)), seq!['\n'])
}

/// The number that a reply holds: an optional `+` and then one or more
/// decimal digits, nothing else.
pub open spec fn choice_value(s: Seq<char>) -> Option<nat> {
    let body = if s.len() >= 1 && s[0] == '+' {
        s.subrange(1, s.len() as int)
    } else {
        s
    };
    if body.len() >= 1 && all_digits(body) {
        Some(digits_value(body))
    } else {
        None
    }
}

/// The index chosen in a trimmed reply, when it fits a `u64`.
pub open spec fn choice_of(s: Seq<char>) -> Option<u64> {
    match choice_value(s) {
        Some(v) => if v <= u64::MAX {
            Some(v as u64)
        } else {
            None
        },
        None => None,
    }
}

/// A character of the Unicode `White_Space` property.
pub open spec fn is_white_space(c: char) -> bool {
    let u = c as int;
    (0x09 <= u <= 0x0d) || u == 0x20 || u == 0x85 || u == 0xa0 || u == 0x1680
        || (0x2000 <= u <= 0x200a) || u == 0x2028 || u == 0x2029 || u == 0x202f || u == 0x205f
        || u == 0x3000
}

/// `s` without its leading white space.
pub open spec fn trim_start(s: Seq<char>) -> Seq<char>
    decreases s.len(),
{
    if s.len() > 0 && is_white_space(s[0]) {
        trim_start(s.drop_first())
    } else {
        s
    }
}

/// `s` without its trailing white space.
pub open spec fn trim_end(s: Seq<char>) -> Seq<char>
    decreases s.len(),
{
    if s.len() > 0 && is_white_space(s.last()) {
        trim_end(s.drop_last())
    } else {
        s
    }
}

/// `s` without its leading and trailing white space.
pub open spec fn trimmed(s: Seq<char>) -> Seq<char> {
    trim_end(trim_start(s))
}

/// Relies on `str::trim`: the input without leading and trailing characters
/// of the Unicode `White_Space` property.
#[verifier::external_body]
fn trim_text(s: &str) -> (r: &str)
    ensures
        r@ == trimmed(s@),
{
    s.trim()
}

impl MentionWatermark {
    /// The watermark at startup: the highest id among the mentions visible
    /// then, or 0 when none are or they could not be fetched.
    pub fn from_startup(visible: Option<&Vec<Mention>>) -> (w: MentionWatermark)
        ensures
            w.latest as nat == after_fetch(0, match visible {
                Some(v) => Some(ids_of(v@)),
                None => None,
            }),
    {
        let mut w = MentionWatermark { latest: 0 };
        w.record_fetch(visible);
        w
    }

    /// Takes in the outcome of a fetch: `None` for a failed one.
    pub fn record_fetch(&mut self, fetched: Option<&Vec<Mention>>)
        ensures
            final(self).latest as nat == after_fetch(old(self).latest as nat, match fetched {
                Some(v) => Some(ids_of(v@)),
                None => None,
            }),
    {
        match fetched {
            None => {},
            Some(v) => {
                let top = highest_id(v);
                if top > self.latest {
                    self.latest = top;
                }
            },
        }
    }
}

/// The largest id in a batch, 0 for an empty batch.
pub fn highest_id(ms: &Vec<Mention>) -> (r: u64)
    ensures
        r as nat == max_id(ids_of(ms@)),
{
    let mut best: u64 = 0;
    let mut i: usize = 0;
    while i < ms.len()
        invariant
            i <= ms.len(),
            best as nat == max_id(ids_of(ms@.subrange(0, i as int))),
        decreases ms.len() - i,
    {
        assert(ids_of(ms@.subrange(0, i as int + 1)).drop_last() =~= ids_of(ms@.subrange(0, i as int)));
        assert(ids_of(ms@.subrange(0, i as int + 1)).last() == ms@[i as int].id);
        if ms[i].id > best {
            best = ms[i].id;
        }
        i += 1;
    }
    assert(ms@.subrange(0, ms.len() as int) =~= ms@);
    best
}

/// The mentions as the completion provider sees them: one `id - text`
/// line each, in order, separated by newlines.
pub fn mention_list(ms: &Vec<Mention>) -> (r: String)
    ensures
        r@ == mention_list_text(ms@),
{
    let mut lines: Vec<String> = Vec::new();
    let mut i: usize = 0;
    while i < ms.len()
        invariant
            i <= ms.len(),
            texts(lines@) == ms@.subrange(0, i as int).map_values(|m: Mention| mention_line(m)),
        decreases ms.len() - i,
    {
        let mut line = decimal_string(ms[i].id);
        line.append(" - ");
        line.append(ms[i].text.as_str());
        proof {
            reveal_strlit(" - ");
        }
        let ghost before = lines@;
        lines.push(line);
        proof {
            assert(texts(lines@) =~= texts(before).push(line@));
            assert(line@ =~= mention_line(ms@[i as int]));
            assert(ms@.subrange(0, i as int + 1).map_values(|m: Mention| mention_line(m))
                =~= ms@.subrange(0, i as int).map_values(|m: Mention| mention_line(m)).push(mention_line(ms@[i as int])));
        }
        i += 1;
    }
    assert(ms@.subrange(0, ms.len() as int) =~= ms@);
    let sep = "\n";
    proof {
        reveal_strlit("\n");
        assert(sep@ =~= seq!['\n']);
    }
    join_strings(&lines, sep)
}

/// What an engage step has to offer the completion provider: nothing when
/// the fetch brought no mentions, else their list.
pub fn mention_batch(ms: &Vec<Mention>) -> (r: Option<String>)
    ensures
        ms@.len() == 0 ==> r is None,
        ms@.len() > 0 ==> r is Some && r->Some_0@ == mention_list_text(ms@),
{
    if ms.len() == 0 {
        None
    } else {
        Some(mention_list(ms))
    }
}

/// Reads the index in an already trimmed reply.
pub fn parse_choice(s: &str) -> (r: Option<u64>)
    ensures
        r == choice_of(s@),
{
    let n = s.unicode_len();
    let mut start: usize = 0;
    if n >= 1 && s.get_char(0) == '+' {
        start = 1;
    }
    let ghost body = s@.subrange(start as int, n as int);
    assert(body =~= (if s@.len() >= 1 && s@[0] == '+' { s@.subrange(1, s@.len() as int) } else { s@ }));
    if start >= n {
        return None;
    }
    let mut acc: u64 = 0;
    let mut over = false;
    let mut i: usize = start;
    while i < n
        invariant
            n == s@.len(),
            start <= i <= n,
            body == s@.subrange(start as int, n as int),
            body == (if s@.len() >= 1 && s@[0] == '+' { s@.subrange(1, s@.len() as int) } else { s@ }),
            body.len() >= 1,
            all_digits(s@.subrange(start as int, i as int)),
            over <==> digits_value(s@.subrange(start as int, i as int)) > u64::MAX,
            !over ==> acc as nat == digits_value(s@.subrange(start as int, i as int)),
        decreases n - i,
    {
        let c = s.get_char(i);
        let ghost pre = s@.subrange(start as int, i as int);
        let ghost pre1 = s@.subrange(start as int, i as int + 1);
        assert(pre1.drop_last() =~= pre);
        assert(pre1.last() == c);
        if !('0' <= c && c <= '9') {
            proof {
                assert(body[i - start] == c);
                assert(!is_digit(body[i - start]));
                assert(!all_digits(body));
                assert(choice_value(s@) is None);
            }
            return None;
        }
        let d = (c as u32 - '0' as u32) as u64;
        assert(d as nat == digit_value(c));
        assert(all_digits(pre1)) by {
            assert forall|k: int| 0 <= k < pre1.len() implies is_digit(#[trigger] pre1[k]) by {
                if k < pre.len() {
                    assert(pre1[k] == pre[k]);
                }
            }
        }
        assert(digits_value(pre1) == digits_value(pre) * 10 + d);
        if !over {
            if acc > (u64::MAX - d) / 10 {
                over = true;
                assert(acc * 10 + d > u64::MAX) by (nonlinear_arith)
                    requires acc > (u64::MAX - d) / 10, d <= 9;
            } else {
                assert(acc * 10 + d <= u64::MAX) by (nonlinear_arith)
                    requires acc <= (u64::MAX - d) / 10, d <= 9;
                acc = acc * 10 + d;
            }
        } else {
            assert(digits_value(pre) * 10 + d > u64::MAX) by (nonlinear_arith)
                requires digits_value(pre) > u64::MAX;
        }
        i += 1;
    }
    assert(s@.subrange(start as int, n as int) == body);
    if over {
        None
    } else {
        Some(acc)
    }
}

/// Reads the index that a completion chose, ignoring surrounding whitespace;
/// `None` when the reply is not a number that fits a `u64`.
pub fn parse_reply_choice(response: &str) -> (r: Option<u64>)
    ensures
        r == choice_of(trimmed(response@)),
{
    parse_choice(trim_text(response))
}

/// The position of the first mention with the chosen id.
pub fn find_mention(ms: &Vec<Mention>, id: u64) -> (r: Option<usize>)
    ensures
        r is None ==> forall|k: int| 0 <= k < ms@.len() ==> ms@[k].id != id,
        r is Some ==> r->Some_0 < ms@.len() && ms@[r->Some_0 as int].id == id
            && forall|k: int| 0 <= k < r->Some_0 ==> ms@[k].id != id,
{
    let mut i: usize = 0;
    while i < ms.len()
        invariant
            i <= ms.len(),
            forall|k: int| 0 <= k < i ==> ms@[k].id != id,
        decreases ms.len() - i,
    {
        if ms[i].id == id {
            return Some(i);
        }
        i += 1;
    }
    None
}

} // verus!
