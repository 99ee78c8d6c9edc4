//! Derivation of a short display name from a fully qualified identifier.
//!
//! The identifier is split on the `::` separator, the last two segments are
//! kept and re-joined, and bracketed generic annotations are elided from the
//! result: an opening angle bracket raises the nesting depth, a closing one
//! lowers it, and a character is kept only while the depth is below one.

use vstd::prelude::*;
use vstd::string::StrSliceExecFns;
use vstd::string::StringExecFns;

use crate::outside::push_char;

verus! {

/// The path separator between segments of a qualified identifier.
pub open spec fn separator() -> Seq<char> {
    seq![':', ':']
}

/// The segments of `s`, splitting on the leftmost separator first; a string
/// without a separator is one segment, so the result is never empty.
pub open spec fn split_segments(s: Seq<char>) -> Seq<Seq<char>>
    decreases s.len(),
{
    if s.len() >= 2 && s[0] == ':' && s[1] == ':' {
        seq![Seq::<char>::empty()] + split_segments(s.skip(2))
    } else if s.len() == 0 {
        seq![Seq::<char>::empty()]
    } else {
        let rest = split_segments(s.skip(1));
        seq![seq![s[0]] + rest[0]] + rest.skip(1)
    }
}

/// The last two segments of `s`, joined by the separator again; a string
/// with a single segment stays whole.
pub open spec fn tail_name(s: Seq<char>) -> Seq<char> {
    let segs = split_segments(s);
    if segs.len() == 1 {
        segs[0]
    } else {
        segs[segs.len() - 2] + separator() + segs[segs.len() - 1]
    }
}

/// `s` with bracketed annotations elided, starting from nesting depth
/// `depth`: `<` raises the depth, `>` lowers it, and any other character is
/// kept exactly while the depth is below one.
pub open spec fn strip_annotations_from(s: Seq<char>, depth: int) -> Seq<char>
    decreases s.len(),
{
    if s.len() == 0 {
        Seq::empty()
    } else if s[0] == '<' {
        strip_annotations_from(s.skip(1), depth + 1)
    } else if s[0] == '>' {
        strip_annotations_from(s.skip(1), depth - 1)
    } else if depth < 1 {
        seq![s[0]] + strip_annotations_from(s.skip(1), depth)
    } else {
        strip_annotations_from(s.skip(1), depth)
    }
}

/// The short display name of the qualified identifier `s`: its last two
/// segments, with bracketed annotations elided.
pub open spec fn cleaned_name(s: Seq<char>) -> Seq<char> {
    strip_annotations_from(tail_name(s), 0)
}

/// Splitting yields at least one segment.
proof fn lemma_split_segments_len(s: Seq<char>)
    ensures
        split_segments(s).len() >= 1,
    decreases s.len(),
{
    if s.len() >= 2 && s[0] == ':' && s[1] == ':' {
        lemma_split_segments_len(s.skip(2));
    } else if s.len() == 0 {
    } else {
        lemma_split_segments_len(s.skip(1));
    }
}

/// Unfolds `split_segments` at a separator occurrence inside `s`.
proof fn lemma_split_step_sep(s: Seq<char>, i: int)
    requires
        0 <= i,
        i + 2 <= s.len(),
        s[i] == ':',
        s[i + 1] == ':',
    ensures
        split_segments(s.skip(i)) == seq![Seq::<char>::empty()] + split_segments(s.skip(i + 2)),
{
    assert(s.skip(i)[0] == s[i]);
    assert(s.skip(i)[1] == s[i + 1]);
    assert(s.skip(i).skip(2) =~= s.skip(i + 2));
}

/// Unfolds `split_segments` at an ordinary position inside `s`: position
/// `i` does not start a separator.
proof fn lemma_split_step_char(s: Seq<char>, i: int)
    requires
        0 <= i < s.len(),
        !(i + 2 <= s.len() && s[i] == ':' && s[i + 1] == ':'),
    ensures
        ({
            let rest = split_segments(s.skip(i + 1));
            split_segments(s.skip(i)) == seq![seq![s[i]] + rest[0]] + rest.skip(1)
        }),
{
    assert(s.skip(i)[0] == s[i]);
    assert(s.skip(i).len() == s.len() - i);
    if i + 2 <= s.len() {
        assert(s.skip(i)[1] == s[i + 1]);
    }
    assert(s.skip(i).skip(1) =~= s.skip(i + 1));
}

/// Unfolds `strip_annotations_from` one character at a time.
proof fn lemma_strip_step(t: Seq<char>, j: int, d: int)
    requires
        0 <= j < t.len(),
    ensures
        t[j] == '<' ==> strip_annotations_from(t.skip(j), d) == strip_annotations_from(
            t.skip(j + 1),
            d + 1,
        ),
        t[j] == '>' ==> strip_annotations_from(t.skip(j), d) == strip_annotations_from(
            t.skip(j + 1),
            d - 1,
        ),
        t[j] != '<' && t[j] != '>' && d < 1 ==> strip_annotations_from(t.skip(j), d) == seq![t[j]]
            + strip_annotations_from(t.skip(j + 1), d),
        t[j] != '<' && t[j] != '>' && d >= 1 ==> strip_annotations_from(t.skip(j), d)
            == strip_annotations_from(t.skip(j + 1), d),
{
    assert(t.skip(j)[0] == t[j]);
    assert(t.skip(j).len() == t.len() - j);
    assert(t.skip(j).skip(1) =~= t.skip(j + 1));
}

/// The last two segments of a qualified identifier, with bracketed generic
/// annotations elided: `a::b::c::d` becomes `c::d`, and `a::b::c<T>::d`
/// becomes `c::d` as well.
pub fn clean_fn(s: &str) -> (r: String)
    ensures
        r@ == cleaned_name(s@),
{
    let n: usize = s.unicode_len();
    let mut i: usize = 0;
    let mut prev: Option<String> = None;
    let mut cur: String = String::new();
    let ghost mut done: Seq<Seq<char>> = Seq::empty();

    proof {
        lemma_split_segments_len(s@);
        assert(s@.skip(0) =~= s@);
        assert(done + seq![cur@ + split_segments(s@)[0]] + split_segments(s@).skip(1) =~~= split_segments(
            s@,
        ));
    }

    while i < n
        invariant
            i <= n,
            n == s@.len(),
            split_segments(s@) == done + seq![cur@ + split_segments(s@.skip(i as int))[0]]
                + split_segments(s@.skip(i as int)).skip(1),
            done.len() == 0 <==> prev is None,
            prev matches Some(p) ==> done.len() >= 1 && p@ == done.last(),
        decreases n - i,
    {
        let ghost f_i = split_segments(s@.skip(i as int));
        let c = s.get_char(i);
        if i + 1 < n && c == ':' && s.get_char(i + 1) == ':' {
            proof {
                lemma_split_step_sep(s@, i as int);
                let f_next = split_segments(s@.skip(i as int + 2));
                lemma_split_segments_len(s@.skip(i as int + 2));
                assert(f_i.skip(1) =~~= f_next);
                assert(f_i[0] =~= Seq::<char>::empty());
                assert(done + seq![cur@ + f_i[0]] + f_i.skip(1) =~~= done.push(cur@) + seq![
                    Seq::<char>::empty() + f_next[0]] + f_next.skip(1));
                done = done.push(cur@);
            }
            prev = Some(cur);
            cur = String::new();
            i = i + 2;
        } else {
            proof {
                lemma_split_step_char(s@, i as int);
                let f_next = split_segments(s@.skip(i as int + 1));
                lemma_split_segments_len(s@.skip(i as int + 1));
                assert(f_i[0] =~= seq![s@[i as int]] + f_next[0]);
                assert(f_i.skip(1) =~~= f_next.skip(1));
                assert(cur@.push(s@[i as int]) + f_next[0] =~= cur@ + f_i[0]);
                assert(done + seq![cur@ + f_i[0]] + f_i.skip(1) =~~= done + seq![cur@.push(
                    s@[i as int],
                ) + f_next[0]] + f_next.skip(1));
            }
            push_char(&mut cur, c);
            i = i + 1;
        }
    }

    proof {
        assert(s@.skip(n as int) =~= Seq::<char>::empty());
        assert(split_segments(s@.skip(n as int)) == seq![Seq::<char>::empty()]);
        assert(split_segments(s@) =~~= done + seq![cur@]);
        assert(split_segments(s@).len() == done.len() + 1);
    }

    let mut name: String;
    match prev {
        Some(p) => {
            proof {
                let segs = split_segments(s@);
                assert(segs[segs.len() - 2] == done.last());
                assert(segs[segs.len() - 1] == cur@);
                reveal_strlit("::");
                assert("::"@ =~= separator());
            }
            name = p;
            name.append("::");
            name.append(cur.as_str());
        },
        None => {
            proof {
                let segs = split_segments(s@);
                assert(segs.len() == 1);
                assert(segs[0] == cur@);
            }
            name = cur;
        },
    }
    proof {
        assert(name@ == tail_name(s@));
    }

    let m: usize = name.as_str().unicode_len();
    let mut out: String = String::new();
    let mut depth: i128 = 0;
    let mut j: usize = 0;

    proof {
        assert(name@.skip(0) =~= name@);
        assert(out@ + strip_annotations_from(name@, 0) =~= strip_annotations_from(name@, 0));
    }

    while j < m
        invariant
            j <= m,
            m == name@.len(),
            -(j as int) <= depth as int <= j as int,
            strip_annotations_from(name@, 0) == out@ + strip_annotations_from(
                name@.skip(j as int),
                depth as int,
            ),
        decreases m - j,
    {
        let c = name.as_str().get_char(j);
        proof {
            lemma_strip_step(name@, j as int, depth as int);
        }
        if c == '<' {
            depth = depth + 1;
        } else if c == '>' {
            depth = depth - 1;
        } else if depth < 1 {
            let ghost out0 = out@;
            push_char(&mut out, c);
            proof {
                assert(out0 + (seq![name@[j as int]] + strip_annotations_from(
                    name@.skip(j as int + 1),
                    depth as int,
                )) =~= out@ + strip_annotations_from(name@.skip(j as int + 1), depth as int));
            }
        }
        j = j + 1;
    }

    proof {
        assert(name@.skip(m as int) =~= Seq::<char>::empty());
        assert(strip_annotations_from(name@.skip(m as int), depth as int) == Seq::<char>::empty());
        assert(out@ + Seq::<char>::empty() =~= out@);
    }
    out
}

} // verus!
