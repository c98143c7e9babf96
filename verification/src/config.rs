//! Parsing of user-configured allow-list entries.
//!
//! The configuration loader supplies each entry as one string such as
//! `"mycrate::util::helper"`.  An entry is split on the `::` separator into
//! segments, and whitespace around each segment is stripped.  Segments are
//! used as given: an empty or otherwise odd segment only affects what the
//! resulting path can match, never aborts the run.

use vstd::prelude::*;
use vstd::string::StrSliceExecFns;

use crate::path::QualifiedPath;

verus! {

/// The whitespace characters stripped around segments.
pub open spec fn is_space(c: char) -> bool {
    ||| c == '\u{0009}'
    ||| c == '\u{000A}'
    ||| c == '\u{000B}'
    ||| c == '\u{000C}'
    ||| c == '\u{000D}'
    ||| c == ' '
    ||| c == '\u{0085}'
    ||| c == '\u{00A0}'
    ||| c == '\u{1680}'
    ||| c == '\u{2000}'
    ||| c == '\u{2001}'
    ||| c == '\u{2002}'
    ||| c == '\u{2003}'
    ||| c == '\u{2004}'
    ||| c == '\u{2005}'
    ||| c == '\u{2006}'
    ||| c == '\u{2007}'
    ||| c == '\u{2008}'
    ||| c == '\u{2009}'
    ||| c == '\u{200A}'
    ||| c == '\u{2028}'
    ||| c == '\u{2029}'
    ||| c == '\u{202F}'
    ||| c == '\u{205F}'
    ||| c == '\u{3000}'
}

/// `s` without its leading whitespace.
pub open spec fn spec_trim_start(s: Seq<char>) -> Seq<char>
    decreases s.len(),
{
    if s.len() > 0 && is_space(s.first()) {
        spec_trim_start(s.drop_first())
    } else {
        s
    }
}

/// `s` without its trailing whitespace.
pub open spec fn spec_trim_end(s: Seq<char>) -> Seq<char>
    decreases s.len(),
{
    if s.len() > 0 && is_space(s.last()) {
        spec_trim_end(s.drop_last())
    } else {
        s
    }
}

/// `s` without leading and trailing whitespace.
pub open spec fn spec_trimmed(s: Seq<char>) -> Seq<char> {
    spec_trim_end(spec_trim_start(s))
}

/// The segments of `s` split on the two-character separator `::`, scanning
/// left to right, with `cur` the partial segment read so far.  Segments are
/// not yet trimmed here.
pub open spec fn spec_split(s: Seq<char>, cur: Seq<char>) -> Seq<Seq<char>>
    decreases s.len(),
{
    if s.len() >= 2 && s[0] == ':' && s[1] == ':' {
        seq![cur] + spec_split(s.skip(2), Seq::empty())
    } else if s.len() == 0 {
        seq![cur]
    } else {
        spec_split(s.drop_first(), cur.push(s[0]))
    }
}

/// One parsed user entry: the `::`-separated segments of `s`, each trimmed.
pub open spec fn user_path_spec(s: Seq<char>) -> Seq<Seq<char>> {
    spec_split(s, Seq::empty()).map_values(|seg: Seq<char>| spec_trimmed(seg))
}

/// Whether `c` is one of the whitespace characters stripped around segments.
fn is_space_char(c: char) -> (r: bool)
    ensures
        r == is_space(c),
{
    c == '\u{0009}' || c == '\u{000A}' || c == '\u{000B}' || c == '\u{000C}' || c == '\u{000D}'
        || c == ' ' || c == '\u{0085}' || c == '\u{00A0}' || c == '\u{1680}' || c == '\u{2000}'
        || c == '\u{2001}' || c == '\u{2002}' || c == '\u{2003}' || c == '\u{2004}' || c
        == '\u{2005}' || c == '\u{2006}' || c == '\u{2007}' || c == '\u{2008}' || c == '\u{2009}'
        || c == '\u{200A}' || c == '\u{2028}' || c == '\u{2029}' || c == '\u{202F}' || c
        == '\u{205F}' || c == '\u{3000}'
}

/// The characters of `s` between `from` and `to`, without leading and
/// trailing whitespace, as an owned string.
pub fn trimmed_range(s: &str, from: usize, to: usize) -> (r: String)
    requires
        from <= to <= s@.len(),
    ensures
        r@ == spec_trimmed(s@.subrange(from as int, to as int)),
{
    let mut lo = from;
    let mut hi = to;
    proof {
        assert(s@.subrange(from as int, to as int) =~= s@.subrange(lo as int, hi as int));
    }
    while lo < hi && is_space_char(s.get_char(lo))
        invariant
            from <= lo <= hi <= to <= s@.len(),
            hi == to,
            spec_trim_start(s@.subrange(from as int, to as int)) == spec_trim_start(
                s@.subrange(lo as int, hi as int),
            ),
        decreases hi - lo,
    {
        proof {
            assert(s@.subrange(lo as int, hi as int).drop_first() =~= s@.subrange(
                lo + 1,
                hi as int,
            ));
        }
        lo = lo + 1;
    }
    proof {
        assert(spec_trim_start(s@.subrange(lo as int, hi as int)) == s@.subrange(
            lo as int,
            hi as int,
        ));
    }
    while lo < hi && is_space_char(s.get_char(hi - 1))
        invariant
            from <= lo <= hi <= to <= s@.len(),
            spec_trimmed(s@.subrange(from as int, to as int)) == spec_trim_end(
                s@.subrange(lo as int, hi as int),
            ),
        decreases hi - lo,
    {
        proof {
            assert(s@.subrange(lo as int, hi as int).drop_last() =~= s@.subrange(
                lo as int,
                hi - 1,
            ));
        }
        hi = hi - 1;
    }
    proof {
        assert(spec_trim_end(s@.subrange(lo as int, hi as int)) == s@.subrange(
            lo as int,
            hi as int,
        ));
    }
    s.substring_char(lo, hi).to_owned()
}

/// Parses one user-configured entry into a qualified path: the entry is
/// split on `::` and whitespace around each segment is stripped.
pub fn parse_user_path(s: &str) -> (r: QualifiedPath)
    ensures
        r@ == user_path_spec(s@),
{
    let n = s.unicode_len();
    let mut segments: Vec<String> = Vec::new();
    let mut start: usize = 0;
    let mut i: usize = 0;
    proof {
        assert(s@.skip(0) =~= s@);
        assert(s@.subrange(0, 0) =~= Seq::<char>::empty());
        assert(Seq::new(segments@.len(), |j: int| segments@[j]@) =~= Seq::<Seq<char>>::empty());
        assert(Seq::<Seq<char>>::empty().map_values(|seg: Seq<char>| spec_trimmed(seg))
            =~= Seq::<Seq<char>>::empty());
    }
    while i < n
        invariant
            start <= i <= n,
            n == s@.len(),
            Seq::new(segments@.len(), |j: int| segments@[j]@) + spec_split(
                s@.skip(i as int),
                s@.subrange(start as int, i as int),
            ).map_values(|seg: Seq<char>| spec_trimmed(seg)) == user_path_spec(s@),
        decreases n - i,
    {
        if i + 1 < n && s.get_char(i) == ':' && s.get_char(i + 1) == ':' {
            let ghost segs_before = Seq::new(segments@.len(), |j: int| segments@[j]@);
            let ghost rest = s@.skip(i as int);
            let ghost cur = s@.subrange(start as int, i as int);
            let seg = trimmed_range(s, start, i);
            segments.push(seg);
            proof {
                assert(rest[0] == s@[i as int]);
                assert(rest[1] == s@[i + 1]);
                assert(rest.skip(2) =~= s@.skip(i + 2));
                assert(spec_split(rest, cur) == seq![cur] + spec_split(
                    s@.skip(i + 2),
                    Seq::empty(),
                ));
                assert(s@.subrange(i + 2, i + 2) =~= Seq::<char>::empty());
                assert(Seq::new(segments@.len(), |j: int| segments@[j]@) =~= segs_before.push(
                    spec_trimmed(cur),
                ));
                assert(Seq::new(segments@.len(), |j: int| segments@[j]@) + spec_split(
                    s@.skip(i + 2),
                    s@.subrange(i + 2, i + 2),
                ).map_values(|seg: Seq<char>| spec_trimmed(seg)) =~= segs_before + spec_split(
                    rest,
                    cur,
                ).map_values(|seg: Seq<char>| spec_trimmed(seg)));
            }
            i = i + 2;
            start = i;
        } else {
            proof {
                let rest = s@.skip(i as int);
                let cur = s@.subrange(start as int, i as int);
                assert(rest[0] == s@[i as int]);
                assert(rest.drop_first() =~= s@.skip(i + 1));
                assert(cur.push(s@[i as int]) =~= s@.subrange(start as int, i + 1));
                assert(spec_split(rest, cur) == spec_split(
                    s@.skip(i + 1),
                    s@.subrange(start as int, i + 1),
                ));
            }
            i = i + 1;
        }
    }
    let ghost segs_before = Seq::new(segments@.len(), |j: int| segments@[j]@);
    let ghost cur = s@.subrange(start as int, i as int);
    let seg = trimmed_range(s, start, n);
    segments.push(seg);
    proof {
        assert(s@.skip(n as int).len() == 0);
        assert(spec_split(s@.skip(n as int), cur) == seq![cur]);
        assert(segs_before + seq![cur].map_values(|seg: Seq<char>| spec_trimmed(seg))
            =~= segs_before.push(spec_trimmed(cur)));
        assert(Seq::new(segments@.len(), |j: int| segments@[j]@) =~= segs_before.push(
            spec_trimmed(cur),
        ));
    }
    let r = QualifiedPath { segments };
    assert(r@ =~= user_path_spec(s@));
    r
}

/// The parsed paths of a sequence of user entries, in order.
pub open spec fn user_paths_spec(entries: Seq<Seq<char>>) -> Seq<Seq<Seq<char>>> {
    entries.map_values(|s: Seq<char>| user_path_spec(s))
}

/// Parses every user-configured entry, in order.  Absent configuration is an
/// empty sequence of entries, never an error.
pub fn parse_user_paths(entries: &Vec<String>) -> (r: Vec<QualifiedPath>)
    ensures
        Seq::new(r@.len(), |j: int| r@[j]@) == user_paths_spec(
            Seq::new(entries@.len(), |j: int| entries@[j]@),
        ),
{
    let n = entries.len();
    let mut r: Vec<QualifiedPath> = Vec::new();
    let mut i: usize = 0;
    while i < n
        invariant
            i <= n,
            n == entries@.len(),
            r@.len() == i,
            forall|j: int| 0 <= j < i ==> r@[j]@ == user_path_spec(entries@[j]@),
        decreases n - i,
    {
        let p = parse_user_path(entries[i].as_str());
        r.push(p);
        i = i + 1;
    }
    proof {
        assert(Seq::new(r@.len(), |j: int| r@[j]@) =~= user_paths_spec(
            Seq::new(entries@.len(), |j: int| entries@[j]@),
        ));
    }
    r
}

} // verus!
