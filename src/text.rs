use vstd::prelude::*;

verus! {

/// The characters of `s`, in order.
pub fn chars_of(s: &str) -> (r: Vec<char>)
    ensures
        r@ == s@,
{
    let mut out: Vec<char> = Vec::new();
    for c in it: s.chars()
        invariant
            out@ == it.seq().subrange(0, it.index() as int),
    {
        out.push(c);
    }
    out
}

/// `t` without one trailing carriage return.
pub open spec fn strip_cr(t: Seq<char>) -> Seq<char> {
    if t.len() > 0 && t.last() == '\r' {
        t.drop_last()
    } else {
        t
    }
}

/// The lines of `s` from the line that starts at `start`, scanning from `i`:
/// lines end at `\n` or `\r\n`, which they do not keep, and a final line ending
/// adds no empty line.
pub open spec fn lines_acc(s: Seq<char>, start: int, i: int) -> Seq<Seq<char>>
    decreases s.len() - i,
{
    if i >= s.len() {
        if start < s.len() {
            seq![s.subrange(start, s.len() as int)]
        } else {
            seq![]
        }
    } else if s[i] == '\n' {
        seq![strip_cr(s.subrange(start, i))] + lines_acc(s, i + 1, i + 1)
    } else {
        lines_acc(s, start, i + 1)
    }
}

/// The lines of `s`.
pub open spec fn spec_lines(s: Seq<char>) -> Seq<Seq<char>> {
    lines_acc(s, 0, 0)
}

/// The views of a sequence of string slices.
pub open spec fn views(ls: Seq<&str>) -> Seq<Seq<char>> {
    ls.map_values(|x: &str| x@)
}

/// The lines of `s`, as slices of it.
pub fn lines<'a>(s: &'a str) -> (r: Vec<&'a str>)
    ensures
        views(r@) == spec_lines(s@),
{
    let cs = chars_of(s);
    let mut out: Vec<&'a str> = Vec::new();
    let mut start: usize = 0;
    let mut i: usize = 0;
    while i < cs.len()
        invariant
            0 <= start <= i <= cs.len(),
            cs@ == s@,
            views(out@) + lines_acc(s@, start as int, i as int) == spec_lines(s@),
        decreases cs.len() - i,
    {
        if cs[i] == '\n' {
            let end: usize = if i > start && cs[i - 1] == '\r' {
                i - 1
            } else {
                i
            };
            let line = s.substring_char(start, end);
            proof {
                assert(line@ =~= strip_cr(s@.subrange(start as int, i as int)));
                assert(views(out@.push(line)) =~= views(out@).push(line@));
                assert(views(out@).push(line@) + lines_acc(s@, i + 1, i + 1) =~= views(out@) + (
                seq![line@] + lines_acc(s@, i + 1, i + 1)));
            }
            out.push(line);
            start = i + 1;
        }
        i = i + 1;
    }
    if start < cs.len() {
        let line = s.substring_char(start, cs.len());
        proof {
            assert(views(out@.push(line)) =~= views(out@) + seq![line@]);
        }
        out.push(line);
    } else {
        proof {
            assert(views(out@) =~= views(out@) + lines_acc(s@, start as int, i as int));
        }
    }
    out
}

/// Unicode white space, as `char::is_whitespace` classifies it.
pub open spec fn is_white_space(c: char) -> bool {
    ||| c == ' '
    ||| ('\t' <= c && c <= '\r')
    ||| c == '\u{85}'
    ||| c == '\u{A0}'
    ||| c == '\u{1680}'
    ||| ('\u{2000}' <= c && c <= '\u{200A}')
    ||| c == '\u{2028}'
    ||| c == '\u{2029}'
    ||| c == '\u{202F}'
    ||| c == '\u{205F}'
    ||| c == '\u{3000}'
}

pub fn white_space(c: char) -> (r: bool)
    ensures
        r == is_white_space(c),
{
    c == ' ' || ('\t' <= c && c <= '\r') || c == '\u{85}' || c == '\u{A0}' || c == '\u{1680}' || ('\u{2000}' <= c
        && c <= '\u{200A}') || c == '\u{2028}' || c == '\u{2029}' || c == '\u{202F}' || c == '\u{205F}' || c
        == '\u{3000}'
}

/// `t` without its trailing white space.
pub open spec fn trimmed_end(t: Seq<char>) -> Seq<char>
    decreases t.len(),
{
    if t.len() > 0 && is_white_space(t.last()) {
        trimmed_end(t.drop_last())
    } else {
        t
    }
}

/// `t` without its leading white space.
pub open spec fn trimmed_start(t: Seq<char>) -> Seq<char>
    decreases t.len(),
{
    if t.len() > 0 && is_white_space(t[0]) {
        trimmed_start(t.subrange(1, t.len() as int))
    } else {
        t
    }
}

/// `s` without its trailing white space.
pub fn trim_end<'a>(s: &'a str) -> (r: &'a str)
    ensures
        r@ == trimmed_end(s@),
{
    let cs = chars_of(s);
    let mut end: usize = cs.len();
    proof {
        assert(s@.subrange(0, end as int) =~= s@);
    }
    while end > 0 && white_space(cs[end - 1])
        invariant
            0 <= end <= cs.len(),
            cs@ == s@,
            trimmed_end(s@) == trimmed_end(s@.subrange(0, end as int)),
        decreases end,
    {
        proof {
            assert(s@.subrange(0, end as int).drop_last() =~= s@.subrange(0, end - 1));
        }
        end = end - 1;
    }
    proof {
        assert(s@.subrange(0, end as int).len() == end);
    }
    s.substring_char(0, end)
}

/// `s` without its leading and trailing white space.
pub fn trim<'a>(s: &'a str) -> (r: &'a str)
    ensures
        r@ == trimmed_start(trimmed_end(s@)),
{
    let t = trim_end(s);
    let cs = chars_of(t);
    let mut begin: usize = 0;
    proof {
        assert(t@.subrange(0, t@.len() as int) =~= t@);
    }
    while begin < cs.len() && white_space(cs[begin])
        invariant
            0 <= begin <= cs.len(),
            cs@ == t@,
            trimmed_start(t@) == trimmed_start(t@.subrange(begin as int, t@.len() as int)),
        decreases cs.len() - begin,
    {
        proof {
            let u = t@.subrange(begin as int, t@.len() as int);
            assert(u.subrange(1, u.len() as int) =~= t@.subrange(begin + 1, t@.len() as int));
        }
        begin = begin + 1;
    }
    t.substring_char(begin, cs.len())
}

/// The lines joined with `\n` between them.
pub open spec fn joined(ls: Seq<Seq<char>>) -> Seq<char>
    decreases ls.len(),
{
    if ls.len() == 0 {
        seq![]
    } else if ls.len() == 1 {
        ls[0]
    } else {
        joined(ls.drop_last()) + seq!['\n'] + ls.last()
    }
}

/// Joins the lines with `\n` between them.
pub fn join_lines(ls: &Vec<&str>) -> (r: String)
    ensures
        r@ == joined(views(ls@)),
{
    let mut out = String::new();
    let mut k: usize = 0;
    while k < ls.len()
        invariant
            0 <= k <= ls.len(),
            out@ == joined(views(ls@.subrange(0, k as int))),
        decreases ls.len() - k,
    {
        proof {
            reveal_strlit("\n");
            assert(views(ls@.subrange(0, k + 1)).drop_last() =~= views(ls@.subrange(0, k as int)));
        }
        if k > 0 {
            out.append("\n");
        }
        out.append(ls[k]);
        k = k + 1;
        proof {
            if k == 1 {
                assert(out@ =~= joined(views(ls@.subrange(0, k as int))));
            } else {
                assert(out@ =~= joined(views(ls@.subrange(0, k as int))));
            }
        }
    }
    proof {
        assert(ls@.subrange(0, k as int) =~= ls@);
    }
    out
}

} // verus!
