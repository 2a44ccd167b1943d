//! Character- and line-level text primitives: trimming, prefix tests,
//! splitting a text into lines and rendering lines back into a text.
//!
//! A configuration document is an ordered sequence of lines; these are the
//! operations every higher layer is specified against.

use vstd::prelude::*;

verus! {

/// The whitespace characters this library trims: the ASCII blank characters.
pub open spec fn is_space_char(c: char) -> bool {
    c == ' ' || c == '\t' || c == '\r' || c == '\n' || c == '\u{b}' || c == '\u{c}'
}

/// `s` with its leading whitespace removed.
pub open spec fn trim_start_spec(s: Seq<char>) -> Seq<char>
    decreases s.len(),
{
    if s.len() > 0 && is_space_char(s[0]) {
        trim_start_spec(s.drop_first())
    } else {
        s
    }
}

/// `s` with its trailing whitespace removed.
pub open spec fn trim_end_spec(s: Seq<char>) -> Seq<char>
    decreases s.len(),
{
    if s.len() > 0 && is_space_char(s.last()) {
        trim_end_spec(s.drop_last())
    } else {
        s
    }
}

/// `s` with whitespace removed from both ends.
pub open spec fn trim_spec(s: Seq<char>) -> Seq<char> {
    trim_end_spec(trim_start_spec(s))
}

/// `p` is a prefix of `s`.
pub open spec fn starts_with(s: Seq<char>, p: Seq<char>) -> bool {
    p.len() <= s.len() && s.subrange(0, p.len() as int) == p
}

/// Trimming the start removes exactly the leading run of whitespace.
pub proof fn lemma_trim_start_subrange(s: Seq<char>, a: int)
    requires
        0 <= a <= s.len(),
        forall|j: int| 0 <= j < a ==> is_space_char(s[j]),
        a < s.len() ==> !is_space_char(s[a]),
    ensures
        trim_start_spec(s) == s.subrange(a, s.len() as int),
    decreases a,
{
    if a == 0 {
        assert(trim_start_spec(s) == s);
        assert(s.subrange(0, s.len() as int) =~= s);
    } else {
        assert(is_space_char(s[0]));
        let t = s.drop_first();
        lemma_trim_start_subrange(t, a - 1);
        assert(t.subrange(a - 1, t.len() as int) =~= s.subrange(a, s.len() as int));
    }
}

proof fn lemma_trim_end_subrange(s: Seq<char>, b: int)
    requires
        0 <= b <= s.len(),
        forall|j: int| b <= j < s.len() ==> is_space_char(s[j]),
        b > 0 ==> !is_space_char(s[b - 1]),
    ensures
        trim_end_spec(s) == s.subrange(0, b),
    decreases s.len() - b,
{
    if b == s.len() {
        if s.len() > 0 {
            assert(!is_space_char(s.last()));
        }
        assert(trim_end_spec(s) == s);
        assert(s.subrange(0, s.len() as int) =~= s);
    } else {
        assert(is_space_char(s.last()));
        let t = s.drop_last();
        lemma_trim_end_subrange(t, b);
        assert(t.subrange(0, b) =~= s.subrange(0, b));
    }
}

/// Trimming a string whose first and last characters are not whitespace
/// leaves it unchanged.
pub proof fn lemma_trim_noop(s: Seq<char>)
    requires
        s.len() > 0,
        !is_space_char(s[0]),
        !is_space_char(s.last()),
    ensures
        trim_spec(s) == s,
{
    assert(trim_start_spec(s) == s);
    assert(trim_end_spec(s) == s);
}

/// When the first character is not whitespace, trimming keeps it in front
/// and the result is nonempty.
pub proof fn lemma_trim_first_char(s: Seq<char>)
    requires
        s.len() > 0,
        !is_space_char(s[0]),
    ensures
        trim_spec(s).len() > 0,
        trim_spec(s)[0] == s[0],
{
    assert(trim_start_spec(s) == s);
    lemma_trim_end_keeps_head(s);
}

proof fn lemma_trim_end_keeps_head(s: Seq<char>)
    requires
        s.len() > 0,
        !is_space_char(s[0]),
    ensures
        trim_end_spec(s).len() > 0,
        trim_end_spec(s)[0] == s[0],
    decreases s.len(),
{
    if is_space_char(s.last()) {
        assert(s.len() >= 2);
        let t = s.drop_last();
        assert(t[0] == s[0]);
        lemma_trim_end_keeps_head(t);
    }
}

/// Trims the library's whitespace characters from both ends of `s`.
pub fn trim_of(s: &str) -> (r: String)
    ensures
        r@ == trim_spec(s@),
{
    let n = s.unicode_len();
    let mut a: usize = 0;
    while a < n && is_space(s.get_char(a))
        invariant
            0 <= a <= n,
            n == s@.len(),
            forall|j: int| 0 <= j < a ==> is_space_char(s@[j]),
        decreases n - a,
    {
        a = a + 1;
    }
    if a == n {
        proof {
            lemma_trim_start_subrange(s@, a as int);
            assert(trim_start_spec(s@) =~= Seq::<char>::empty());
            assert(trim_end_spec(Seq::<char>::empty()) =~= Seq::<char>::empty());
        }
        return String::new();
    }
    let mut b: usize = n;
    while b > a && is_space(s.get_char(b - 1))
        invariant
            a < n == s@.len(),
            a < b <= n,
            !is_space_char(s@[a as int]),
            forall|j: int| b <= j < n ==> is_space_char(s@[j]),
        decreases b,
    {
        b = b - 1;
    }
    // The scan stops before b reaches a, since s[a] is not a space.
    proof {
        lemma_trim_start_subrange(s@, a as int);
        let t = trim_start_spec(s@);
        assert(t =~= s@.subrange(a as int, n as int));
        lemma_trim_end_subrange(t, b as int - a as int);
        assert(t.subrange(0, b as int - a as int) =~= s@.subrange(a as int, b as int));
    }
    let piece = s.substring_char(a, b);
    piece.to_owned()
}

/// Whether `c` is one of the library's whitespace characters.
pub fn is_space(c: char) -> (r: bool)
    ensures
        r == is_space_char(c),
{
    c == ' ' || c == '\t' || c == '\r' || c == '\n' || c == '\u{b}' || c == '\u{c}'
}

/// Character-for-character equality of two string slices.
pub fn str_eq(a: &str, b: &str) -> (r: bool)
    ensures
        r == (a@ == b@),
{
    let sa = a.to_owned();
    let sb = b.to_owned();
    sa == sb
}

/// Whether `p` is a prefix of `s`.
pub fn str_has_prefix(s: &str, p: &str) -> (r: bool)
    ensures
        r == starts_with(s@, p@),
{
    let n = s.unicode_len();
    let m = p.unicode_len();
    if m > n {
        return false;
    }
    let mut i: usize = 0;
    while i < m
        invariant
            0 <= i <= m <= n,
            n == s@.len(),
            m == p@.len(),
            forall|j: int| 0 <= j < i ==> s@[j] == p@[j],
        decreases m - i,
    {
        if s.get_char(i) != p.get_char(i) {
            proof {
                assert(s@.subrange(0, m as int)[i as int] != p@[i as int]);
            }
            return false;
        }
        i = i + 1;
    }
    proof {
        assert(s@.subrange(0, m as int) =~= p@);
    }
    true
}

/// Concatenation of two string slices.
pub fn concat2(a: &str, b: &str) -> (r: String)
    ensures
        r@ == a@ + b@,
{
    let mut s = a.to_owned();
    s.append(b);
    s
}

/// Concatenation of three string slices.
pub fn concat3(a: &str, b: &str, c: &str) -> (r: String)
    ensures
        r@ == a@ + b@ + c@,
{
    let mut s = a.to_owned();
    s.append(b);
    s.append(c);
    s
}

/// `parts` joined by `sep`, with nothing before the first part or after the
/// last.
pub open spec fn join_with(parts: Seq<Seq<char>>, sep: Seq<char>) -> Seq<char>
    decreases parts.len(),
{
    if parts.len() == 0 {
        Seq::<char>::empty()
    } else if parts.len() == 1 {
        parts[0]
    } else {
        join_with(parts.drop_last(), sep) + sep + parts.last()
    }
}

/// Joins the strings of `parts` with the separator `sep`.
pub fn join_strings(parts: &Vec<String>, sep: &str) -> (r: String)
    ensures
        r@ == join_with(parts.deep_view(), sep@),
{
    let mut s = String::new();
    let mut i: usize = 0;
    while i < parts.len()
        invariant
            0 <= i <= parts@.len(),
            parts.deep_view().len() == parts@.len(),
            s@ == join_with(parts.deep_view().take(i as int), sep@),
        decreases parts@.len() - i,
    {
        if i > 0 {
            s.append(sep);
        }
        s.append(parts[i].as_str());
        proof {
            let dv = parts.deep_view();
            assert(dv.take(i + 1).drop_last() =~= dv.take(i as int));
            assert(dv.take(i + 1).last() == dv[i as int]);
            assert(dv[i as int] == parts@[i as int]@);
        }
        i = i + 1;
    }
    proof {
        assert(parts.deep_view().take(parts@.len() as int) =~= parts.deep_view());
    }
    s
}

/// `l` with one trailing carriage return removed, if it has one.
pub open spec fn strip_cr(l: Seq<char>) -> Seq<char> {
    if l.len() > 0 && l.last() == '\r' {
        l.drop_last()
    } else {
        l
    }
}

/// The lines of the text `s` followed by the pending partial line `cur`:
/// lines end at a line feed (a carriage return directly before one is
/// dropped), the final line needs no terminator, and a final empty piece is
/// not a line.
pub open spec fn split_lines_go(s: Seq<char>, cur: Seq<char>) -> Seq<Seq<char>>
    decreases s.len(),
{
    if s.len() == 0 {
        if cur.len() > 0 {
            seq![cur]
        } else {
            Seq::<Seq<char>>::empty()
        }
    } else if s[0] == '\n' {
        seq![strip_cr(cur)] + split_lines_go(s.drop_first(), Seq::<char>::empty())
    } else {
        split_lines_go(s.drop_first(), cur.push(s[0]))
    }
}

/// The lines of the text `s`.
pub open spec fn split_lines_spec(s: Seq<char>) -> Seq<Seq<char>> {
    split_lines_go(s, Seq::<char>::empty())
}

/// Splits a text into its lines, without their terminators.
pub fn split_lines(s: &str) -> (r: Vec<String>)
    ensures
        r.deep_view() == split_lines_spec(s@),
{
    let n = s.unicode_len();
    let mut out: Vec<String> = Vec::new();
    let mut start: usize = 0;
    let mut i: usize = 0;
    proof {
        assert(s@.skip(0) =~= s@);
        assert(s@.subrange(0, 0) =~= Seq::<char>::empty());
        assert(out.deep_view() + split_lines_go(s@, Seq::<char>::empty()) =~= split_lines_go(
            s@,
            Seq::<char>::empty(),
        ));
    }
    while i < n
        invariant
            0 <= start <= i <= n,
            n == s@.len(),
            split_lines_spec(s@) == out.deep_view() + split_lines_go(
                s@.skip(i as int),
                s@.subrange(start as int, i as int),
            ),
        decreases n - i,
    {
        let ghost prev_dv = out.deep_view();
        let ghost cur = s@.subrange(start as int, i as int);
        let c = s.get_char(i);
        if c == '\n' {
            let end: usize = if i > start && s.get_char(i - 1) == '\r' {
                i - 1
            } else {
                i
            };
            let piece = s.substring_char(start, end);
            out.push(piece.to_owned());
            proof {
                assert(strip_cr(cur) =~= s@.subrange(start as int, end as int));
                assert(out.deep_view() =~= prev_dv.push(s@.subrange(start as int, end as int)));
                assert(s@.skip(i as int)[0] == '\n');
                assert(s@.skip(i as int).drop_first() =~= s@.skip(i + 1));
                assert(split_lines_go(s@.skip(i as int), cur) == seq![strip_cr(cur)]
                    + split_lines_go(s@.skip(i + 1), Seq::<char>::empty()));
                assert(s@.subrange(i + 1, i + 1) =~= Seq::<char>::empty());
                assert(prev_dv + (seq![strip_cr(cur)] + split_lines_go(
                    s@.skip(i + 1),
                    Seq::<char>::empty(),
                )) =~= out.deep_view() + split_lines_go(s@.skip(i + 1), Seq::<char>::empty()));
            }
            start = i + 1;
        } else {
            proof {
                assert(s@.skip(i as int).drop_first() =~= s@.skip(i + 1));
                assert(cur.push(s@[i as int]) =~= s@.subrange(start as int, i + 1));
            }
        }
        i = i + 1;
    }
    if start < n {
        let ghost prev_dv = out.deep_view();
        let piece = s.substring_char(start, n);
        out.push(piece.to_owned());
        proof {
            assert(s@.skip(n as int) =~= Seq::<char>::empty());
            assert(out.deep_view() =~= prev_dv.push(s@.subrange(start as int, n as int)));
        }
    } else {
        proof {
            assert(s@.skip(n as int) =~= Seq::<char>::empty());
            assert(s@.subrange(start as int, n as int).len() == 0);
            assert(out.deep_view() + split_lines_go(
                s@.skip(n as int),
                s@.subrange(start as int, n as int),
            ) =~= out.deep_view());
        }
    }
    out
}

/// The text that a sequence of lines stands for: the lines joined by line
/// feeds, with exactly one trailing line feed ensured; no lines give the
/// empty text.
pub open spec fn render_spec(lines: Seq<Seq<char>>) -> Seq<char> {
    if lines.len() == 0 {
        Seq::<char>::empty()
    } else {
        let s = join_with(lines, seq!['\n']);
        if s.len() > 0 && s.last() == '\n' {
            s
        } else {
            s.push('\n')
        }
    }
}

/// Renders a sequence of lines back into a single text.
pub fn render_lines(lines: &Vec<String>) -> (r: String)
    ensures
        r@ == render_spec(lines.deep_view()),
{
    proof {
        reveal_strlit("\n");
        assert("\n"@ =~= seq!['\n']);
    }
    if lines.len() == 0 {
        return String::new();
    }
    let mut s = join_strings(lines, "\n");
    let m = s.as_str().unicode_len();
    if m == 0 {
        let ghost before = s@;
        s.append("\n");
        proof {
            assert(s@ =~= before.push('\n'));
        }
    } else {
        if s.as_str().get_char(m - 1) != '\n' {
            let ghost before = s@;
            s.append("\n");
            proof {
                assert(s@ =~= before.push('\n'));
            }
        }
    }
    s
}

/// Appending one empty line does not change the rendered text, as long as the
/// last line is nonempty and does not itself end in a line feed.
pub proof fn lemma_render_push_empty(lines: Seq<Seq<char>>)
    requires
        lines.len() > 0,
        lines.last().len() > 0,
        lines.last().last() != '\n',
    ensures
        render_spec(lines.push(Seq::<char>::empty())) == render_spec(lines),
{
    let s = join_with(lines, seq!['\n']);
    lemma_join_last_char(lines);
    let l2 = lines.push(Seq::<char>::empty());
    assert(l2.drop_last() =~= lines);
    assert(l2.len() > 1);
    let s2 = join_with(l2, seq!['\n']);
    assert(s2 =~= s + seq!['\n'] + Seq::<char>::empty());
    assert(s2 =~= s.push('\n'));
    assert(s2.last() == '\n');
    assert(render_spec(l2) == s2);
    assert(s.last() != '\n');
    assert(render_spec(lines) == s.push('\n'));
}

/// When the last line is nonempty, the joined text ends with its last
/// character.
proof fn lemma_join_last_char(lines: Seq<Seq<char>>)
    requires
        lines.len() > 0,
        lines.last().len() > 0,
    ensures
        join_with(lines, seq!['\n']).len() > 0,
        join_with(lines, seq!['\n']).last() == lines.last().last(),
    decreases lines.len(),
{
    if lines.len() == 1 {
        assert(join_with(lines, seq!['\n']) == lines[0]);
    } else {
        let s = join_with(lines, seq!['\n']);
        assert(s == join_with(lines.drop_last(), seq!['\n']) + seq!['\n'] + lines.last());
    }
}

} // verus!
