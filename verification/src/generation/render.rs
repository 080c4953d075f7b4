//! Line-oriented edits of existing text files.
//!
//! The crate never touches the file system: the binary around it reads a
//! file into a string, hands it to [`split_lines`], applies an edit such as
//! [`append_line_below`] or [`add_line_to_file`], and writes back what
//! [`join_lines`] returns.

use vstd::prelude::*;
use vstd::string::*;

verus! {

/// The pattern occurs in `text` starting at position `i`.
pub open spec fn spec_match_at(text: Seq<char>, pat: Seq<char>, i: int) -> bool {
    0 <= i && i + pat.len() <= text.len() && text.subrange(i, i + pat.len()) == pat
}

/// The pattern occurs somewhere in `text`.
pub open spec fn spec_contains(text: Seq<char>, pat: Seq<char>) -> bool {
    exists|i: int| spec_match_at(text, pat, i)
}

/// Whether `pat` occurs as a contiguous substring of `text`.
pub fn contains_pattern(text: &str, pat: &str) -> (r: bool)
    ensures
        r == spec_contains(text@, pat@),
{
    let n: usize = text.unicode_len();
    let m: usize = pat.unicode_len();
    if m > n {
        proof {
            assert(forall|i: int| !spec_match_at(text@, pat@, i));
        }
        return false;
    }
    if m == 0 {
        proof {
            assert(text@.subrange(0, 0) =~= pat@);
            assert(spec_match_at(text@, pat@, 0));
        }
        return true;
    }
    let mut i: usize = 0;
    while i <= n - m
        invariant
            0 <= i <= n - m + 1,
            1 <= m <= n,
            n == text@.len(),
            m == pat@.len(),
            forall|k: int| 0 <= k < i ==> !spec_match_at(text@, pat@, k),
        decreases n - m - i + 1,
    {
        let mut j: usize = 0;
        let mut same = true;
        while j < m
            invariant
                0 <= j <= m,
                0 <= i <= n - m,
                m <= n,
                n == text@.len(),
                m == pat@.len(),
                same ==> (forall|k: int| 0 <= k < j ==> text@[i + k] == pat@[k]),
                !same ==> !spec_match_at(text@, pat@, i as int),
            decreases m - j,
        {
            if same {
                let tc = text.get_char(i + j);
                let pc = pat.get_char(j);
                if tc != pc {
                    proof {
                        assert(text@.subrange(i as int, i + m) != pat@) by {
                            assert(text@.subrange(i as int, i + m)[j as int] == text@[i + j]);
                        }
                    }
                    same = false;
                }
            }
            j = j + 1;
        }
        if same {
            proof {
                assert(text@.subrange(i as int, i + m) =~= pat@);
                assert(spec_match_at(text@, pat@, i as int));
            }
            return true;
        }
        i = i + 1;
    }
    proof {
        assert(forall|k: int| i <= k ==> !spec_match_at(text@, pat@, k));
    }
    false
}

/// A line as read: with a trailing carriage return removed, as happens when
/// a line ending was the two-character form.
pub open spec fn strip_cr(l: Seq<char>) -> Seq<char> {
    if l.len() > 0 && l.last() == '\r' {
        l.drop_last()
    } else {
        l
    }
}

/// The lines of `s` when `cur` holds the characters of the current line read
/// so far.  A newline ends the current line; a final line needs no newline;
/// a carriage return is dropped only directly before a newline.
pub open spec fn spec_lines_rec(s: Seq<char>, cur: Seq<char>) -> Seq<Seq<char>>
    decreases s.len(),
{
    if s.len() == 0 {
        if cur.len() == 0 {
            Seq::empty()
        } else {
            seq![cur]
        }
    } else if s[0] == '\n' {
        seq![strip_cr(cur)] + spec_lines_rec(s.drop_first(), Seq::empty())
    } else {
        spec_lines_rec(s.drop_first(), cur.push(s[0]))
    }
}

/// The lines of a file's contents.
pub open spec fn spec_lines(s: Seq<char>) -> Seq<Seq<char>> {
    spec_lines_rec(s, Seq::empty())
}

/// The lines joined by single newlines, without a trailing newline.
pub open spec fn spec_join_lines(ls: Seq<Seq<char>>) -> Seq<char>
    decreases ls.len(),
{
    if ls.len() == 0 {
        Seq::empty()
    } else if ls.len() == 1 {
        ls[0]
    } else {
        ls[0] + seq!['\n'] + spec_join_lines(ls.drop_first())
    }
}

/// The contents written back for a line sequence: the lines joined by
/// newlines, with one trailing newline.
pub open spec fn spec_file_of(ls: Seq<Seq<char>>) -> Seq<char> {
    spec_join_lines(ls).push('\n')
}

/// Splits a file's contents into its lines.
pub fn split_lines(content: &str) -> (lines: Vec<String>)
    ensures
        lines@.map_values(|l: String| l@) == spec_lines(content@),
{
    let n: usize = content.unicode_len();
    let mut lines: Vec<String> = Vec::new();
    let mut cur: String = String::new();
    let mut i: usize = 0;
    proof {
        assert(content@.skip(0) =~= content@);
        assert(lines@.map_values(|l: String| l@) =~= Seq::<Seq<char>>::empty());
    }
    while i < n
        invariant
            i <= n,
            n == content@.len(),
            spec_lines(content@) == lines@.map_values(|l: String| l@) + spec_lines_rec(
                content@.skip(i as int),
                cur@,
            ),
        decreases n - i,
    {
        let c = content.get_char(i);
        proof {
            assert(content@.skip(i as int).len() > 0);
            assert(content@.skip(i as int)[0] == content@[i as int]);
            assert(content@.skip(i as int).drop_first() =~= content@.skip(i as int + 1));
        }
        if c == '\n' {
            let stripped = strip_trailing_cr(cur);
            proof {
                assert((lines@.push(stripped)).map_values(|l: String| l@) =~= lines@.map_values(
                    |l: String| l@,
                ).push(stripped@));
            }
            lines.push(stripped);
            cur = String::new();
        } else {
            cur.push(c);
        }
        i = i + 1;
    }
    proof {
        assert(content@.skip(n as int) =~= Seq::<char>::empty());
    }
    if !cur.as_str().is_empty() {
        proof {
            assert((lines@.push(cur)).map_values(|l: String| l@) =~= lines@.map_values(
                |l: String| l@,
            ).push(cur@));
        }
        lines.push(cur);
    }
    lines
}

/// Removes one trailing carriage return, if the line ends in one.
fn strip_trailing_cr(l: String) -> (r: String)
    ensures
        r@ == strip_cr(l@),
{
    let s = l.as_str();
    let n: usize = s.unicode_len();
    if n > 0 && s.get_char(n - 1) == '\r' {
        let r = s.substring_char(0, n - 1);
        proof {
            assert(r@ =~= strip_cr(l@));
        }
        r.to_owned()
    } else {
        l
    }
}

/// Joins lines with newlines and ends the contents with one trailing
/// newline, the shape in which an amended file is written back.
pub fn join_lines(lines: &Vec<String>) -> (r: String)
    ensures
        r@ == spec_file_of(lines@.map_values(|l: String| l@)),
{
    let ghost ls = lines@.map_values(|l: String| l@);
    let mut r = String::new();
    let mut i: usize = 0;
    proof {
        assert(r@ =~= spec_join_lines(ls.take(0)));
    }
    while i < lines.len()
        invariant
            i <= lines.len(),
            ls == lines@.map_values(|l: String| l@),
            r@ == spec_join_lines(ls.take(i as int)),
        decreases lines.len() - i,
    {
        if i != 0 {
            proof {
                lemma_join_lines_push(ls.take(i as int), ls[i as int]);
            }
            r.push('\n');
        } else {
            proof {
                assert(ls.take(1) =~= seq![ls[0]]);
            }
        }
        proof {
            assert(ls.take(i as int + 1) =~= ls.take(i as int).push(ls[i as int]));
        }
        r.append(lines[i].as_str());
        i = i + 1;
    }
    proof {
        assert(ls.take(lines@.len() as int) =~= ls);
    }
    r.push('\n');
    r
}

/// Appending a line to a nonempty line sequence appends a newline and its
/// characters to the join.
proof fn lemma_join_lines_push(ls: Seq<Seq<char>>, l: Seq<char>)
    requires
        ls.len() > 0,
    ensures
        spec_join_lines(ls.push(l)) == spec_join_lines(ls) + seq!['\n'] + l,
    decreases ls.len(),
{
    if ls.len() == 1 {
        assert(ls.push(l)[0] == ls[0]);
        assert(ls.push(l).drop_first() =~= seq![l]);
        assert(spec_join_lines(seq![l]) == l);
        assert(spec_join_lines(ls.push(l)) == ls[0] + seq!['\n'] + l);
        assert(spec_join_lines(ls) == ls[0]);
    } else {
        assert(ls.push(l)[0] == ls[0]);
        assert(ls.push(l).drop_first() =~= ls.drop_first().push(l));
        lemma_join_lines_push(ls.drop_first(), l);
        assert(spec_join_lines(ls.push(l)) == ls[0] + seq!['\n'] + (spec_join_lines(
            ls.drop_first(),
        ) + seq!['\n'] + l));
        assert(spec_join_lines(ls) == ls[0] + seq!['\n'] + spec_join_lines(ls.drop_first()));
        assert(ls[0] + seq!['\n'] + (spec_join_lines(ls.drop_first()) + seq!['\n'] + l) =~= (
        ls[0] + seq!['\n'] + spec_join_lines(ls.drop_first())) + seq!['\n'] + l);
    }
}

/// The line sequence after inserting `new_line` directly below the first
/// line in which `pat` occurs; the sequence is unchanged when no line
/// matches.
pub open spec fn spec_insert_below(
    lines: Seq<Seq<char>>,
    pat: Seq<char>,
    new_line: Seq<char>,
) -> Seq<Seq<char>>
    decreases lines.len(),
{
    if lines.len() == 0 {
        lines
    } else if spec_contains(lines[0], pat) {
        seq![lines[0], new_line] + lines.drop_first()
    } else {
        seq![lines[0]] + spec_insert_below(lines.drop_first(), pat, new_line)
    }
}

/// Some line of the sequence contains the pattern.
pub open spec fn spec_has_match(lines: Seq<Seq<char>>, pat: Seq<char>) -> bool {
    exists|k: int| 0 <= k < lines.len() && spec_contains(#[trigger] lines[k], pat)
}

/// How the insertion grows by one scanned line.
proof fn lemma_insert_below_push(
    lines: Seq<Seq<char>>,
    l: Seq<char>,
    pat: Seq<char>,
    new_line: Seq<char>,
)
    ensures
        spec_has_match(lines, pat) ==> spec_insert_below(lines.push(l), pat, new_line)
            == spec_insert_below(lines, pat, new_line).push(l),
        !spec_has_match(lines, pat) && spec_contains(l, pat) ==> spec_insert_below(
            lines.push(l),
            pat,
            new_line,
        ) == lines.push(l).push(new_line),
        !spec_has_match(lines, pat) && !spec_contains(l, pat) ==> spec_insert_below(
            lines.push(l),
            pat,
            new_line,
        ) == lines.push(l),
    decreases lines.len(),
{
    if lines.len() == 0 {
        assert(lines.push(l)[0] == l);
        assert(lines.push(l).drop_first() =~= Seq::<Seq<char>>::empty());
        if spec_contains(l, pat) {
            assert(spec_insert_below(lines.push(l), pat, new_line) =~= lines.push(l).push(
                new_line,
            ));
        } else {
            assert(spec_insert_below(Seq::<Seq<char>>::empty(), pat, new_line)
                == Seq::<Seq<char>>::empty());
            assert(spec_insert_below(lines.push(l), pat, new_line) == seq![l] + Seq::<
                Seq<char>,
            >::empty());
            assert(seq![l] + Seq::<Seq<char>>::empty() =~= lines.push(l));
        }
    } else {
        assert(lines.push(l)[0] == lines[0]);
        assert(lines.push(l).drop_first() =~= lines.drop_first().push(l));
        lemma_insert_below_push(lines.drop_first(), l, pat, new_line);
        assert(spec_has_match(lines, pat) <==> spec_contains(lines[0], pat) || spec_has_match(
            lines.drop_first(),
            pat,
        )) by {
            if spec_has_match(lines, pat) {
                let k = choose|k: int|
                    0 <= k < lines.len() && spec_contains(#[trigger] lines[k], pat);
                if k > 0 {
                    assert(lines.drop_first()[k - 1] == lines[k]);
                }
            }
            if spec_has_match(lines.drop_first(), pat) {
                let k = choose|k: int|
                    0 <= k < lines.drop_first().len() && spec_contains(
                        #[trigger] lines.drop_first()[k],
                        pat,
                    );
                assert(lines[k + 1] == lines.drop_first()[k]);
            }
        }
        if spec_contains(lines[0], pat) {
            assert(spec_insert_below(lines.push(l), pat, new_line) =~= spec_insert_below(
                lines,
                pat,
                new_line,
            ).push(l));
        } else if spec_has_match(lines.drop_first(), pat) {
            assert(spec_insert_below(lines.push(l), pat, new_line) =~= spec_insert_below(
                lines,
                pat,
                new_line,
            ).push(l));
        } else if spec_contains(l, pat) {
            assert(spec_insert_below(lines.push(l), pat, new_line) =~= lines.push(l).push(
                new_line,
            ));
        } else {
            assert(spec_insert_below(lines.drop_first().push(l), pat, new_line)
                == lines.drop_first().push(l));
            assert(spec_insert_below(lines.push(l), pat, new_line) == seq![lines[0]]
                + spec_insert_below(lines.drop_first().push(l), pat, new_line));
            assert(seq![lines[0]] + lines.drop_first().push(l) =~= lines.push(l));
        }
    }
}

/// Inserts `line` directly below the first line of `lines` in which
/// `pattern` occurs; returns the lines unchanged when none matches.
pub fn append_line_below(lines: &Vec<String>, pattern: &str, line: &str) -> (r: Vec<String>)
    ensures
        r@.map_values(|l: String| l@) == spec_insert_below(
            lines@.map_values(|l: String| l@),
            pattern@,
            line@,
        ),
{
    let ghost ls = lines@.map_values(|l: String| l@);
    let mut out: Vec<String> = Vec::new();
    let mut inserted = false;
    let mut i: usize = 0;
    proof {
        assert(ls.take(0) =~= Seq::<Seq<char>>::empty());
        assert(out@.map_values(|l: String| l@) =~= spec_insert_below(ls.take(0), pattern@, line@));
    }
    while i < lines.len()
        invariant
            i <= lines.len(),
            ls == lines@.map_values(|l: String| l@),
            out@.map_values(|l: String| l@) == spec_insert_below(
                ls.take(i as int),
                pattern@,
                line@,
            ),
            inserted == spec_has_match(ls.take(i as int), pattern@),
        decreases lines.len() - i,
    {
        let l = &lines[i];
        proof {
            assert(ls.take(i as int + 1) =~= ls.take(i as int).push(ls[i as int]));
            lemma_insert_below_push(ls.take(i as int), ls[i as int], pattern@, line@);
            if !spec_has_match(ls.take(i as int), pattern@) {
                lemma_insert_below_no_match(ls.take(i as int), pattern@, line@);
            }
        }
        out.push(l.clone());
        if !inserted && contains_pattern(l.as_str(), pattern) {
            out.push(line.to_owned());
            inserted = true;
            proof {
                assert(ls.take(i as int + 1)[i as int] == ls[i as int]);
            }
        }
        proof {
            assert(out@.map_values(|l: String| l@) =~= spec_insert_below(
                ls.take(i as int + 1),
                pattern@,
                line@,
            ));
            if spec_has_match(ls.take(i as int + 1), pattern@) {
                let k = choose|k: int|
                    0 <= k < ls.take(i as int + 1).len() && spec_contains(
                        #[trigger] ls.take(i as int + 1)[k],
                        pattern@,
                    );
                if k < i {
                    assert(ls.take(i as int)[k] == ls.take(i as int + 1)[k]);
                }
            }
            if spec_has_match(ls.take(i as int), pattern@) {
                let k = choose|k: int|
                    0 <= k < ls.take(i as int).len() && spec_contains(
                        #[trigger] ls.take(i as int)[k],
                        pattern@,
                    );
                assert(ls.take(i as int + 1)[k] == ls.take(i as int)[k]);
            }
        }
        i = i + 1;
    }
    proof {
        assert(ls.take(lines@.len() as int) =~= ls);
    }
    out
}

/// Appends `line` at the end of the lines, unconditionally.
pub fn add_line_to_file(lines: &Vec<String>, line: &str) -> (r: Vec<String>)
    ensures
        r@.map_values(|l: String| l@) == lines@.map_values(|l: String| l@).push(line@),
{
    let mut out: Vec<String> = Vec::new();
    let mut i: usize = 0;
    proof {
        assert(out@.map_values(|l: String| l@) =~= lines@.map_values(|l: String| l@).take(0));
    }
    while i < lines.len()
        invariant
            i <= lines.len(),
            out@.map_values(|l: String| l@) == lines@.map_values(|l: String| l@).take(i as int),
        decreases lines.len() - i,
    {
        proof {
            assert((out@.push(lines@[i as int])).map_values(|l: String| l@) =~= out@.map_values(
                |l: String| l@,
            ).push(lines@[i as int]@));
            assert(lines@.map_values(|l: String| l@).take(i as int + 1) =~= lines@.map_values(
                |l: String| l@,
            ).take(i as int).push(lines@[i as int]@));
        }
        out.push(lines[i].clone());
        i = i + 1;
    }
    proof {
        assert(lines@.map_values(|l: String| l@).take(lines@.len() as int) =~= lines@.map_values(
            |l: String| l@,
        ));
    }
    out.push(line.to_owned());
    proof {
        assert(out@.map_values(|l: String| l@) =~= lines@.map_values(|l: String| l@).push(line@));
    }
    out
}

/// The first matching line really gets the new line directly below it: where
/// line `i` is the first to contain the pattern, the result is the original
/// lines with `new_line` standing at position `i + 1`.
pub proof fn lemma_insert_below_places_line(
    lines: Seq<Seq<char>>,
    pat: Seq<char>,
    new_line: Seq<char>,
    i: int,
)
    requires
        0 <= i < lines.len(),
        spec_contains(lines[i], pat),
        forall|k: int| 0 <= k < i ==> !spec_contains(#[trigger] lines[k], pat),
    ensures
        spec_insert_below(lines, pat, new_line) == lines.take(i + 1) + seq![new_line]
            + lines.skip(i + 1),
        spec_insert_below(lines, pat, new_line)[i + 1] == new_line,
        spec_insert_below(lines, pat, new_line).len() == lines.len() + 1,
    decreases i,
{
    if i == 0 {
        assert(spec_insert_below(lines, pat, new_line) == seq![lines[0], new_line]
            + lines.drop_first());
        assert(seq![lines[0], new_line] + lines.drop_first() =~= lines.take(1) + seq![new_line]
            + lines.skip(1));
    } else {
        assert(!spec_contains(lines[0], pat));
        assert(lines.drop_first()[i - 1] == lines[i]);
        assert(forall|k: int|
            0 <= k < i - 1 ==> #[trigger] lines.drop_first()[k] == lines[k + 1]);
        lemma_insert_below_places_line(lines.drop_first(), pat, new_line, i - 1);
        assert(spec_insert_below(lines, pat, new_line) == seq![lines[0]] + (lines.drop_first().take(
            i,
        ) + seq![new_line] + lines.drop_first().skip(i)));
        assert(seq![lines[0]] + (lines.drop_first().take(i) + seq![new_line]
            + lines.drop_first().skip(i)) =~= lines.take(i + 1) + seq![new_line] + lines.skip(
            i + 1,
        ));
    }
    assert(spec_insert_below(lines, pat, new_line)[i + 1] == new_line) by {
        assert((lines.take(i + 1) + seq![new_line] + lines.skip(i + 1))[i + 1] == new_line);
    }
}

/// Where no line contains the pattern, the insertion leaves the lines as
/// they are.
pub proof fn lemma_insert_below_no_match(lines: Seq<Seq<char>>, pat: Seq<char>, new_line: Seq<
    char,
>)
    requires
        !spec_has_match(lines, pat),
    ensures
        spec_insert_below(lines, pat, new_line) == lines,
    decreases lines.len(),
{
    if lines.len() == 0 {
    } else {
        assert(!spec_contains(lines[0], pat));
        assert(!spec_has_match(lines.drop_first(), pat)) by {
            if spec_has_match(lines.drop_first(), pat) {
                let k = choose|k: int|
                    0 <= k < lines.drop_first().len() && spec_contains(
                        #[trigger] lines.drop_first()[k],
                        pat,
                    );
                assert(lines[k + 1] == lines.drop_first()[k]);
            }
        }
        lemma_insert_below_no_match(lines.drop_first(), pat, new_line);
        assert(seq![lines[0]] + lines.drop_first() =~= lines);
    }
}

/// A line that survives a write-then-read round trip as it is: it holds no
/// newline, and does not end in a carriage return.
pub open spec fn line_wf(l: Seq<char>) -> bool {
    (forall|j: int| 0 <= j < l.len() ==> l[j] != '\n') && (l.len() > 0 ==> l.last() != '\r')
}

/// Reading a newline-free run of characters only extends the current line.
proof fn lemma_lines_through_line(w: Seq<char>, t: Seq<char>, cur: Seq<char>)
    requires
        forall|j: int| 0 <= j < w.len() ==> w[j] != '\n',
    ensures
        spec_lines_rec(w + t, cur) == spec_lines_rec(t, cur + w),
    decreases w.len(),
{
    if w.len() == 0 {
        assert(w + t =~= t);
        assert(cur + w =~= cur);
    } else {
        let c = w[0];
        assert((w + t)[0] == c);
        assert(c != '\n');
        assert((w + t).len() > 0);
        assert((w + t).drop_first() =~= w.drop_first() + t);
        assert(forall|j: int| 0 <= j < w.drop_first().len() ==> #[trigger] w.drop_first()[j]
            == w[j + 1]);
        lemma_lines_through_line(w.drop_first(), t, cur.push(c));
        assert(cur.push(c) + w.drop_first() =~= cur + w);
    }
}

/// Writing lines to a file and reading the file back gives the same lines:
/// the round trip through [`join_lines`] and [`split_lines`] is the
/// identity on nonempty sequences of well-formed lines.
pub proof fn lemma_lines_round_trip(ls: Seq<Seq<char>>)
    requires
        ls.len() > 0,
        forall|i: int| 0 <= i < ls.len() ==> line_wf(#[trigger] ls[i]),
    ensures
        spec_lines(spec_file_of(ls)) == ls,
    decreases ls.len(),
{
    let content = spec_file_of(ls);
    if ls.len() == 1 {
        let w = ls[0];
        assert(content =~= w + seq!['\n']);
        lemma_lines_through_line(w, seq!['\n'], Seq::empty());
        assert(Seq::<char>::empty() + w =~= w);
        assert(spec_lines(content) == spec_lines_rec(seq!['\n'], w));
        assert(seq!['\n'][0] == '\n');
        assert(seq!['\n'].drop_first() =~= Seq::<char>::empty());
        assert(strip_cr(w) == w);
        assert(spec_lines_rec(seq!['\n'], w) == seq![w] + spec_lines_rec(
            Seq::<char>::empty(),
            Seq::<char>::empty(),
        ));
        assert(seq![w] + Seq::<Seq<char>>::empty() =~= ls);
    } else {
        let w = ls[0];
        let rest = seq!['\n'] + spec_file_of(ls.drop_first());
        assert(spec_join_lines(ls) == w + seq!['\n'] + spec_join_lines(ls.drop_first()));
        assert(content =~= w + rest);
        lemma_lines_through_line(w, rest, Seq::empty());
        assert(Seq::<char>::empty() + w =~= w);
        assert(spec_lines(content) == spec_lines_rec(rest, w));
        assert(rest[0] == '\n');
        assert(rest.drop_first() =~= spec_file_of(ls.drop_first()));
        assert(strip_cr(w) == w);
        assert(spec_lines_rec(rest, w) == seq![w] + spec_lines_rec(
            spec_file_of(ls.drop_first()),
            Seq::<char>::empty(),
        ));
        assert(forall|i: int| 0 <= i < ls.drop_first().len() ==> #[trigger] ls.drop_first()[i]
            == ls[i + 1]);
        lemma_lines_round_trip(ls.drop_first());
        assert(seq![w] + ls.drop_first() =~= ls);
    }
}

} // verus!
