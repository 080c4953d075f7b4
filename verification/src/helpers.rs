//! Case transforms for human-entered names.
//!
//! A name such as `home-details`, `HomeDetails` or `home_details` is split
//! into words at separators (space, hyphen, underscore) and at a
//! lowercase-to-uppercase boundary, and the words are re-joined in one of
//! four shapes: flat (`homedetails`), Pascal (`HomeDetails`), camel
//! (`homeDetails`) or kebab (`home-details`).

use vstd::prelude::*;

verus! {

/// True of ASCII characters that separate words in a human-entered name.
pub open spec fn spec_is_separator(c: char) -> bool {
    c == ' ' || c == '-' || c == '_'
}

/// Whether `c` separates words in a human-entered name.
pub fn is_separator(c: char) -> (r: bool)
    ensures
        r == spec_is_separator(c),
{
    c == ' ' || c == '-' || c == '_'
}

/// True of the ASCII uppercase letters.
pub open spec fn spec_is_upper(c: char) -> bool {
    'A' <= c && c <= 'Z'
}

/// True of the ASCII lowercase letters.
pub open spec fn spec_is_lower(c: char) -> bool {
    'a' <= c && c <= 'z'
}

/// The ASCII lowercase counterpart of `c`; other characters are unchanged.
pub open spec fn lower_char(c: char) -> char {
    if spec_is_upper(c) {
        (c as int + 32) as char
    } else {
        c
    }
}

/// The ASCII uppercase counterpart of `c`; other characters are unchanged.
pub open spec fn upper_char(c: char) -> char {
    if spec_is_lower(c) {
        (c as int - 32) as char
    } else {
        c
    }
}

/// Whether `c` is an ASCII uppercase letter.
pub fn is_upper(c: char) -> (r: bool)
    ensures
        r == spec_is_upper(c),
{
    'A' <= c && c <= 'Z'
}

/// Whether `c` is an ASCII lowercase letter.
pub fn is_lower(c: char) -> (r: bool)
    ensures
        r == spec_is_lower(c),
{
    'a' <= c && c <= 'z'
}

/// Maps an ASCII uppercase letter to lowercase; other characters pass through.
pub fn to_lower_char(c: char) -> (r: char)
    ensures
        r == lower_char(c),
{
    match c {
        'A' => 'a',
        'B' => 'b',
        'C' => 'c',
        'D' => 'd',
        'E' => 'e',
        'F' => 'f',
        'G' => 'g',
        'H' => 'h',
        'I' => 'i',
        'J' => 'j',
        'K' => 'k',
        'L' => 'l',
        'M' => 'm',
        'N' => 'n',
        'O' => 'o',
        'P' => 'p',
        'Q' => 'q',
        'R' => 'r',
        'S' => 's',
        'T' => 't',
        'U' => 'u',
        'V' => 'v',
        'W' => 'w',
        'X' => 'x',
        'Y' => 'y',
        'Z' => 'z',
        _ => c,
    }
}

/// Maps an ASCII lowercase letter to uppercase; other characters pass through.
pub fn to_upper_char(c: char) -> (r: char)
    ensures
        r == upper_char(c),
{
    match c {
        'a' => 'A',
        'b' => 'B',
        'c' => 'C',
        'd' => 'D',
        'e' => 'E',
        'f' => 'F',
        'g' => 'G',
        'h' => 'H',
        'i' => 'I',
        'j' => 'J',
        'k' => 'K',
        'l' => 'L',
        'm' => 'M',
        'n' => 'N',
        'o' => 'O',
        'p' => 'P',
        'q' => 'Q',
        'r' => 'R',
        's' => 'S',
        't' => 'T',
        'u' => 'U',
        'v' => 'V',
        'w' => 'W',
        'x' => 'X',
        'y' => 'Y',
        'z' => 'Z',
        _ => c,
    }
}

/// True of the ASCII digits.
pub open spec fn spec_is_digit(c: char) -> bool {
    '0' <= c && c <= '9'
}

/// Whether `c` is an ASCII digit.
pub fn is_digit(c: char) -> (r: bool)
    ensures
        r == spec_is_digit(c),
{
    '0' <= c && c <= '9'
}

/// True between two adjacent characters where a new word starts without a
/// separator and without looking further ahead: a lowercase letter followed
/// by an uppercase one, or a letter next to a digit in either order and
/// case.
pub open spec fn spec_pair_boundary(prev: char, c: char) -> bool {
    ||| spec_is_lower(prev) && spec_is_upper(c)
    ||| spec_is_upper(prev) && spec_is_digit(c)
    ||| spec_is_lower(prev) && spec_is_digit(c)
    ||| spec_is_digit(prev) && spec_is_upper(c)
    ||| spec_is_digit(prev) && spec_is_lower(c)
}

/// True where a new word starts at `c` without a separator: at a pair
/// boundary, or inside an acronym — between two uppercase letters directly
/// followed by a lowercase one.
pub open spec fn spec_is_boundary(prev: char, c: char, next: Option<char>) -> bool {
    ||| spec_pair_boundary(prev, c)
    ||| (spec_is_upper(prev) && spec_is_upper(c) && (next matches Some(nx) && spec_is_lower(nx)))
}

/// Whether a new word starts at `c`, with `prev` before it and `next`, if
/// any, after it.
pub fn is_boundary(prev: char, c: char, next: Option<char>) -> (r: bool)
    ensures
        r == spec_is_boundary(prev, c, next),
{
    if is_lower(prev) && is_upper(c) {
        true
    } else if (is_upper(prev) || is_lower(prev)) && is_digit(c) {
        true
    } else if is_digit(prev) && (is_upper(c) || is_lower(c)) {
        true
    } else if is_upper(prev) && is_upper(c) {
        match next {
            Some(nx) => is_lower(nx),
            None => false,
        }
    } else {
        false
    }
}

/// The words of `s` when the first `cur` characters of the current word have
/// already been read.  A separator ends the current word; a case or digit
/// boundary ends it and opens the next one; every other character extends
/// it.  Empty segments (leading, trailing or repeated separators) produce no
/// word.
pub open spec fn spec_split_rec(s: Seq<char>, cur: Seq<char>) -> Seq<Seq<char>>
    decreases s.len(),
{
    if s.len() == 0 {
        if cur.len() == 0 {
            Seq::empty()
        } else {
            seq![cur]
        }
    } else {
        let c = s[0];
        let next = if s.len() > 1 {
            Some(s[1])
        } else {
            None
        };
        if spec_is_separator(c) {
            if cur.len() == 0 {
                spec_split_rec(s.drop_first(), cur)
            } else {
                seq![cur] + spec_split_rec(s.drop_first(), Seq::empty())
            }
        } else if cur.len() > 0 && spec_is_boundary(cur.last(), c, next) {
            seq![cur] + spec_split_rec(s.drop_first(), seq![c])
        } else {
            spec_split_rec(s.drop_first(), cur.push(c))
        }
    }
}

/// The sequence of words of a human-entered name.
pub open spec fn spec_words(s: Seq<char>) -> Seq<Seq<char>> {
    spec_split_rec(s, Seq::empty())
}

/// `w` with every ASCII uppercase letter lowered.
pub open spec fn lower_seq(w: Seq<char>) -> Seq<char> {
    w.map_values(|c: char| lower_char(c))
}

/// `w` with its first character uppercased and the rest lowered.
pub open spec fn cap_seq(w: Seq<char>) -> Seq<char> {
    if w.len() == 0 {
        w
    } else {
        seq![upper_char(w[0])] + lower_seq(w.drop_first())
    }
}

/// The words of `ws` concatenated.
pub open spec fn concat_words(ws: Seq<Seq<char>>) -> Seq<char>
    decreases ws.len(),
{
    if ws.len() == 0 {
        Seq::empty()
    } else {
        ws[0] + concat_words(ws.drop_first())
    }
}

/// The words of `ws` joined by single hyphens.
pub open spec fn join_kebab(ws: Seq<Seq<char>>) -> Seq<char>
    decreases ws.len(),
{
    if ws.len() == 0 {
        Seq::empty()
    } else if ws.len() == 1 {
        ws[0]
    } else {
        ws[0] + seq!['-'] + join_kebab(ws.drop_first())
    }
}

/// The word sequence with each word lowered.
pub open spec fn normalize_words(ws: Seq<Seq<char>>) -> Seq<Seq<char>> {
    ws.map_values(|w: Seq<char>| lower_seq(w))
}

/// The word sequence with each word capitalized.
pub open spec fn cap_words(ws: Seq<Seq<char>>) -> Seq<Seq<char>> {
    ws.map_values(|w: Seq<char>| cap_seq(w))
}

/// The flat shape of a name: its words lowered and concatenated.
pub open spec fn spec_flat(s: Seq<char>) -> Seq<char> {
    concat_words(normalize_words(spec_words(s)))
}

/// The kebab shape of a name: its words lowered and joined by hyphens.
pub open spec fn spec_kebab(s: Seq<char>) -> Seq<char> {
    join_kebab(normalize_words(spec_words(s)))
}

/// The Pascal shape of a name: each word capitalized, then concatenated.
pub open spec fn spec_pascal(s: Seq<char>) -> Seq<char> {
    concat_words(cap_words(spec_words(s)))
}

/// The camel shape of a name: the first word lowered, the rest capitalized,
/// then concatenated.
pub open spec fn spec_camel(s: Seq<char>) -> Seq<char> {
    let ws = spec_words(s);
    if ws.len() == 0 {
        Seq::empty()
    } else {
        lower_seq(ws[0]) + concat_words(cap_words(ws.drop_first()))
    }
}

/// Splits a name into its words.
pub fn split_words(s: &str) -> (words: Vec<String>)
    ensures
        words@.map_values(|w: String| w@) == spec_words(s@),
{
    let n: usize = s.unicode_len();
    let mut words: Vec<String> = Vec::new();
    let mut cur: String = String::new();
    let mut last: char = ' ';
    let mut i: usize = 0;
    proof {
        assert(s@.skip(0) =~= s@);
        assert(words@.map_values(|w: String| w@) =~= Seq::<Seq<char>>::empty());
    }
    while i < n
        invariant
            i <= n,
            n == s@.len(),
            cur@.len() > 0 ==> cur@.last() == last,
            spec_words(s@) == words@.map_values(|w: String| w@) + spec_split_rec(
                s@.skip(i as int),
                cur@,
            ),
        decreases n - i,
    {
        let c = s.get_char(i);
        let next = if i + 1 < n {
            Some(s.get_char(i + 1))
        } else {
            None
        };
        proof {
            assert(s@.skip(i as int).len() > 0);
            assert(s@.skip(i as int)[0] == s@[i as int]);
            assert(s@.skip(i as int).drop_first() =~= s@.skip(i as int + 1));
            if i + 1 < n {
                assert(s@.skip(i as int)[1] == s@[i as int + 1]);
            }
        }
        if is_separator(c) {
            if !cur.as_str().is_empty() {
                proof {
                    assert((words@.push(cur)).map_values(|w: String| w@) =~= words@.map_values(
                        |w: String| w@,
                    ).push(cur@));
                }
                words.push(cur);
                cur = String::new();
            }
        } else if !cur.as_str().is_empty() && is_boundary(last, c, next) {
            proof {
                assert((words@.push(cur)).map_values(|w: String| w@) =~= words@.map_values(
                    |w: String| w@,
                ).push(cur@));
            }
            words.push(cur);
            cur = String::new();
            cur.push(c);
            last = c;
            proof {
                assert(cur@ =~= seq![c]);
            }
        } else {
            cur.push(c);
            last = c;
        }
        i = i + 1;
    }
    proof {
        assert(s@.skip(n as int) =~= Seq::<char>::empty());
    }
    if !cur.as_str().is_empty() {
        proof {
            assert((words@.push(cur)).map_values(|w: String| w@) =~= words@.map_values(
                |w: String| w@,
            ).push(cur@));
        }
        words.push(cur);
    }
    words
}

/// Lowers every character of a word.
pub fn lower_word(w: &str) -> (r: String)
    ensures
        r@ == lower_seq(w@),
{
    let n: usize = w.unicode_len();
    let mut r = String::new();
    let mut i: usize = 0;
    while i < n
        invariant
            i <= n,
            n == w@.len(),
            r@ == lower_seq(w@.take(i as int)),
        decreases n - i,
    {
        let c = w.get_char(i);
        r.push(to_lower_char(c));
        proof {
            assert(lower_seq(w@.take(i as int + 1)) =~= lower_seq(w@.take(i as int)).push(
                lower_char(w@[i as int]),
            ));
        }
        i = i + 1;
    }
    proof {
        assert(w@.take(n as int) =~= w@);
    }
    r
}

/// Uppercases the first character of a word and lowers the rest.
pub fn cap_word(w: &str) -> (r: String)
    ensures
        r@ == cap_seq(w@),
{
    let n: usize = w.unicode_len();
    let mut r = String::new();
    if n == 0 {
        proof {
            assert(r@ =~= cap_seq(w@));
        }
        return r;
    }
    r.push(to_upper_char(w.get_char(0)));
    let mut i: usize = 1;
    proof {
        assert(r@ =~= seq![upper_char(w@[0])] + lower_seq(w@.subrange(1, 1)));
        assert(w@.subrange(1, 1) =~= w@.drop_first().take(0));
        assert(lower_seq(w@.drop_first().take(0)) =~= Seq::<char>::empty());
    }
    while i < n
        invariant
            1 <= i <= n,
            n == w@.len(),
            r@ == seq![upper_char(w@[0])] + lower_seq(w@.drop_first().take(i as int - 1)),
        decreases n - i,
    {
        let c = w.get_char(i);
        r.push(to_lower_char(c));
        proof {
            assert(lower_seq(w@.drop_first().take(i as int)) =~= lower_seq(
                w@.drop_first().take(i as int - 1),
            ).push(lower_char(w@[i as int])));
        }
        i = i + 1;
    }
    proof {
        assert(w@.drop_first().take(n as int - 1) =~= w@.drop_first());
    }
    r
}

/// Appending a word to the back of a word sequence appends its characters to
/// the concatenation.
proof fn lemma_concat_push(ws: Seq<Seq<char>>, w: Seq<char>)
    ensures
        concat_words(ws.push(w)) == concat_words(ws) + w,
    decreases ws.len(),
{
    if ws.len() == 0 {
        assert(ws.push(w)[0] == w);
        assert(ws.push(w).drop_first() =~= Seq::<Seq<char>>::empty());
        assert(concat_words(ws.push(w)) == w + concat_words(Seq::<Seq<char>>::empty()));
        assert(w + concat_words(Seq::<Seq<char>>::empty()) =~= concat_words(ws) + w);
    } else {
        assert(ws.push(w)[0] == ws[0]);
        assert(ws.push(w).drop_first() =~= ws.drop_first().push(w));
        lemma_concat_push(ws.drop_first(), w);
        assert(concat_words(ws.push(w)) == ws[0] + (concat_words(ws.drop_first()) + w));
        assert(concat_words(ws) == ws[0] + concat_words(ws.drop_first()));
        assert(ws[0] + (concat_words(ws.drop_first()) + w) =~= (ws[0] + concat_words(
            ws.drop_first(),
        )) + w);
    }
}

/// Appending a word to the back of a nonempty word sequence appends a hyphen
/// and its characters to the kebab join.
proof fn lemma_join_kebab_push(ws: Seq<Seq<char>>, w: Seq<char>)
    requires
        ws.len() > 0,
    ensures
        join_kebab(ws.push(w)) == join_kebab(ws) + seq!['-'] + w,
    decreases ws.len(),
{
    if ws.len() == 1 {
        assert(ws.push(w)[0] == ws[0]);
        assert(ws.push(w).drop_first() =~= seq![w]);
        assert(join_kebab(seq![w]) == w);
        assert(join_kebab(ws.push(w)) == ws[0] + seq!['-'] + w);
        assert(join_kebab(ws) == ws[0]);
    } else {
        assert(ws.push(w)[0] == ws[0]);
        assert(ws.push(w).drop_first() =~= ws.drop_first().push(w));
        lemma_join_kebab_push(ws.drop_first(), w);
        assert(join_kebab(ws.push(w)) == ws[0] + seq!['-'] + (join_kebab(ws.drop_first())
            + seq!['-'] + w));
        assert(join_kebab(ws) == ws[0] + seq!['-'] + join_kebab(ws.drop_first()));
        assert(ws[0] + seq!['-'] + (join_kebab(ws.drop_first()) + seq!['-'] + w) =~= (ws[0]
            + seq!['-'] + join_kebab(ws.drop_first())) + seq!['-'] + w);
    }
}

/// The flat shape of a name: lowercase, with the word separators removed.
pub fn to_flat(s: &str) -> (r: String)
    ensures
        r@ == spec_flat(s@),
{
    let words = split_words(s);
    let ghost ws = words@.map_values(|w: String| w@);
    let mut r = String::new();
    let mut i: usize = 0;
    while i < words.len()
        invariant
            i <= words.len(),
            ws == words@.map_values(|w: String| w@),
            ws == spec_words(s@),
            r@ == concat_words(normalize_words(ws.take(i as int))),
        decreases words.len() - i,
    {
        let lw = lower_word(words[i].as_str());
        proof {
            assert(normalize_words(ws.take(i as int + 1)) =~= normalize_words(
                ws.take(i as int),
            ).push(lower_seq(ws[i as int])));
            lemma_concat_push(normalize_words(ws.take(i as int)), lower_seq(ws[i as int]));
        }
        r.append(lw.as_str());
        i = i + 1;
    }
    proof {
        assert(ws.take(words@.len() as int) =~= ws);
    }
    r
}

/// The kebab shape of a name: lowercase words joined by hyphens.
pub fn to_kebab(s: &str) -> (r: String)
    ensures
        r@ == spec_kebab(s@),
{
    let words = split_words(s);
    let ghost ws = words@.map_values(|w: String| w@);
    let mut r = String::new();
    let mut i: usize = 0;
    while i < words.len()
        invariant
            i <= words.len(),
            ws == words@.map_values(|w: String| w@),
            ws == spec_words(s@),
            r@ == join_kebab(normalize_words(ws.take(i as int))),
        decreases words.len() - i,
    {
        let lw = lower_word(words[i].as_str());
        proof {
            assert(normalize_words(ws.take(i as int + 1)) =~= normalize_words(
                ws.take(i as int),
            ).push(lower_seq(ws[i as int])));
        }
        if i != 0 {
            proof {
                lemma_join_kebab_push(normalize_words(ws.take(i as int)), lower_seq(ws[i as int]));
            }
            r.push('-');
        } else {
            proof {
                assert(normalize_words(ws.take(1)) =~= seq![lower_seq(ws[0])]);
            }
        }
        r.append(lw.as_str());
        i = i + 1;
    }
    proof {
        assert(ws.take(words@.len() as int) =~= ws);
    }
    r
}

/// The Pascal shape of a name: each word capitalized, run together.
pub fn to_pascal(s: &str) -> (r: String)
    ensures
        r@ == spec_pascal(s@),
{
    let words = split_words(s);
    let ghost ws = words@.map_values(|w: String| w@);
    let mut r = String::new();
    let mut i: usize = 0;
    while i < words.len()
        invariant
            i <= words.len(),
            ws == words@.map_values(|w: String| w@),
            ws == spec_words(s@),
            r@ == concat_words(cap_words(ws.take(i as int))),
        decreases words.len() - i,
    {
        let cw = cap_word(words[i].as_str());
        proof {
            assert(cap_words(ws.take(i as int + 1)) =~= cap_words(ws.take(i as int)).push(
                cap_seq(ws[i as int]),
            ));
            lemma_concat_push(cap_words(ws.take(i as int)), cap_seq(ws[i as int]));
        }
        r.append(cw.as_str());
        i = i + 1;
    }
    proof {
        assert(ws.take(words@.len() as int) =~= ws);
    }
    r
}

/// The camel shape of a name: the first word lowercase, the rest capitalized,
/// run together.
pub fn to_camel(s: &str) -> (r: String)
    ensures
        r@ == spec_camel(s@),
{
    let words = split_words(s);
    let ghost ws = words@.map_values(|w: String| w@);
    let mut r = String::new();
    if words.len() == 0 {
        return r;
    }
    let lw = lower_word(words[0].as_str());
    r.append(lw.as_str());
    let ghost tail = ws.drop_first();
    let mut i: usize = 1;
    proof {
        assert(cap_words(tail.take(0)) =~= Seq::<Seq<char>>::empty());
        assert(r@ =~= lower_seq(ws[0]) + concat_words(cap_words(tail.take(0))));
    }
    while i < words.len()
        invariant
            1 <= i <= words.len(),
            ws == words@.map_values(|w: String| w@),
            ws == spec_words(s@),
            ws.len() > 0,
            tail == ws.drop_first(),
            r@ == lower_seq(ws[0]) + concat_words(cap_words(tail.take(i as int - 1))),
        decreases words.len() - i,
    {
        let cw = cap_word(words[i].as_str());
        proof {
            assert(cap_words(tail.take(i as int)) =~= cap_words(tail.take(i as int - 1)).push(
                cap_seq(tail[i as int - 1]),
            ));
            lemma_concat_push(cap_words(tail.take(i as int - 1)), cap_seq(tail[i as int - 1]));
            assert(tail[i as int - 1] == ws[i as int]);
        }
        r.append(cw.as_str());
        i = i + 1;
    }
    proof {
        assert(tail.take(words@.len() as int - 1) =~= tail);
    }
    r
}

/// A well-formed word as the splitter produces it: nonempty, free of
/// separators, and with no pair boundary between adjacent characters (the
/// splitter would have cut there).
pub open spec fn word_wf(w: Seq<char>) -> bool {
    &&& w.len() > 0
    &&& forall|j: int| 0 <= j < w.len() ==> !spec_is_separator(#[trigger] w[j])
    &&& forall|j: int| 0 <= j < w.len() - 1 ==> !spec_pair_boundary(#[trigger] w[j], w[j + 1])
}

/// Every word of the sequence is well-formed.
pub open spec fn words_wf(ws: Seq<Seq<char>>) -> bool {
    forall|i: int| 0 <= i < ws.len() ==> word_wf(#[trigger] ws[i])
}

/// A word as it comes out of lowering: free of separators and of uppercase,
/// with no pair boundary between adjacent characters.
pub open spec fn word_lowered(w: Seq<char>) -> bool {
    &&& forall|j: int|
        0 <= j < w.len() ==> !spec_is_separator(#[trigger] w[j]) && !spec_is_upper(w[j])
    &&& forall|j: int| 0 <= j < w.len() - 1 ==> !spec_pair_boundary(#[trigger] w[j], w[j + 1])
}

/// Every word of the sequence is nonempty and lowered.
pub open spec fn words_lowered(ws: Seq<Seq<char>>) -> bool {
    forall|i: int| 0 <= i < ws.len() ==> (#[trigger] ws[i]).len() > 0 && word_lowered(ws[i])
}

/// Splitting a name only ever produces well-formed words.
proof fn lemma_split_rec_wf(s: Seq<char>, cur: Seq<char>)
    requires
        forall|j: int| 0 <= j < cur.len() ==> !spec_is_separator(#[trigger] cur[j]),
        forall|j: int| 0 <= j < cur.len() - 1 ==> !spec_pair_boundary(#[trigger] cur[j], cur[j + 1]),
    ensures
        words_wf(spec_split_rec(s, cur)),
    decreases s.len(),
{
    let r = spec_split_rec(s, cur);
    if s.len() == 0 {
        if cur.len() > 0 {
            assert(r == seq![cur]);
            assert(word_wf(cur));
        }
    } else {
        let c = s[0];
        let next = if s.len() > 1 {
            Some(s[1])
        } else {
            None::<char>
        };
        if spec_is_separator(c) {
            if cur.len() == 0 {
                lemma_split_rec_wf(s.drop_first(), cur);
            } else {
                lemma_split_rec_wf(s.drop_first(), Seq::empty());
                let rr = spec_split_rec(s.drop_first(), Seq::empty());
                assert(r == seq![cur] + rr);
                assert forall|i: int| 0 <= i < r.len() implies word_wf(#[trigger] r[i]) by {
                    if i == 0 {
                        assert(r[i] == cur);
                    } else {
                        assert(r[i] == rr[i - 1]);
                    }
                }
            }
        } else if cur.len() > 0 && spec_is_boundary(cur.last(), c, next) {
            lemma_split_rec_wf(s.drop_first(), seq![c]);
            let rr = spec_split_rec(s.drop_first(), seq![c]);
            assert(r == seq![cur] + rr);
            assert forall|i: int| 0 <= i < r.len() implies word_wf(#[trigger] r[i]) by {
                if i == 0 {
                    assert(r[i] == cur);
                } else {
                    assert(r[i] == rr[i - 1]);
                }
            }
        } else {
            assert(cur.len() > 0 ==> !spec_pair_boundary(cur.last(), c));
            assert forall|j: int|
                0 <= j < cur.push(c).len() - 1 implies !spec_pair_boundary(
                #[trigger] cur.push(c)[j],
                cur.push(c)[j + 1],
            ) by {
                if j < cur.len() - 1 {
                    assert(cur.push(c)[j] == cur[j]);
                    assert(cur.push(c)[j + 1] == cur[j + 1]);
                } else {
                    assert(cur.push(c)[j] == cur.last());
                    assert(cur.push(c)[j + 1] == c);
                }
            }
            lemma_split_rec_wf(s.drop_first(), cur.push(c));
        }
    }
}

/// Reading a lowered word extends the current word and produces nothing
/// else: no separator, no case boundary and no digit boundary occurs inside
/// it or against the word read so far.
proof fn lemma_split_through_word(w: Seq<char>, t: Seq<char>, cur: Seq<char>)
    requires
        word_lowered(w),
        cur.len() > 0 && w.len() > 0 ==> !spec_pair_boundary(cur.last(), w[0]),
    ensures
        spec_split_rec(w + t, cur) == spec_split_rec(t, cur + w),
    decreases w.len(),
{
    if w.len() == 0 {
        assert(w + t =~= t);
        assert(cur + w =~= cur);
    } else {
        let c = w[0];
        assert((w + t)[0] == c);
        assert(!spec_is_separator(c) && !spec_is_upper(c));
        assert((w + t).len() > 0);
        let next = if (w + t).len() > 1 {
            Some((w + t)[1])
        } else {
            None::<char>
        };
        assert(cur.len() > 0 ==> !spec_is_boundary(cur.last(), c, next));
        assert((w + t).drop_first() =~= w.drop_first() + t);
        assert(forall|j: int|
            0 <= j < w.drop_first().len() ==> #[trigger] w.drop_first()[j] == w[j + 1]);
        assert(word_lowered(w.drop_first()));
        assert(w.drop_first().len() > 0 ==> !spec_pair_boundary(cur.push(c).last(), w[1]));
        lemma_split_through_word(w.drop_first(), t, cur.push(c));
        assert(cur.push(c) + w.drop_first() =~= cur + w);
    }
}

/// Splitting the kebab join of nonempty lowered words gives the words back.
proof fn lemma_split_of_join(ws: Seq<Seq<char>>)
    requires
        words_lowered(ws),
    ensures
        spec_words(join_kebab(ws)) == ws,
    decreases ws.len(),
{
    if ws.len() == 0 {
        assert(spec_split_rec(join_kebab(ws), Seq::empty()) =~= ws);
    } else if ws.len() == 1 {
        let w = ws[0];
        assert(join_kebab(ws) == w);
        assert(w =~= w + Seq::<char>::empty());
        lemma_split_through_word(w, Seq::empty(), Seq::empty());
        assert(Seq::<char>::empty() + w =~= w);
        assert(spec_split_rec(Seq::<char>::empty(), w) == seq![w]);
        assert(seq![w] =~= ws);
    } else {
        let w = ws[0];
        let rest = seq!['-'] + join_kebab(ws.drop_first());
        assert(join_kebab(ws) =~= w + rest);
        lemma_split_through_word(w, rest, Seq::empty());
        assert(Seq::<char>::empty() + w =~= w);
        assert(spec_words(join_kebab(ws)) == spec_split_rec(rest, w));
        assert(rest[0] == '-');
        assert(spec_is_separator('-'));
        assert(w.len() > 0);
        assert(rest.drop_first() =~= join_kebab(ws.drop_first()));
        assert(spec_split_rec(rest, w) == seq![w] + spec_split_rec(
            join_kebab(ws.drop_first()),
            Seq::empty(),
        ));
        assert(words_lowered(ws.drop_first())) by {
            assert(forall|i: int|
                0 <= i < ws.drop_first().len() ==> #[trigger] ws.drop_first()[i] == ws[i + 1]);
        }
        lemma_split_of_join(ws.drop_first());
        assert(seq![w] + ws.drop_first() =~= ws);
    }
}

/// Lowering a word keeps its length, removes uppercase, turns a well-formed
/// word into a lowered one, is idempotent, and does not change its
/// capitalized shape.
proof fn lemma_lower_word_facts(w: Seq<char>)
    ensures
        lower_seq(w).len() == w.len(),
        word_lowered(w) ==> lower_seq(w) == w,
        ((forall|j: int| 0 <= j < w.len() ==> !spec_is_separator(#[trigger] w[j])) && (forall|
            j: int,
        |
            0 <= j < w.len() - 1 ==> !spec_pair_boundary(#[trigger] w[j], w[j + 1])))
            ==> word_lowered(lower_seq(w)),
        lower_seq(lower_seq(w)) == lower_seq(w),
        cap_seq(lower_seq(w)) == cap_seq(w),
{
    assert(forall|j: int| 0 <= j < w.len() ==> #[trigger] lower_seq(w)[j] == lower_char(w[j]));
    if word_lowered(w) {
        assert(lower_seq(w) =~= w);
    }
    if (forall|j: int| 0 <= j < w.len() ==> !spec_is_separator(#[trigger] w[j])) && (forall|j: int|
        0 <= j < w.len() - 1 ==> !spec_pair_boundary(#[trigger] w[j], w[j + 1])) {
        assert forall|j: int|
            0 <= j < lower_seq(w).len() - 1 implies !spec_pair_boundary(
            #[trigger] lower_seq(w)[j],
            lower_seq(w)[j + 1],
        ) by {
            assert(lower_seq(w)[j] == lower_char(w[j]));
            assert(lower_seq(w)[j + 1] == lower_char(w[j + 1]));
            assert(!spec_pair_boundary(w[j], w[j + 1]));
            assert(spec_is_digit(lower_char(w[j])) == spec_is_digit(w[j]));
            assert(spec_is_digit(lower_char(w[j + 1])) == spec_is_digit(w[j + 1]));
            assert(!spec_is_upper(lower_char(w[j + 1])));
            assert(spec_is_lower(lower_char(w[j])) ==> spec_is_lower(w[j]) || spec_is_upper(
                w[j],
            ));
            assert(spec_is_lower(lower_char(w[j + 1])) ==> spec_is_lower(w[j + 1])
                || spec_is_upper(w[j + 1]));
        }
    }
    assert(lower_seq(lower_seq(w)) =~= lower_seq(w));
    if w.len() == 0 {
        assert(cap_seq(lower_seq(w)) == cap_seq(w));
    } else {
        assert(lower_seq(w)[0] == lower_char(w[0]));
        assert(upper_char(lower_char(w[0])) == upper_char(w[0]));
        assert(lower_seq(w).drop_first() =~= lower_seq(w.drop_first()));
        assert(lower_seq(lower_seq(w.drop_first())) == lower_seq(w.drop_first()));
        assert(cap_seq(lower_seq(w)) =~= cap_seq(w));
    }
}

/// Normalizing keeps lengths and word positions, produces nonempty lowered
/// words out of well-formed ones, and is idempotent.
proof fn lemma_normalize_facts(ws: Seq<Seq<char>>)
    ensures
        normalize_words(ws).len() == ws.len(),
        forall|i: int|
            0 <= i < ws.len() ==> #[trigger] normalize_words(ws)[i] == lower_seq(ws[i]),
        words_wf(ws) ==> words_lowered(normalize_words(ws)),
        normalize_words(normalize_words(ws)) == normalize_words(ws),
        cap_words(ws) == cap_words(normalize_words(ws)),
{
    assert(forall|i: int|
        0 <= i < ws.len() ==> #[trigger] normalize_words(ws)[i] == lower_seq(ws[i]));
    if words_wf(ws) {
        assert forall|i: int|
            0 <= i < normalize_words(ws).len() implies (#[trigger] normalize_words(ws)[i]).len()
            > 0 && word_lowered(normalize_words(ws)[i]) by {
            assert(word_wf(ws[i]));
            lemma_lower_word_facts(ws[i]);
        }
    }
    assert forall|i: int|
        0 <= i < ws.len() implies #[trigger] normalize_words(normalize_words(ws))[i]
        == normalize_words(ws)[i] by {
        lemma_lower_word_facts(ws[i]);
    }
    assert(normalize_words(normalize_words(ws)) =~= normalize_words(ws));
    assert forall|i: int|
        0 <= i < ws.len() implies #[trigger] cap_words(ws)[i] == cap_words(normalize_words(ws))[i]
        by {
        lemma_lower_word_facts(ws[i]);
    }
    assert(cap_words(ws) =~= cap_words(normalize_words(ws)));
}

/// Kebab-casing a name keeps its words: splitting the kebab shape gives the
/// name's words, each in lowercase.
pub proof fn lemma_kebab_keeps_words(s: Seq<char>)
    ensures
        spec_words(spec_kebab(s)) == normalize_words(spec_words(s)),
{
    lemma_split_rec_wf(s, Seq::empty());
    lemma_normalize_facts(spec_words(s));
    lemma_split_of_join(normalize_words(spec_words(s)));
}

/// Two names made of the same words — the same letters in the same order,
/// ignoring letter case and the choice of separator — take the same value
/// under each of the four case transforms.
pub proof fn lemma_case_transforms_agree(a: Seq<char>, b: Seq<char>)
    requires
        normalize_words(spec_words(a)) == normalize_words(spec_words(b)),
    ensures
        spec_flat(a) == spec_flat(b),
        spec_kebab(a) == spec_kebab(b),
        spec_pascal(a) == spec_pascal(b),
        spec_camel(a) == spec_camel(b),
{
    let wa = spec_words(a);
    let wb = spec_words(b);
    lemma_normalize_facts(wa);
    lemma_normalize_facts(wb);
    assert(spec_pascal(a) == spec_pascal(b)) by {
        assert(cap_words(wa) == cap_words(wb));
    }
    if wa.len() == 0 {
        assert(spec_camel(a) == spec_camel(b));
    } else {
        assert(lower_seq(wa[0]) == normalize_words(wa)[0]);
        assert(lower_seq(wb[0]) == normalize_words(wb)[0]);
        assert(cap_words(wa.drop_first()) =~= cap_words(wa).drop_first());
        assert(cap_words(wb.drop_first()) =~= cap_words(wb).drop_first());
        assert(cap_words(wa) == cap_words(wb));
        assert(spec_camel(a) == spec_camel(b));
    }
}

/// The kebab shape of a name holds the same words as the name itself, so a
/// further case transform gives the same result on either; in particular
/// Pascal of kebab is Pascal, and kebab-casing twice is kebab-casing once.
pub proof fn lemma_transforms_of_kebab(s: Seq<char>)
    ensures
        spec_pascal(spec_kebab(s)) == spec_pascal(s),
        spec_flat(spec_kebab(s)) == spec_flat(s),
        spec_camel(spec_kebab(s)) == spec_camel(s),
        spec_kebab(spec_kebab(s)) == spec_kebab(s),
{
    lemma_kebab_keeps_words(s);
    lemma_normalize_facts(spec_words(s));
    assert(normalize_words(spec_words(spec_kebab(s))) == normalize_words(spec_words(s)));
    lemma_case_transforms_agree(spec_kebab(s), s);
}

/// The concatenation of lowered words holds no separator and no uppercase
/// letter.
proof fn lemma_concat_caseless(ws: Seq<Seq<char>>)
    requires
        forall|i: int| 0 <= i < ws.len() ==> word_lowered(#[trigger] ws[i]),
    ensures
        forall|j: int|
            0 <= j < concat_words(ws).len() ==> !spec_is_separator(#[trigger] concat_words(ws)[j])
                && !spec_is_upper(concat_words(ws)[j]),
    decreases ws.len(),
{
    if ws.len() == 0 {
    } else {
        assert(word_lowered(ws[0]));
        assert(forall|i: int|
            0 <= i < ws.drop_first().len() ==> #[trigger] ws.drop_first()[i] == ws[i + 1]);
        lemma_concat_caseless(ws.drop_first());
        let c = concat_words(ws);
        assert(c == ws[0] + concat_words(ws.drop_first()));
        assert forall|j: int| 0 <= j < c.len() implies !spec_is_separator(#[trigger] c[j])
            && !spec_is_upper(c[j]) by {
            if j < ws[0].len() {
                assert(c[j] == ws[0][j]);
            } else {
                assert(c[j] == concat_words(ws.drop_first())[j - ws[0].len()]);
            }
        }
    }
}

/// Splitting never loses a character: with no separators to drop, the words
/// concatenate back to the input behind the word read so far.
proof fn lemma_concat_split(s: Seq<char>, cur: Seq<char>)
    requires
        forall|j: int| 0 <= j < s.len() ==> !spec_is_separator(#[trigger] s[j]),
    ensures
        concat_words(spec_split_rec(s, cur)) == cur + s,
    decreases s.len(),
{
    if s.len() == 0 {
        if cur.len() == 0 {
            assert(concat_words(spec_split_rec(s, cur)) =~= cur + s);
        } else {
            assert(spec_split_rec(s, cur) == seq![cur]);
            assert(seq![cur].drop_first() =~= Seq::<Seq<char>>::empty());
            assert(concat_words(seq![cur]) == cur + concat_words(Seq::<Seq<char>>::empty()));
            assert(cur + Seq::<char>::empty() =~= cur + s);
        }
    } else {
        let c = s[0];
        assert(!spec_is_separator(c));
        let next = if s.len() > 1 {
            Some(s[1])
        } else {
            None::<char>
        };
        assert(forall|j: int|
            0 <= j < s.drop_first().len() ==> #[trigger] s.drop_first()[j] == s[j + 1]);
        if cur.len() > 0 && spec_is_boundary(cur.last(), c, next) {
            lemma_concat_split(s.drop_first(), seq![c]);
            let rr = spec_split_rec(s.drop_first(), seq![c]);
            assert(spec_split_rec(s, cur) == seq![cur] + rr);
            assert((seq![cur] + rr)[0] == cur);
            assert((seq![cur] + rr).drop_first() =~= rr);
            assert(concat_words(seq![cur] + rr) == cur + concat_words(rr));
            assert(concat_words(rr) == seq![c] + s.drop_first());
            assert(cur + (seq![c] + s.drop_first()) =~= cur + s);
        } else {
            lemma_concat_split(s.drop_first(), cur.push(c));
            assert(cur.push(c) + s.drop_first() =~= cur + s);
        }
    }
}

/// A word without uppercase letters.
spec fn word_upper_free(w: Seq<char>) -> bool {
    forall|j: int| 0 <= j < w.len() ==> !spec_is_upper(#[trigger] w[j])
}

/// Every word of the sequence is free of uppercase letters.
spec fn words_upper_free(ws: Seq<Seq<char>>) -> bool {
    forall|i: int| 0 <= i < ws.len() ==> word_upper_free(#[trigger] ws[i])
}

/// Splitting an uppercase-free string yields uppercase-free words.
proof fn lemma_split_caseless(s: Seq<char>, cur: Seq<char>)
    requires
        forall|j: int| 0 <= j < s.len() ==> !spec_is_upper(#[trigger] s[j]),
        word_upper_free(cur),
    ensures
        words_upper_free(spec_split_rec(s, cur)),
    decreases s.len(),
{
    let r = spec_split_rec(s, cur);
    if s.len() == 0 {
        if cur.len() > 0 {
            assert(r == seq![cur]);
            assert forall|i: int| 0 <= i < r.len() implies word_upper_free(#[trigger] r[i]) by {
                assert(r[i] == cur);
            }
        }
    } else {
        let c = s[0];
        assert(!spec_is_upper(c));
        let next = if s.len() > 1 {
            Some(s[1])
        } else {
            None::<char>
        };
        assert(forall|j: int|
            0 <= j < s.drop_first().len() ==> #[trigger] s.drop_first()[j] == s[j + 1]);
        if spec_is_separator(c) {
            if cur.len() == 0 {
                lemma_split_caseless(s.drop_first(), cur);
            } else {
                lemma_split_caseless(s.drop_first(), Seq::empty());
                let rr = spec_split_rec(s.drop_first(), Seq::empty());
                assert(r == seq![cur] + rr);
                assert forall|i: int| 0 <= i < r.len() implies word_upper_free(
                    #[trigger] r[i],
                ) by {
                    if i == 0 {
                        assert(r[i] == cur);
                    } else {
                        assert(r[i] == rr[i - 1]);
                    }
                }
            }
        } else if cur.len() > 0 && spec_is_boundary(cur.last(), c, next) {
            assert(word_upper_free(seq![c]));
            lemma_split_caseless(s.drop_first(), seq![c]);
            let rr = spec_split_rec(s.drop_first(), seq![c]);
            assert(r == seq![cur] + rr);
            assert forall|i: int| 0 <= i < r.len() implies word_upper_free(#[trigger] r[i]) by {
                if i == 0 {
                    assert(r[i] == cur);
                } else {
                    assert(r[i] == rr[i - 1]);
                }
            }
        } else {
            assert(word_upper_free(cur.push(c))) by {
                assert(forall|j: int|
                    0 <= j < cur.len() ==> #[trigger] cur.push(c)[j] == cur[j]);
                assert(cur.push(c)[cur.len() as int] == c);
            }
            lemma_split_caseless(s.drop_first(), cur.push(c));
        }
    }
}

/// The flat shape is already flat: flattening a name twice gives the same
/// string as flattening it once.
pub proof fn lemma_flat_idempotent(s: Seq<char>)
    ensures
        spec_flat(spec_flat(s)) == spec_flat(s),
{
    lemma_split_rec_wf(s, Seq::empty());
    lemma_normalize_facts(spec_words(s));
    let out = spec_flat(s);
    lemma_concat_caseless(normalize_words(spec_words(s)));
    lemma_concat_split(out, Seq::empty());
    assert(Seq::<char>::empty() + out =~= out);
    assert(concat_words(spec_words(out)) == out);
    assert(word_upper_free(Seq::<char>::empty()));
    lemma_split_caseless(out, Seq::empty());
    assert forall|i: int|
        0 <= i < spec_words(out).len() implies #[trigger] normalize_words(spec_words(out))[i]
        == spec_words(out)[i] by {
        let w = spec_words(out)[i];
        assert(word_upper_free(w));
        assert(forall|j: int| 0 <= j < w.len() ==> #[trigger] lower_seq(w)[j] == lower_char(w[j]));
        assert(lower_seq(w) =~= w);
    }
    assert(normalize_words(spec_words(out)) =~= spec_words(out));
    assert(spec_flat(out) == concat_words(spec_words(out)));
}

} // verus!
