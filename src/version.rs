//! Reading version numbers out of tools' `--version` output.
use vstd::prelude::*;
use crate::text::{
    chars_of, owned, same_text, string_of_range, whitespace, is_whitespace, find_char, find_char_from, trim_ws,
    trim_ws_range,
};

verus! {

/// The version a word stands for: the word itself where it starts with an
/// ASCII digit, the rest of it where it is a `v` followed by more.
pub open spec fn version_in_word(w: Seq<char>) -> Option<Seq<char>> {
    if w.len() > 0 && '0' <= w[0] && w[0] <= '9' {
        Some(w)
    } else if w.len() > 1 && w[0] == 'v' {
        Some(w.subrange(1, w.len() as int))
    } else {
        None
    }
}

/// The white-space-separated words of `s`, in order.
pub open spec fn words(s: Seq<char>) -> Seq<Seq<char>>
    decreases s.len(),
{
    if s.len() == 0 {
        seq![]
    } else {
        let w = words(s.drop_last());
        let c = s.last();
        if whitespace(c) {
            w
        } else if s.len() == 1 || whitespace(s[s.len() - 2]) {
            w.push(seq![c])
        } else {
            w.drop_last().push(w.last().push(c))
        }
    }
}

/// The version that the first word standing for one gives.
pub open spec fn first_version(ws: Seq<Seq<char>>) -> Option<Seq<char>>
    decreases ws.len(),
{
    if ws.len() == 0 {
        None
    } else {
        match version_in_word(ws[0]) {
            Some(v) => Some(v),
            None => first_version(ws.drop_first()),
        }
    }
}

/// The version a line of `--version` output gives: the first
/// white-space-separated word that stands for one, else the whole line.
pub open spec fn version_string_spec(line: Seq<char>) -> Seq<char> {
    match first_version(words(line)) {
        Some(v) => v,
        None => line,
    }
}

proof fn lemma_words_nonempty(s: Seq<char>)
    requires
        s.len() > 0,
        !whitespace(s.last()),
    ensures
        words(s).len() > 0,
    decreases s.len(),
{
    if !(s.len() == 1 || whitespace(s[s.len() - 2])) {
        let p = s.drop_last();
        assert(p.last() == s[s.len() - 2]);
        lemma_words_nonempty(p);
    }
}

/// Words split at white space: the words of `s + t` are those of `s` then
/// those of `t` where `s` is empty or ends in white space.
proof fn lemma_words_append(s: Seq<char>, t: Seq<char>)
    requires
        s.len() == 0 || whitespace(s.last()),
    ensures
        words(s + t) == words(s) + words(t),
    decreases t.len(),
{
    if t.len() == 0 {
        assert(s + t =~= s);
        assert(words(s) + words(t) =~= words(s));
    } else {
        let st = s + t;
        let t0 = t.drop_last();
        assert(st.drop_last() =~= s + t0);
        lemma_words_append(s, t0);
        let c = t.last();
        assert(st.last() == c);
        if whitespace(c) {
        } else if t.len() == 1 {
            assert(t0.len() == 0);
            assert(words(t0) =~= seq![]);
            if s.len() > 0 {
                assert(st[st.len() - 2] == s.last());
            }
            assert(words(s) + words(t) =~= words(s).push(seq![c]));
        } else {
            assert(st[st.len() - 2] == t[t.len() - 2]);
            if whitespace(t[t.len() - 2]) {
                assert((words(s) + words(t0)).push(seq![c]) =~= words(s) + words(t0).push(seq![c]));
            } else {
                assert(t0.last() == t[t.len() - 2]);
                lemma_words_nonempty(t0);
                let w = words(s) + words(t0);
                assert(w.last() == words(t0).last());
                assert(w.drop_last().push(w.last().push(c)) =~= words(s) + words(t0).drop_last().push(
                    words(t0).last().push(c),
                ));
            }
        }
    }
}

/// A run of characters none of which is white space is one word.
proof fn lemma_single_word(w: Seq<char>)
    requires
        w.len() > 0,
        forall|k: int| 0 <= k < w.len() ==> !whitespace(#[trigger] w[k]),
    ensures
        words(w) == seq![w],
    decreases w.len(),
{
    if w.len() == 1 {
        assert(w.drop_last() =~= seq![]);
        assert(words(w.drop_last()) =~= seq![]);
        assert(seq![w.last()] =~= w);
        assert(seq![].push(seq![w.last()]) =~= seq![w]);
    } else {
        let p = w.drop_last();
        lemma_single_word(p);
        assert(!whitespace(w[w.len() - 2]));
        assert(p.push(w.last()) =~= w);
        assert(seq![p].drop_last().push(seq![p].last().push(w.last())) =~= seq![w]);
    }
}

/// Appending white space adds no word.
proof fn lemma_words_trailing_ws(s: Seq<char>, c: char)
    requires
        whitespace(c),
    ensures
        words(s.push(c)) == words(s),
{
    assert(s.push(c).drop_last() =~= s);
}

proof fn lemma_first_version_append(a: Seq<Seq<char>>, b: Seq<Seq<char>>)
    requires
        first_version(a) is None,
    ensures
        first_version(a + b) == first_version(b),
    decreases a.len(),
{
    if a.len() > 0 {
        assert((a + b).drop_first() =~= a.drop_first() + b);
        lemma_first_version_append(a.drop_first(), b);
    } else {
        assert(a + b =~= b);
    }
}

fn version_in_range(cs: &Vec<char>, lo: usize, hi: usize) -> (r: Option<String>)
    requires
        lo <= hi <= cs@.len(),
    ensures
        match version_in_word(cs@.subrange(lo as int, hi as int)) {
            Some(v) => r matches Some(s) && s@ == v,
            None => r is None,
        },
{
    if hi > lo && '0' <= cs[lo] && cs[lo] <= '9' {
        Some(string_of_range(cs, lo, hi))
    } else if hi - lo > 1 && cs[lo] == 'v' {
        let r = string_of_range(cs, lo + 1, hi);
        assert(cs@.subrange(lo as int, hi as int).subrange(1, (hi - lo) as int) =~= cs@.subrange(lo + 1, hi as int));
        Some(r)
    } else {
        None
    }
}

/// Picks the version out of a line such as `hoonc 0.2.1` or `tool v1.4`.
pub fn extract_version_string(version_line: &str) -> (r: String)
    ensures
        r@ == version_string_spec(version_line@),
{
    let cs = chars_of(version_line);
    let ghost n = cs@.len() as int;
    let mut i: usize = 0;
    let mut start: Option<usize> = None;
    let ghost mut done: Seq<Seq<char>> = seq![];
    assert(cs@.subrange(0, 0) =~= seq![]);
    while i < cs.len()
        invariant
            i <= cs@.len(),
            n == cs@.len(),
            cs@ == version_line@,
            first_version(done) is None,
            match start {
                Some(st) => st < i && words(cs@.subrange(0, st as int)) == done && (st == 0 || whitespace(
                    cs@[st - 1],
                )) && forall|k: int| st <= k < i ==> !whitespace(#[trigger] cs@[k]),
                None => words(cs@.subrange(0, i as int)) == done && (i == 0 || whitespace(cs@[i - 1])),
            },
        decreases cs@.len() - i,
    {
        let c = cs[i];
        if is_whitespace(c) {
            if let Some(st) = start {
                let ghost w = cs@.subrange(st as int, i as int);
                proof {
                    assert forall|k: int| 0 <= k < w.len() implies !whitespace(#[trigger] w[k]) by {
                        assert(w[k] == cs@[st + k]);
                    }
                    lemma_single_word(w);
                    let pre = cs@.subrange(0, st as int);
                    lemma_words_append(pre, cs@.subrange(st as int, i + 1));
                    assert(pre + cs@.subrange(st as int, i + 1) =~= cs@.subrange(0, i + 1));
                    assert(cs@.subrange(st as int, i + 1) =~= w.push(c));
                    lemma_words_trailing_ws(w, c);
                    // the rest of the line follows this word
                    lemma_words_append(cs@.subrange(0, i + 1), cs@.subrange(i + 1, n));
                    assert(cs@.subrange(0, i + 1) + cs@.subrange(i + 1, n) =~= cs@);
                    assert(cs@.subrange(0, i + 1).last() == c);
                    assert(done + seq![w] + words(cs@.subrange(i + 1, n)) =~= done + (seq![w] + words(
                        cs@.subrange(i + 1, n),
                    )));
                    lemma_first_version_append(done, seq![w] + words(cs@.subrange(i + 1, n)));
                    assert((seq![w] + words(cs@.subrange(i + 1, n)))[0] == w);
                    assert((seq![w] + words(cs@.subrange(i + 1, n))).drop_first() =~= words(cs@.subrange(i + 1, n)));
                }
                if let Some(v) = version_in_range(&cs, st, i) {
                    return v;
                }
                proof {
                    assert(version_in_word(w) is None);
                    assert(seq![w][0] == w);
                    assert(seq![w].drop_first() =~= Seq::<Seq<char>>::empty());
                    assert(first_version(Seq::<Seq<char>>::empty()) is None);
                    assert(first_version(seq![w]) is None);
                    lemma_first_version_append(done, seq![w]);
                    done = done + seq![w];
                }
            } else {
                proof {
                    assert(cs@.subrange(0, i + 1) =~= cs@.subrange(0, i as int).push(c));
                    lemma_words_trailing_ws(cs@.subrange(0, i as int), c);
                }
            }
            start = None;
        } else if start.is_none() {
            start = Some(i);
        }
        i = i + 1;
    }
    assert(cs@.subrange(0, n) =~= cs@);
    if let Some(st) = start {
        let ghost w = cs@.subrange(st as int, n);
        proof {
            assert forall|k: int| 0 <= k < w.len() implies !whitespace(#[trigger] w[k]) by {
                assert(w[k] == cs@[st + k]);
            }
            lemma_single_word(w);
            lemma_words_append(cs@.subrange(0, st as int), w);
            assert(cs@.subrange(0, st as int) + w =~= cs@);
            lemma_first_version_append(done, seq![w]);
            assert(seq![w].drop_first() =~= seq![]);
        }
        if let Some(v) = version_in_range(&cs, st, cs.len()) {
            return v;
        }
    }
    owned(version_line)
}

/// The version that a tool's output reports: read from its first line,
/// trimmed of white space; an empty first line reports none.
pub open spec fn version_from_output_spec(output: Seq<char>) -> Option<Seq<char>> {
    let line = trim_ws(output.subrange(0, find_char_from(output, '\n', 0)));
    if line.len() == 0 {
        None
    } else {
        Some(version_string_spec(line))
    }
}

/// The version that a tool's `--version` output reports, if its first line
/// holds anything.
pub fn version_from_output(output: &str) -> (r: Option<String>)
    ensures
        match r {
            Some(v) => version_from_output_spec(output@) == Some(v@),
            None => version_from_output_spec(output@) is None,
        },
{
    let cs = chars_of(output);
    let end = find_char(&cs, '\n', 0);
    let (lo, hi) = trim_ws_range(&cs, 0, end);
    if lo == hi {
        return None;
    }
    let line = string_of_range(&cs, lo, hi);
    Some(extract_version_string(line.as_str()))
}

/// The architecture name that the `file` tool prints for a binary built
/// for `arch`: `arm64` for `aarch64`, the name itself otherwise.
pub fn expected_file_arch(arch: &str) -> (r: String)
    ensures
        arch@ == "aarch64"@ ==> r@ == "arm64"@,
        arch@ != "aarch64"@ ==> r@ == arch@,
{
    if same_text(arch, "aarch64") {
        owned("arm64")
    } else {
        owned(arch)
    }
}

} // verus!
