//! Deterministic post-processing of transcripts.

use vstd::prelude::*;

use crate::error::PostProcessError;
use crate::model::{
    DictionaryEntry, DictionaryMode, ProcessedText, ProcessingContext, Transcript,
};
use crate::text::{
    has_prefix, is_whitespace, lemma_trimmed_end, lemma_trimmed_end_is, lemma_trimmed_start,
    lemma_trimmed_start_is, to_chars, trim, trimmed, trimmed_end, trimmed_start, white_space,
};
use crate::traits::PostProcessor;

verus! {

/// The number of white space characters that `s` starts with.
pub open spec fn leading_run(s: Seq<char>) -> nat
    decreases s.len(),
{
    if s.len() > 0 && white_space(s[0]) {
        1 + leading_run(s.drop_first())
    } else {
        0
    }
}

/// The number of line feeds in `s`.
pub open spec fn line_feeds(s: Seq<char>) -> nat
    decreases s.len(),
{
    if s.len() == 0 {
        0
    } else if s.last() == '\n' {
        line_feeds(s.drop_last()) + 1
    } else {
        line_feeds(s.drop_last())
    }
}

/// What stands for a run of white space: its line feeds, where they are kept and it has any, or
/// else one space.
pub open spec fn separator(run: Seq<char>, keep_newlines: bool) -> Seq<char> {
    if keep_newlines && line_feeds(run) > 0 {
        Seq::new(line_feeds(run), |i: int| '\n')
    } else {
        seq![' ']
    }
}

/// `s` with every run of white space replaced by its separator.
pub open spec fn squeezed(s: Seq<char>, keep_newlines: bool) -> Seq<char>
    decreases s.len(),
{
    if s.len() == 0 {
        Seq::empty()
    } else if white_space(s[0]) {
        let n = leading_run(s) as int;
        proof {
            lemma_leading_run(s);
        }
        separator(s.take(n), keep_newlines) + squeezed(s.skip(n), keep_newlines)
    } else {
        seq![s[0]] + squeezed(s.drop_first(), keep_newlines)
    }
}

/// `s` with its white space normalized: none at the ends, and inside only separators.
pub open spec fn normalized(s: Seq<char>, keep_newlines: bool) -> Seq<char> {
    trimmed(squeezed(s, keep_newlines))
}

/// The leading run of white space ends at its first visible character.
proof fn lemma_leading_run_is(s: Seq<char>, n: int)
    requires
        0 <= n <= s.len(),
        forall|i: int| 0 <= i < n ==> white_space(s[i]),
        n < s.len() ==> !white_space(s[n]),
    ensures
        leading_run(s) == n,
    decreases s.len(),
{
    if n > 0 {
        lemma_leading_run_is(s.drop_first(), n - 1);
    }
}

/// The leading run consists of white space, and what follows it does not start with any.
pub proof fn lemma_leading_run(s: Seq<char>)
    ensures
        leading_run(s) <= s.len(),
        forall|i: int| 0 <= i < leading_run(s) ==> white_space(s[i]),
        leading_run(s) < s.len() ==> !white_space(s[leading_run(s) as int]),
        s.len() > 0 && white_space(s[0]) ==> leading_run(s) > 0,
    decreases s.len(),
{
    if s.len() > 0 && white_space(s[0]) {
        let t = s.drop_first();
        lemma_leading_run(t);
        assert forall|i: int| 0 <= i < leading_run(s) implies white_space(s[i]) by {
            if i > 0 {
                assert(t[i - 1] == s[i]);
            }
        }
    }
}

/// Normalizes the white space of `input`: runs inside become one space, or their line feeds where
/// those are preserved, and runs at the ends go.
pub fn normalize_spaces(input: &str, preserve_newlines: bool) -> (text: String)
    ensures
        text@ == normalized(input@, preserve_newlines),
{
    let chars = to_chars(input);
    let mut squeezed_text = String::new();
    let mut i: usize = 0;
    assert(chars@.skip(0) == chars@);
    while i < chars.len()
        invariant
            i <= chars@.len(),
            squeezed_text@ + squeezed(chars@.skip(i as int), preserve_newlines) == squeezed(
                chars@,
                preserve_newlines,
            ),
        decreases chars@.len() - i,
    {
        let ghost rest = chars@.skip(i as int);
        let ghost before = squeezed_text@;
        if is_whitespace(chars[i]) {
            let start = i;
            let mut feeds: usize = 0;
            while i < chars.len() && is_whitespace(chars[i])
                invariant
                    start <= i <= chars@.len(),
                    rest == chars@.skip(start as int),
                    forall|j: int| start <= j < i ==> white_space(chars@[j]),
                    feeds == line_feeds(rest.take(i - start)),
                    feeds <= i - start,
                    squeezed_text@ == before + (if preserve_newlines {
                        Seq::new(feeds as nat, |k: int| '\n')
                    } else {
                        Seq::empty()
                    }),
                decreases chars@.len() - i,
            {
                assert(rest.take(i - start + 1).drop_last() == rest.take(i - start));
                if chars[i] == '\n' {
                    feeds += 1;
                    if preserve_newlines {
                        squeezed_text.push('\n');
                    }
                }
                i += 1;
            }
            if !preserve_newlines || feeds == 0 {
                squeezed_text.push(' ');
            }
            proof {
                let n = i - start;
                assert forall|j: int| 0 <= j < n implies white_space(rest[j]) by {
                    assert(rest[j] == chars@[start + j]);
                }
                lemma_leading_run_is(rest, n);
                assert(rest.skip(n) == chars@.skip(i as int));
                assert(squeezed_text@ == before + separator(rest.take(n), preserve_newlines));
                assert(squeezed_text@ + squeezed(rest.skip(n), preserve_newlines) == before
                    + squeezed(rest, preserve_newlines));
            }
        } else {
            squeezed_text.push(chars[i]);
            i += 1;
            proof {
                assert(rest.drop_first() == chars@.skip(i as int));
                assert(squeezed_text@ + squeezed(rest.drop_first(), preserve_newlines) == before
                    + squeezed(rest, preserve_newlines));
            }
        }
    }
    proof {
        assert(chars@.skip(i as int).len() == 0);
        assert(squeezed_text@ == squeezed(chars@, preserve_newlines));
    }
    trim(squeezed_text.as_str())
}

/// `s` starts with `spoken`, and a word ends there: white space follows, or nothing.
pub open spec fn stands_first(s: Seq<char>, spoken: Seq<char>) -> bool {
    &&& spoken.len() > 0
    &&& has_prefix(s, spoken)
    &&& spoken.len() < s.len() ==> white_space(s[spoken.len() as int])
}

/// `s` with `replacement` in place of `spoken` wherever it stands by itself: between white space or
/// the ends. `boundary` says whether a word can start where `s` starts.
pub open spec fn replaced_from(
    s: Seq<char>,
    spoken: Seq<char>,
    replacement: Seq<char>,
    boundary: bool,
) -> Seq<char>
    decreases s.len(),
{
    if s.len() == 0 {
        Seq::empty()
    } else if boundary && stands_first(s, spoken) {
        replacement + replaced_from(
            s.skip(spoken.len() as int),
            spoken,
            replacement,
            white_space(spoken.last()),
        )
    } else {
        seq![s[0]] + replaced_from(s.drop_first(), spoken, replacement, white_space(s[0]))
    }
}

/// `text` with `replacement` in place of every whole word that is `spoken`. A word goes from white
/// space or an end of the text to the next, so that nothing inside a longer word is replaced; a
/// spoken form of several words is found where they follow each other as they are spelled.
pub open spec fn words_replaced(
    text: Seq<char>,
    spoken: Seq<char>,
    replacement: Seq<char>,
) -> Seq<char> {
    replaced_from(text, spoken, replacement, true)
}

/// Whether `spoken` stands at the given place of `chars` and a word ends behind it.
fn word_stands_at(chars: &Vec<char>, at: usize, spoken: &Vec<char>) -> (r: bool)
    requires
        at <= chars@.len(),
    ensures
        r == stands_first(chars@.skip(at as int), spoken@),
{
    let ghost rest = chars@.skip(at as int);
    if spoken.len() == 0 || spoken.len() > chars.len() - at {
        return false;
    }
    let end: usize = at + spoken.len();
    let mut i: usize = 0;
    while i < spoken.len()
        invariant
            i <= spoken@.len(),
            end == at + spoken@.len(),
            end <= chars@.len(),
            rest == chars@.skip(at as int),
            forall|j: int| 0 <= j < i ==> rest[j] == spoken@[j],
        decreases spoken@.len() - i,
    {
        if chars[at + i] != spoken[i] {
            assert(rest.take(spoken@.len() as int)[i as int] != spoken@[i as int]);
            return false;
        }
        i += 1;
    }
    assert(rest.take(spoken@.len() as int) == spoken@);
    end == chars.len() || is_whitespace(chars[end])
}

/// Replaces every whole word of `text` that is `spoken`.
pub fn replace_words(text: &str, spoken: &str, replacement: &str) -> (result: String)
    ensures
        result@ == words_replaced(text@, spoken@, replacement@),
{
    let chars = to_chars(text);
    let word = to_chars(spoken);
    let mut result = String::new();
    let mut boundary = true;
    let mut i: usize = 0;
    assert(chars@.skip(0) == text@);
    while i < chars.len()
        invariant
            i <= chars@.len(),
            word@ == spoken@,
            result@ + replaced_from(chars@.skip(i as int), spoken@, replacement@, boundary)
                == words_replaced(text@, spoken@, replacement@),
        decreases chars@.len() - i,
    {
        let ghost rest = chars@.skip(i as int);
        let ghost before = result@;
        let ghost from = boundary;
        if boundary && word_stands_at(&chars, i, &word) {
            result.append(replacement);
            boundary = is_whitespace(word[word.len() - 1]);
            i += word.len();
            assert(rest.skip(spoken@.len() as int) == chars@.skip(i as int));
        } else {
            result.push(chars[i]);
            boundary = is_whitespace(chars[i]);
            i += 1;
            assert(rest.drop_first() == chars@.skip(i as int));
        }
        assert(result@ + replaced_from(chars@.skip(i as int), spoken@, replacement@, boundary)
            == before + replaced_from(rest, spoken@, replacement@, from));
    }
    assert(chars@.skip(i as int).len() == 0);
    assert(result@ == words_replaced(text@, spoken@, replacement@));
    result
}

/// `text` after a dictionary entry: an exact entry replaces a text that is its spoken form, and an
/// entry for whole words replaces each of them. Upper and lower case differ.
pub open spec fn entry_applied(text: Seq<char>, entry: DictionaryEntry) -> Seq<char> {
    match entry.mode {
        DictionaryMode::Exact => if text == entry.spoken@ {
            entry.replacement@
        } else {
            text
        },
        DictionaryMode::WordBoundary => words_replaced(text, entry.spoken@, entry.replacement@),
    }
}

/// `text` after the first `n` entries of `dictionary`, one after the other.
pub open spec fn replaced(text: Seq<char>, dictionary: Seq<DictionaryEntry>, n: nat) -> Seq<char>
    decreases n,
{
    if n == 0 {
        text
    } else {
        entry_applied(replaced(text, dictionary, (n - 1) as nat), dictionary[n - 1])
    }
}

/// `text` with the endings that the context asks for; an empty text gets none.
pub open spec fn with_ending(text: Seq<char>, newline: bool, space: bool) -> Seq<char> {
    if text.len() == 0 {
        text
    } else {
        text + (if newline {
            seq!['\n']
        } else {
            Seq::empty()
        }) + (if space {
            seq![' ']
        } else {
            Seq::empty()
        })
    }
}

/// The text that post-processing makes of `text`.
pub open spec fn processed(text: Seq<char>, context: &ProcessingContext) -> Seq<char> {
    let clean = if context.normalize_spaces {
        normalized(trimmed(text), context.preserve_newlines)
    } else {
        trimmed(text)
    };
    let dictionary = context.dictionary@;
    with_ending(
        replaced(clean, dictionary, dictionary.len()),
        context.append_newline,
        context.append_space,
    )
}

/// A post-processor whose result depends on the transcript and the context alone.
#[derive(Clone, Copy, Debug, Default)]
pub struct DeterministicPostProcessor;

impl PostProcessor for DeterministicPostProcessor {
    /// Trims, normalizes spaces, applies the dictionary and appends what the context asks for.
    fn process(&self, transcript: Transcript, context: &ProcessingContext) -> (result: Result<
        ProcessedText,
        PostProcessError,
    >)
        ensures
            result matches Ok(done) && done.text@ == processed(transcript.text@, context)
                && done.source == transcript,
    {
        let mut text = trim(transcript.text.as_str());
        if context.normalize_spaces {
            text = normalize_spaces(text.as_str(), context.preserve_newlines);
        }
        let ghost clean = text@;
        let mut i: usize = 0;
        while i < context.dictionary.len()
            invariant
                i <= context.dictionary@.len(),
                text@ == replaced(clean, context.dictionary@, i as nat),
            decreases context.dictionary@.len() - i,
        {
            let entry = &context.dictionary[i];
            match entry.mode {
                DictionaryMode::Exact => {
                    if text == entry.spoken {
                        text = entry.replacement.clone();
                    }
                },
                DictionaryMode::WordBoundary => {
                    text = replace_words(
                        text.as_str(),
                        entry.spoken.as_str(),
                        entry.replacement.as_str(),
                    );
                },
            }
            i += 1;
        }
        if !text.as_str().is_empty() {
            if context.append_newline {
                text.push('\n');
            }
            if context.append_space {
                text.push(' ');
            }
        }
        assert(text@ == processed(transcript.text@, context));
        Ok(ProcessedText { text, source: transcript })
    }
}

/// White space is in normal form inside `s`: only spaces and, where they are kept, line feeds, and
/// no space beside other white space.
pub open spec fn tidy(s: Seq<char>, keep_newlines: bool) -> bool {
    &&& forall|i: int|
        0 <= i < s.len() && #[trigger] white_space(s[i]) ==> s[i] == ' ' || (keep_newlines && s[i]
            == '\n')
    &&& forall|i: int|
        0 <= i < s.len() - 1 && #[trigger] white_space(s[i]) && white_space(s[i + 1]) ==> s[i]
            == '\n' && s[i + 1] == '\n'
}

/// White space is in normal form in `s`, and `s` neither starts nor ends with any.
pub open spec fn is_normalized(s: Seq<char>, keep_newlines: bool) -> bool {
    &&& tidy(s, keep_newlines)
    &&& s.len() > 0 ==> !white_space(s[0]) && !white_space(s.last())
}

/// Replacing the runs of white space leaves it in normal form, and keeps whether the text starts
/// with any.
proof fn lemma_squeezed_tidy(s: Seq<char>, keep: bool)
    ensures
        tidy(squeezed(s, keep), keep),
        s.len() == 0 ==> squeezed(s, keep).len() == 0,
        s.len() > 0 ==> squeezed(s, keep).len() > 0 && white_space(squeezed(s, keep)[0])
            == white_space(s[0]),
    decreases s.len(),
{
    if s.len() == 0 {
    } else if white_space(s[0]) {
        lemma_leading_run(s);
        let n = leading_run(s) as int;
        let run = separator(s.take(n), keep);
        let rest = squeezed(s.skip(n), keep);
        lemma_squeezed_tidy(s.skip(n), keep);
        let all = run + rest;
        assert(squeezed(s, keep) == all);
        assert forall|i: int|
            0 <= i < all.len() - 1 && #[trigger] white_space(all[i]) && white_space(
                all[i + 1],
            ) implies all[i] == '\n' && all[i + 1] == '\n' by {
            if i >= run.len() {
                assert(all[i] == rest[i - run.len()]);
                assert(all[i + 1] == rest[i - run.len() + 1]);
            } else if i == run.len() - 1 {
                assert(all[i + 1] == rest[0]);
                assert(s.skip(n)[0] == s[n]);
            }
        }
        assert forall|i: int| 0 <= i < all.len() && #[trigger] white_space(all[i]) implies all[i]
            == ' ' || (keep && all[i] == '\n') by {
            if i >= run.len() {
                assert(all[i] == rest[i - run.len()]);
            }
        }
    } else {
        let rest = squeezed(s.drop_first(), keep);
        lemma_squeezed_tidy(s.drop_first(), keep);
        let all = seq![s[0]] + rest;
        assert forall|i: int|
            0 <= i < all.len() - 1 && #[trigger] white_space(all[i]) && white_space(
                all[i + 1],
            ) implies all[i] == '\n' && all[i + 1] == '\n' by {
            if i > 0 {
                assert(all[i] == rest[i - 1]);
                assert(all[i + 1] == rest[i]);
            }
        }
        assert forall|i: int| 0 <= i < all.len() && #[trigger] white_space(all[i]) implies all[i]
            == ' ' || (keep && all[i] == '\n') by {
            if i > 0 {
                assert(all[i] == rest[i - 1]);
            }
        }
    }
}

/// A part of a tidy text is tidy.
proof fn lemma_tidy_subrange(s: Seq<char>, from: int, to: int, keep: bool)
    requires
        tidy(s, keep),
        0 <= from <= to <= s.len(),
    ensures
        tidy(s.subrange(from, to), keep),
{
    let t = s.subrange(from, to);
    assert forall|i: int| 0 <= i < t.len() && #[trigger] white_space(t[i]) implies t[i] == ' ' || (
    keep && t[i] == '\n') by {
        assert(t[i] == s[from + i]);
    }
    assert forall|i: int|
        0 <= i < t.len() - 1 && #[trigger] white_space(t[i]) && white_space(t[i + 1]) implies t[i]
        == '\n' && t[i + 1] == '\n' by {
        assert(t[i] == s[from + i]);
        assert(t[i + 1] == s[from + i + 1]);
    }
}

/// Normalization puts the white space of every text in normal form.
pub proof fn law_normalization_normalizes(s: Seq<char>, keep_newlines: bool)
    ensures
        is_normalized(normalized(s, keep_newlines), keep_newlines),
{
    let t = squeezed(s, keep_newlines);
    lemma_squeezed_tidy(s, keep_newlines);
    let u = trimmed_start(t);
    lemma_trimmed_start(t);
    lemma_trimmed_end(u);
    let v = trimmed_end(u);
    let from = t.len() - u.len();
    assert(v == t.subrange(from, from + v.len()));
    lemma_tidy_subrange(t, from, from + v.len(), keep_newlines);
    if v.len() > 0 {
        assert(v[0] == u[0]);
    }
}

/// In a tidy text every run of white space is its own separator.
proof fn lemma_tidy_squeezed(s: Seq<char>, keep: bool)
    requires
        tidy(s, keep),
    ensures
        squeezed(s, keep) == s,
    decreases s.len(),
{
    if s.len() == 0 {
    } else if white_space(s[0]) {
        lemma_leading_run(s);
        let n = leading_run(s) as int;
        let run = s.take(n);
        lemma_tidy_subrange(s, n, s.len() as int, keep);
        assert(s.skip(n) == s.subrange(n, s.len() as int));
        lemma_tidy_squeezed(s.skip(n), keep);
        if s[0] == '\n' {
            lemma_tidy_run(s, n, keep);
            lemma_all_line_feeds(run);
        } else {
            if n > 1 {
                assert(white_space(s[0int + 1]));
            }
            assert(run == seq![' ']);
            assert(run.drop_last() == Seq::<char>::empty());
            reveal_with_fuel(line_feeds, 2);
            assert(line_feeds(run) == 0);
        }
        assert(separator(run, keep) == run);
        assert(s == run + s.skip(n));
    } else {
        lemma_tidy_subrange(s, 1, s.len() as int, keep);
        assert(s.drop_first() == s.subrange(1, s.len() as int));
        lemma_tidy_squeezed(s.drop_first(), keep);
        assert(s == seq![s[0]] + s.drop_first());
    }
}

/// A leading run of a tidy text that starts with a line feed has nothing but line feeds.
proof fn lemma_tidy_run(s: Seq<char>, n: int, keep: bool)
    requires
        tidy(s, keep),
        0 < n <= s.len(),
        s[0] == '\n',
        forall|i: int| 0 <= i < n ==> white_space(s[i]),
    ensures
        forall|i: int| 0 <= i < n ==> s[i] == '\n',
    decreases n,
{
    if n > 1 {
        lemma_tidy_run(s, n - 1, keep);
        assert(white_space(s[n - 2]) && white_space(s[n - 2 + 1]));
    }
}

/// A text of line feeds has as many of them as characters.
proof fn lemma_all_line_feeds(s: Seq<char>)
    requires
        forall|i: int| 0 <= i < s.len() ==> s[i] == '\n',
    ensures
        line_feeds(s) == s.len(),
    decreases s.len(),
{
    if s.len() > 0 {
        lemma_all_line_feeds(s.drop_last());
    }
}

/// Normalization leaves a text in normal form as it is.
pub proof fn law_normal_form_is_fixed(s: Seq<char>, keep_newlines: bool)
    requires
        is_normalized(s, keep_newlines),
    ensures
        normalized(s, keep_newlines) == s,
{
    lemma_tidy_squeezed(s, keep_newlines);
    lemma_trimmed_start_is(s, 0);
    assert(s.skip(0) == s);
    lemma_trimmed_end_is(s, s.len() as int);
    assert(s.take(s.len() as int) == s);
}

/// Normalizing twice is normalizing once.
pub proof fn law_normalization_is_idempotent(s: Seq<char>, keep_newlines: bool)
    ensures
        normalized(normalized(s, keep_newlines), keep_newlines) == normalized(s, keep_newlines),
{
    law_normalization_normalizes(s, keep_newlines);
    law_normal_form_is_fixed(normalized(s, keep_newlines), keep_newlines);
}

/// The visible characters of `s`, in order.
pub open spec fn visible(s: Seq<char>) -> Seq<char> {
    s.filter(|c: char| !white_space(c))
}

/// A text of white space has no visible character.
proof fn lemma_white_space_invisible(s: Seq<char>)
    requires
        forall|i: int| 0 <= i < s.len() ==> white_space(s[i]),
    ensures
        visible(s) == Seq::<char>::empty(),
    decreases s.len(),
{
    reveal(Seq::filter);
    if s.len() > 0 {
        lemma_white_space_invisible(s.drop_last());
    }
}

/// The visible characters of a concatenation.
proof fn lemma_visible_add(a: Seq<char>, b: Seq<char>)
    ensures
        visible(a + b) == visible(a) + visible(b),
{
    Seq::filter_distributes_over_add(a, b, |c: char| !white_space(c));
}

/// Replacing the runs of white space keeps the visible characters.
proof fn lemma_squeezed_visible(s: Seq<char>, keep: bool)
    ensures
        visible(squeezed(s, keep)) == visible(s),
    decreases s.len(),
{
    if s.len() == 0 {
        assert(squeezed(s, keep) == s);
    } else if white_space(s[0]) {
        lemma_leading_run(s);
        let n = leading_run(s) as int;
        let run = s.take(n);
        let rest = s.skip(n);
        let mark = separator(run, keep);
        lemma_squeezed_visible(rest, keep);
        assert(s == run + rest);
        assert(squeezed(s, keep) == mark + squeezed(rest, keep));
        lemma_white_space_invisible(run);
        lemma_white_space_invisible(mark);
        lemma_visible_add(run, rest);
        lemma_visible_add(mark, squeezed(rest, keep));
    } else {
        let head = seq![s[0]];
        let rest = s.drop_first();
        lemma_squeezed_visible(rest, keep);
        assert(s == head + rest);
        assert(squeezed(s, keep) == head + squeezed(rest, keep));
        lemma_visible_add(head, rest);
        lemma_visible_add(head, squeezed(rest, keep));
    }
}

/// Trimming keeps the visible characters.
proof fn lemma_trimmed_visible(s: Seq<char>)
    ensures
        visible(trimmed(s)) == visible(s),
{
    let t = trimmed_start(s);
    lemma_trimmed_start(s);
    let n = s.len() - t.len();
    lemma_white_space_invisible(s.take(n));
    lemma_visible_add(s.take(n), t);
    assert(s == s.take(n) + t);
    let u = trimmed_end(t);
    lemma_trimmed_end(t);
    let m = u.len() as int;
    lemma_white_space_invisible(t.skip(m));
    lemma_visible_add(u, t.skip(m));
    assert(t == u + t.skip(m));
}

/// Normalization keeps every visible character, in order, and adds none.
pub proof fn law_normalization_keeps_visible_text(s: Seq<char>, keep_newlines: bool)
    ensures
        visible(normalized(s, keep_newlines)) == visible(s),
{
    lemma_squeezed_visible(s, keep_newlines);
    lemma_trimmed_visible(squeezed(s, keep_newlines));
}

/// `spoken` stands by itself at the given place of `text`.
pub open spec fn stands_alone(text: Seq<char>, spoken: Seq<char>, at: int) -> bool {
    (at == 0 || white_space(text[at - 1])) && stands_first(text.skip(at), spoken)
}

/// No part of a longer word is replaced: a text in which the spoken form stands nowhere by itself
/// stays as it is.
pub proof fn law_parts_of_words_are_kept(
    text: Seq<char>,
    spoken: Seq<char>,
    replacement: Seq<char>,
)
    requires
        forall|at: int| 0 <= at < text.len() ==> !stands_alone(text, spoken, at),
    ensures
        words_replaced(text, spoken, replacement) == text,
{
    assert(text.skip(0) == text);
    lemma_kept_from(text, spoken, replacement, 0);
}

/// Behind a place from which the spoken form stands nowhere by itself, the text stays as it is.
proof fn lemma_kept_from(text: Seq<char>, spoken: Seq<char>, replacement: Seq<char>, at: int)
    requires
        0 <= at <= text.len(),
        forall|i: int| at <= i < text.len() ==> !stands_alone(text, spoken, i),
    ensures
        replaced_from(
            text.skip(at),
            spoken,
            replacement,
            at == 0 || white_space(text[at - 1]),
        ) == text.skip(at),
    decreases text.len() - at,
{
    if at < text.len() {
        lemma_kept_from(text, spoken, replacement, at + 1);
        assert(!stands_alone(text, spoken, at));
        assert(text.skip(at).drop_first() == text.skip(at + 1));
        assert(seq![text.skip(at)[0]] + text.skip(at + 1) == text.skip(at));
    }
}

/// A text that is the spoken form becomes the replacement, in either mode.
pub proof fn law_whole_text_is_replaced(entry: DictionaryEntry)
    requires
        entry.spoken@.len() > 0,
    ensures
        entry_applied(entry.spoken@, entry) == entry.replacement@,
{
    let spoken = entry.spoken@;
    assert(spoken.take(spoken.len() as int) == spoken);
    assert(stands_first(spoken, spoken));
    let rest = replaced_from(
        spoken.skip(spoken.len() as int),
        spoken,
        entry.replacement@,
        white_space(spoken.last()),
    );
    assert(rest.len() == 0);
    assert(entry.replacement@ + rest == entry.replacement@);
}

/// Words are replaced each by itself: white space parts a text into texts that do not matter to each
/// other, where the spoken form is one word.
pub proof fn law_words_are_replaced_one_by_one(
    before: Seq<char>,
    space: char,
    after: Seq<char>,
    spoken: Seq<char>,
    replacement: Seq<char>,
)
    requires
        white_space(space),
        forall|i: int| 0 <= i < spoken.len() ==> !white_space(spoken[i]),
    ensures
        words_replaced(before + seq![space] + after, spoken, replacement) == words_replaced(
            before,
            spoken,
            replacement,
        ) + seq![space] + words_replaced(after, spoken, replacement),
{
    lemma_replaced_from_add(before, space, after, spoken, replacement, true);
}

/// White space parts what is replaced before it from what is replaced behind it.
proof fn lemma_replaced_from_add(
    before: Seq<char>,
    space: char,
    after: Seq<char>,
    spoken: Seq<char>,
    replacement: Seq<char>,
    boundary: bool,
)
    requires
        white_space(space),
        forall|i: int| 0 <= i < spoken.len() ==> !white_space(spoken[i]),
    ensures
        replaced_from(before + seq![space] + after, spoken, replacement, boundary)
            == replaced_from(before, spoken, replacement, boundary) + seq![space] + replaced_from(
            after,
            spoken,
            replacement,
            true,
        ),
    decreases before.len(),
{
    let all = before + seq![space] + after;
    let n = spoken.len() as int;
    assert(all[before.len() as int] == space);
    if n > 0 && n <= all.len() && all.take(n) == spoken && n > before.len() {
        assert(all.take(n)[before.len() as int] == space);
        assert(white_space(spoken[before.len() as int]));
    }
    if before.len() == 0 {
        assert(!stands_first(all, spoken));
        assert(all.drop_first() == after);
        assert(before + seq![space] + after == seq![space] + after);
    } else if n > 0 && n <= before.len() {
        assert(all.take(n) == before.take(n));
        if n < before.len() {
            assert(all[n] == before[n]);
        }
    }
    if before.len() > 0 {
        assert(stands_first(all, spoken) == stands_first(before, spoken));
        if boundary && stands_first(before, spoken) {
            let rest = before.skip(n);
            assert(all.skip(n) == rest + seq![space] + after);
            lemma_replaced_from_add(rest, space, after, spoken, replacement, false);
            assert(!white_space(spoken.last()));
        } else {
            let rest = before.drop_first();
            assert(all.drop_first() == rest + seq![space] + after);
            lemma_replaced_from_add(
                rest,
                space,
                after,
                spoken,
                replacement,
                white_space(before[0]),
            );
            assert(all[0] == before[0]);
        }
    }
}

/// A transcript of nothing but white space leaves no text to send, unless a dictionary entry
/// stands for the empty text.
pub proof fn law_blank_transcript_is_empty(text: Seq<char>, context: &ProcessingContext)
    requires
        forall|i: int| 0 <= i < text.len() ==> white_space(text[i]),
        forall|i: int|
            0 <= i < context.dictionary@.len() ==> #[trigger] context.dictionary@[i].spoken@.len()
                > 0,
    ensures
        processed(text, context).len() == 0,
{
    lemma_trimmed_start_is(text, text.len() as int);
    let clean = if context.normalize_spaces {
        normalized(trimmed(text), context.preserve_newlines)
    } else {
        trimmed(text)
    };
    assert(trimmed(text).len() == 0);
    assert(clean.len() == 0);
    lemma_replaced_empty(clean, context.dictionary@, context.dictionary@.len());
}

/// Entries for a text that is not empty leave the empty text as it is.
proof fn lemma_replaced_empty(text: Seq<char>, dictionary: Seq<DictionaryEntry>, n: nat)
    requires
        text.len() == 0,
        n <= dictionary.len(),
        forall|i: int| 0 <= i < dictionary.len() ==> #[trigger] dictionary[i].spoken@.len() > 0,
    ensures
        replaced(text, dictionary, n).len() == 0,
    decreases n,
{
    if n > 0 {
        lemma_replaced_empty(text, dictionary, (n - 1) as nat);
    }
}

/// The same text gives the same text, every time it is processed under the same context.
pub proof fn law_processing_is_deterministic(
    processor: DeterministicPostProcessor,
    context: &ProcessingContext,
    first: (Transcript, Result<ProcessedText, PostProcessError>),
    second: (Transcript, Result<ProcessedText, PostProcessError>),
)
    requires
        call_ensures(DeterministicPostProcessor::process, (&processor, first.0, context), first.1),
        call_ensures(
            DeterministicPostProcessor::process,
            (&processor, second.0, context),
            second.1,
        ),
        first.0.text@ == second.0.text@,
    ensures
        first.1 is Ok,
        second.1 is Ok,
        first.1->Ok_0.text@ == second.1->Ok_0.text@,
{
}

/// A text without white space at its ends, put between white space, is what trimming keeps.
proof fn lemma_trimmed_is(before: Seq<char>, core: Seq<char>, after: Seq<char>)
    requires
        forall|i: int| 0 <= i < before.len() ==> white_space(before[i]),
        forall|i: int| 0 <= i < after.len() ==> white_space(after[i]),
        core.len() > 0 ==> !white_space(core[0]) && !white_space(core.last()),
    ensures
        trimmed(before + core + after) == core,
{
    let s = before + core + after;
    if core.len() == 0 {
        assert forall|i: int| 0 <= i < s.len() implies white_space(s[i]) by {
            if i < before.len() {
                assert(s[i] == before[i]);
            } else {
                assert(s[i] == after[i - before.len()]);
            }
        }
        lemma_trimmed_start_is(s, s.len() as int);
        assert(trimmed(s) == core);
    } else {
        let n = before.len() as int;
        assert forall|i: int| 0 <= i < n implies white_space(s[i]) by {
            assert(s[i] == before[i]);
        }
        assert(s[n] == core[0]);
        lemma_trimmed_start_is(s, n);
        let t = s.skip(n);
        assert(t == core + after);
        let m = core.len() as int;
        assert forall|i: int| m <= i < t.len() implies white_space(t[i]) by {
            assert(t[i] == after[i - m]);
        }
        assert(t[m - 1] == core.last());
        lemma_trimmed_end_is(t, m);
        assert(t.take(m) == core);
    }
}

/// A text is its trimmed form between white space.
proof fn lemma_trimmed_parts(s: Seq<char>) -> (parts: (Seq<char>, Seq<char>))
    ensures
        s == parts.0 + trimmed(s) + parts.1,
        forall|i: int| 0 <= i < parts.0.len() ==> white_space(parts.0[i]),
        forall|i: int| 0 <= i < parts.1.len() ==> white_space(parts.1[i]),
        trimmed(s).len() > 0 ==> !white_space(trimmed(s)[0]) && !white_space(trimmed(s).last()),
{
    let t = trimmed_start(s);
    lemma_trimmed_start(s);
    lemma_trimmed_end(t);
    let n = s.len() - t.len();
    let m = trimmed(s).len() as int;
    let before = s.take(n);
    let after = t.skip(m);
    assert(s == before + trimmed(s) + after);
    assert forall|i: int| 0 <= i < after.len() implies white_space(after[i]) by {
        assert(after[i] == t[m + i]);
    }
    if m > 0 {
        assert(trimmed(s)[0] == t[0]);
    }
    (before, after)
}

/// Runs of white space are replaced each by itself: a text that is cut beside a visible character is
/// replaced part by part.
proof fn lemma_squeezed_add(a: Seq<char>, b: Seq<char>, keep: bool)
    requires
        a.len() == 0 || b.len() == 0 || !white_space(a.last()) || !white_space(b[0]),
    ensures
        squeezed(a + b, keep) == squeezed(a, keep) + squeezed(b, keep),
    decreases a.len(),
{
    let s = a + b;
    if a.len() == 0 {
        assert(s == b);
    } else if white_space(a[0]) {
        lemma_leading_run(a);
        let n = leading_run(a) as int;
        assert forall|i: int| 0 <= i < n implies white_space(s[i]) by {
            assert(s[i] == a[i]);
        }
        if n < a.len() {
            assert(s[n] == a[n]);
        } else if b.len() > 0 {
            assert(s[n] == b[0]);
        }
        lemma_leading_run_is(s, n);
        assert(s.take(n) == a.take(n));
        assert(s.skip(n) == a.skip(n) + b);
        if a.skip(n).len() > 0 {
            assert(a.skip(n).last() == a.last());
        }
        lemma_squeezed_add(a.skip(n), b, keep);
        let mark = separator(a.take(n), keep);
        assert(mark + (squeezed(a.skip(n), keep) + squeezed(b, keep)) == mark + squeezed(
            a.skip(n),
            keep,
        ) + squeezed(b, keep));
    } else {
        let rest = a.drop_first();
        assert(s.drop_first() == rest + b);
        if rest.len() > 0 {
            assert(rest.last() == a.last());
        }
        lemma_squeezed_add(rest, b, keep);
        let head = seq![a[0]];
        assert(head + (squeezed(rest, keep) + squeezed(b, keep)) == head + squeezed(rest, keep)
            + squeezed(b, keep));
    }
}

/// A run of white space becomes its separator, which is white space.
proof fn lemma_squeezed_run(run: Seq<char>, keep: bool)
    requires
        forall|i: int| 0 <= i < run.len() ==> white_space(run[i]),
    ensures
        run.len() > 0 ==> squeezed(run, keep) == separator(run, keep),
        run.len() == 0 ==> squeezed(run, keep) == run,
        forall|i: int| 0 <= i < squeezed(run, keep).len() ==> white_space(squeezed(run, keep)[i]),
{
    if run.len() > 0 {
        lemma_leading_run_is(run, run.len() as int);
        assert(run.take(run.len() as int) == run);
        let rest = run.skip(run.len() as int);
        assert(squeezed(rest, keep) == Seq::<char>::empty());
        assert(separator(run, keep) + Seq::<char>::empty() == separator(run, keep));
    }
}

/// A text that ends with a visible character still does when its runs are replaced.
proof fn lemma_squeezed_last(s: Seq<char>, keep: bool)
    requires
        s.len() > 0,
        !white_space(s.last()),
    ensures
        squeezed(s, keep).len() > 0,
        squeezed(s, keep).last() == s.last(),
{
    let last = seq![s.last()];
    assert(s == s.drop_last() + last);
    lemma_squeezed_add(s.drop_last(), last, keep);
    assert(last.drop_first() == Seq::<char>::empty());
    assert(squeezed(last.drop_first(), keep) == Seq::<char>::empty());
    assert(squeezed(last, keep) == last);
}

/// White space around a text does not matter to its normalization.
proof fn lemma_normalized_core(before: Seq<char>, core: Seq<char>, after: Seq<char>, keep: bool)
    requires
        forall|i: int| 0 <= i < before.len() ==> white_space(before[i]),
        forall|i: int| 0 <= i < after.len() ==> white_space(after[i]),
        core.len() > 0 ==> !white_space(core[0]) && !white_space(core.last()),
    ensures
        normalized(before + core + after, keep) == squeezed(core, keep),
{
    lemma_squeezed_run(before, keep);
    lemma_squeezed_run(after, keep);
    if core.len() == 0 {
        let run = before + after;
        assert(before + core + after == run);
        assert forall|i: int| 0 <= i < run.len() implies white_space(run[i]) by {
            if i < before.len() {
                assert(run[i] == before[i]);
            } else {
                assert(run[i] == after[i - before.len()]);
            }
        }
        lemma_squeezed_run(run, keep);
        let none = Seq::<char>::empty();
        lemma_trimmed_is(squeezed(run, keep), none, none);
        assert(squeezed(run, keep) + none + none == squeezed(run, keep));
        assert(squeezed(core, keep) == none);
    } else {
        lemma_squeezed_add(before, core, keep);
        let head = before + core;
        assert(head.last() == core.last());
        lemma_squeezed_add(head, after, keep);
        lemma_squeezed_last(core, keep);
        lemma_squeezed_tidy(core, keep);
        lemma_trimmed_is(squeezed(before, keep), squeezed(core, keep), squeezed(after, keep));
    }
}

/// White space at the ends of a text does not matter to its normalization.
pub proof fn law_normalizing_ignores_white_space_at_the_ends(
    inner: &str,
    outer: &str,
    keep_newlines: bool,
    inner_text: String,
    outer_text: String,
    before: Seq<char>,
    after: Seq<char>,
)
    requires
        forall|i: int| 0 <= i < before.len() ==> white_space(before[i]),
        forall|i: int| 0 <= i < after.len() ==> white_space(after[i]),
        outer@ == before + inner@ + after,
        call_ensures(normalize_spaces, (inner, keep_newlines), inner_text),
        call_ensures(normalize_spaces, (outer, keep_newlines), outer_text),
    ensures
        inner_text@ == outer_text@,
{
    let core = trimmed(inner@);
    let (left, right) = lemma_trimmed_parts(inner@);
    lemma_normalized_core(left, core, right, keep_newlines);
    let start = before + left;
    let end = right + after;
    assert(outer@ == start + core + end);
    assert forall|i: int| 0 <= i < start.len() implies white_space(start[i]) by {
        if i < before.len() {
            assert(start[i] == before[i]);
        } else {
            assert(start[i] == left[i - before.len()]);
        }
    }
    assert forall|i: int| 0 <= i < end.len() implies white_space(end[i]) by {
        if i < right.len() {
            assert(end[i] == right[i]);
        } else {
            assert(end[i] == after[i - right.len()]);
        }
    }
    lemma_normalized_core(start, core, end, keep_newlines);
}

/// A text without white space stays as it is when it is normalized.
pub proof fn law_normalizing_keeps_words(input: &str, keep_newlines: bool, text: String)
    requires
        forall|i: int| 0 <= i < input@.len() ==> !white_space(input@[i]),
        call_ensures(normalize_spaces, (input, keep_newlines), text),
    ensures
        text@ == input@,
{
    assert(is_normalized(input@, keep_newlines));
    law_normal_form_is_fixed(input@, keep_newlines);
}

/// The line feeds of a text, and how many there are.
proof fn lemma_line_feeds(s: Seq<char>)
    ensures
        s.filter(|c: char| c == '\n') == Seq::new(line_feeds(s), |i: int| '\n'),
    decreases s.len(),
{
    reveal(Seq::filter);
    if s.len() > 0 {
        lemma_line_feeds(s.drop_last());
        if s.last() == '\n' {
            assert(s.filter(|c: char| c == '\n') == s.drop_last().filter(|c: char| c == '\n').push(
                '\n',
            ));
        }
    }
    assert(s.filter(|c: char| c == '\n') =~= Seq::new(line_feeds(s), |i: int| '\n'));
}

/// White space between two visible characters becomes its line feeds, where they are kept and it has
/// any, and else one space; what stands before and behind it is normalized by itself.
pub proof fn law_normalizing_parts_words(
    before: &str,
    run: Seq<char>,
    after: &str,
    input: &str,
    keep_newlines: bool,
    before_text: String,
    after_text: String,
    text: String,
)
    requires
        before@.len() > 0,
        !white_space(before@.last()),
        after@.len() > 0,
        !white_space(after@[0]),
        run.len() > 0,
        forall|i: int| 0 <= i < run.len() ==> white_space(run[i]),
        input@ == before@ + run + after@,
        call_ensures(normalize_spaces, (before, keep_newlines), before_text),
        call_ensures(normalize_spaces, (after, keep_newlines), after_text),
        call_ensures(normalize_spaces, (input, keep_newlines), text),
    ensures
        keep_newlines && run.contains('\n') ==> text@ == before_text@ + run.filter(
            |c: char| c == '\n',
        ) + after_text@,
        !keep_newlines || !run.contains('\n') ==> text@ == before_text@ + seq![' '] + after_text@,
{
    let keep = keep_newlines;
    let none = Seq::<char>::empty();
    let (left, no_right) = lemma_trimmed_parts(before@);
    let (no_left, right) = lemma_trimmed_parts(after@);
    let a = trimmed(before@);
    let b = trimmed(after@);
    if no_right.len() > 0 {
        assert(before@.last() == no_right.last());
    }
    if no_left.len() > 0 {
        assert(after@[0] == no_left[0]);
    }
    assert(before@ == left + a);
    assert(after@ == b + right);
    if a.len() == 0 {
        assert(before@.last() == left.last());
    }
    if b.len() == 0 {
        assert(after@[0] == right[0]);
    }
    assert(left + a + none == before@);
    assert(none + b + right == after@);
    lemma_normalized_core(left, a, none, keep);
    lemma_normalized_core(none, b, right, keep);
    let core = a + run + b;
    assert(input@ == left + core + right);
    assert(core[0] == a[0]);
    assert(core.last() == b.last());
    lemma_normalized_core(left, core, right, keep);
    lemma_squeezed_add(a, run, keep);
    lemma_squeezed_add(a + run, b, keep);
    lemma_squeezed_run(run, keep);
    lemma_line_feeds(run);
    lemma_contains_line_feed(run);
}

/// A text has line feeds where one of its characters is one.
proof fn lemma_contains_line_feed(s: Seq<char>)
    ensures
        line_feeds(s) > 0 <==> s.contains('\n'),
    decreases s.len(),
{
    if s.len() > 0 {
        let t = s.drop_last();
        lemma_contains_line_feed(t);
        if t.contains('\n') {
            let i = choose|i: int| 0 <= i < t.len() && t[i] == '\n';
            assert(s[i] == '\n');
        }
        if s.contains('\n') && s.last() != '\n' {
            let i = choose|i: int| 0 <= i < s.len() && s[i] == '\n';
            assert(t[i] == '\n');
        }
        if s.last() == '\n' {
            assert(s[s.len() - 1] == '\n');
        }
    }
}

/// Where the spoken form stands nowhere by itself, no word is replaced. It stands by itself between
/// white space or the ends of the text, as it is spelled; an empty one stands nowhere.
pub proof fn law_other_words_are_not_replaced(
    text: &str,
    spoken: &str,
    replacement: &str,
    result: String,
)
    requires
        call_ensures(replace_words, (text, spoken, replacement), result),
        forall|at: int|
            0 <= at && at + spoken@.len() <= text@.len() && #[trigger] text@.subrange(
                at,
                at + spoken@.len(),
            ) == spoken@ && spoken@.len() > 0 ==> (at > 0 && !white_space(text@[at - 1])) || (at
                + spoken@.len() < text@.len() && !white_space(text@[at + spoken@.len()])),
    ensures
        result@ == text@,
{
    assert forall|at: int| 0 <= at < text@.len() implies !stands_alone(text@, spoken@, at) by {
        let n = spoken@.len() as int;
        if n > 0 && at + n <= text@.len() {
            assert(text@.skip(at).take(n) == text@.subrange(at, at + n));
            if at + n < text@.len() {
                assert(text@.skip(at)[n] == text@[at + n]);
            }
        }
    }
    law_parts_of_words_are_kept(text@, spoken@, replacement@);
}

/// Up to the first place at which the spoken form stands by itself, the text stays as it is.
proof fn lemma_kept_up_to(
    text: Seq<char>,
    spoken: Seq<char>,
    replacement: Seq<char>,
    i: int,
    at: int,
)
    requires
        0 <= i <= at < text.len(),
        forall|j: int| i <= j < at ==> !stands_alone(text, spoken, j),
    ensures
        replaced_from(text.skip(i), spoken, replacement, i == 0 || white_space(text[i - 1]))
            == text.subrange(i, at) + replaced_from(
            text.skip(at),
            spoken,
            replacement,
            at == 0 || white_space(text[at - 1]),
        ),
    decreases at - i,
{
    if i < at {
        lemma_kept_up_to(text, spoken, replacement, i + 1, at);
        assert(!stands_alone(text, spoken, i));
        assert(text.skip(i).drop_first() == text.skip(i + 1));
        assert(seq![text.skip(i)[0]] + text.subrange(i + 1, at) == text.subrange(i, at));
        let rest = replaced_from(
            text.skip(at),
            spoken,
            replacement,
            at == 0 || white_space(text[at - 1]),
        );
        assert(seq![text.skip(i)[0]] + (text.subrange(i + 1, at) + rest) == text.subrange(i, at)
            + rest);
    } else {
        assert(text.subrange(i, at) == Seq::<char>::empty());
    }
}

/// The first place at which the spoken form stands by itself gets the replacement. What is before it
/// stays, and so does the white space behind it; what follows is treated as a text of its own.
pub proof fn law_words_are_replaced_from_left_to_right(
    text: &str,
    spoken: &str,
    replacement: &str,
    result: String,
    at: int,
    rest: &str,
    rest_result: String,
)
    requires
        call_ensures(replace_words, (text, spoken, replacement), result),
        call_ensures(replace_words, (rest, spoken, replacement), rest_result),
        spoken@.len() > 0,
        0 <= at,
        at + spoken@.len() <= text@.len(),
        text@.subrange(at, at + spoken@.len()) == spoken@,
        at == 0 || white_space(text@[at - 1]),
        at + spoken@.len() == text@.len() || white_space(text@[at + spoken@.len()]),
        forall|i: int|
            0 <= i < at && #[trigger] text@.subrange(i, i + spoken@.len()) == spoken@ ==> (i > 0
                && !white_space(text@[i - 1])) || !white_space(text@[i + spoken@.len()]),
    ensures
        at + spoken@.len() == text@.len() ==> result@ == text@.take(at) + replacement@,
        at + spoken@.len() < text@.len() && white_space(spoken@.last()) && rest@ == text@.skip(
            at + spoken@.len(),
        ) ==> result@ == text@.take(at) + replacement@ + rest_result@,
        at + spoken@.len() < text@.len() && !white_space(spoken@.last()) && rest@ == text@.skip(
            at + spoken@.len() + 1,
        ) ==> result@ == text@.take(at) + replacement@ + seq![text@[at + spoken@.len()]]
            + rest_result@,
{
    let s = text@;
    let n = spoken@.len() as int;
    assert forall|j: int| 0 <= j < at implies !stands_alone(s, spoken@, j) by {
        if j + n <= s.len() && s.skip(j).take(n) == spoken@ {
            assert(s.skip(j).take(n) == s.subrange(j, j + n));
            assert(s.skip(j)[n] == s[j + n]);
        }
    }
    assert(s.skip(0) == s);
    lemma_kept_up_to(s, spoken@, replacement@, 0, at);
    assert(s.subrange(0, at) == s.take(at));
    let here = s.skip(at);
    assert(here.take(n) == s.subrange(at, at + n));
    if at + n < s.len() {
        assert(here[n] == s[at + n]);
    }
    assert(stands_first(here, spoken@));
    let behind = here.skip(n);
    assert(behind == s.skip(at + n));
    let ends_white = white_space(spoken@.last());
    let tail = replaced_from(behind, spoken@, replacement@, ends_white);
    assert(result@ == s.take(at) + (replacement@ + tail));
    if at + n == s.len() {
        assert(behind.len() == 0);
        assert(s.take(at) + (replacement@ + tail) == s.take(at) + replacement@);
    } else if ends_white {
        assert(s.take(at) + (replacement@ + tail) == s.take(at) + replacement@ + tail);
    } else {
        assert(behind[0] == s[at + n]);
        assert(behind.drop_first() == s.skip(at + n + 1));
        let last = replaced_from(behind.drop_first(), spoken@, replacement@, true);
        assert(tail == seq![behind[0]] + last);
        assert(s.take(at) + (replacement@ + tail) == s.take(at) + replacement@ + seq![behind[0]]
            + last);
    }
}

/// Processing never fails and keeps the transcript. Without a dictionary and endings the text is the
/// normalized transcript, or where spaces are not normalized the trimmed one.
pub proof fn law_processing_tidies_the_transcript(
    processor: &DeterministicPostProcessor,
    transcript: Transcript,
    context: &ProcessingContext,
    result: Result<ProcessedText, PostProcessError>,
    raw: &str,
    normalized_text: String,
    trimmed_text: String,
)
    requires
        call_ensures(
            DeterministicPostProcessor::process,
            (processor, transcript, context),
            result,
        ),
        raw@ == transcript.text@,
        call_ensures(normalize_spaces, (raw, context.preserve_newlines), normalized_text),
        call_ensures(trim, (raw,), trimmed_text),
    ensures
        result is Ok,
        result->Ok_0.source == transcript,
        context.dictionary@.len() == 0 && !context.append_newline && !context.append_space ==> {
            &&& context.normalize_spaces ==> result->Ok_0.text@ == normalized_text@
            &&& !context.normalize_spaces ==> result->Ok_0.text@ == trimmed_text@
        },
{
    let (left, right) = lemma_trimmed_parts(raw@);
    let core = trimmed(raw@);
    let none = Seq::<char>::empty();
    lemma_normalized_core(left, core, right, context.preserve_newlines);
    lemma_normalized_core(none, core, none, context.preserve_newlines);
    assert(none + core + none == core);
    reveal_with_fuel(replaced, 1);
}

/// The contexts ask for the same, apart from the dictionary and the endings.
pub open spec fn tidy_alike(a: &ProcessingContext, b: &ProcessingContext) -> bool {
    a.preserve_newlines == b.preserve_newlines && a.normalize_spaces == b.normalize_spaces
}

/// What comes first in a dictionary does not depend on what comes later.
proof fn lemma_replaced_prefix(
    text: Seq<char>,
    a: Seq<DictionaryEntry>,
    b: Seq<DictionaryEntry>,
    n: nat,
)
    requires
        n <= a.len(),
        n <= b.len(),
        forall|i: int| 0 <= i < n ==> a[i] == b[i],
    ensures
        replaced(text, a, n) == replaced(text, b, n),
    decreases n,
{
    if n > 0 {
        lemma_replaced_prefix(text, a, b, (n - 1) as nat);
    }
}

/// One more dictionary entry is applied to what the entries before it made. An exact entry puts its
/// replacement in the place of a text that is its spoken form and leaves every other text as it is;
/// an entry for whole words replaces these.
pub proof fn law_dictionary_entries_apply_in_order(
    processor: &DeterministicPostProcessor,
    transcript: Transcript,
    shorter: &ProcessingContext,
    longer: &ProcessingContext,
    result: Result<ProcessedText, PostProcessError>,
    next: Result<ProcessedText, PostProcessError>,
    text: &str,
    spoken: &str,
    replacement: &str,
    words: String,
)
    requires
        call_ensures(
            DeterministicPostProcessor::process,
            (processor, transcript, shorter),
            result,
        ),
        call_ensures(DeterministicPostProcessor::process, (processor, transcript, longer), next),
        tidy_alike(shorter, longer),
        !shorter.append_newline && !shorter.append_space,
        !longer.append_newline && !longer.append_space,
        longer.dictionary@.len() == shorter.dictionary@.len() + 1,
        longer.dictionary@.drop_last() == shorter.dictionary@,
        text@ == result->Ok_0.text@,
        spoken@ == longer.dictionary@.last().spoken@,
        replacement@ == longer.dictionary@.last().replacement@,
        call_ensures(replace_words, (text, spoken, replacement), words),
    ensures
        longer.dictionary@.last().mode == DictionaryMode::Exact ==> {
            &&& text@ == spoken@ ==> next->Ok_0.text@ == replacement@
            &&& text@ != spoken@ ==> next->Ok_0.text@ == text@
        },
        longer.dictionary@.last().mode == DictionaryMode::WordBoundary ==> next->Ok_0.text@
            == words@,
{
    let clean = if shorter.normalize_spaces {
        normalized(trimmed(transcript.text@), shorter.preserve_newlines)
    } else {
        trimmed(transcript.text@)
    };
    let n = shorter.dictionary@.len();
    lemma_replaced_prefix(clean, shorter.dictionary@, longer.dictionary@, n);
}

/// A text that is not empty gets the endings that are asked for, the line break before the space, and
/// nothing else; an empty text gets none.
pub proof fn law_endings_are_appended(
    processor: &DeterministicPostProcessor,
    transcript: Transcript,
    plain: &ProcessingContext,
    context: &ProcessingContext,
    result: Result<ProcessedText, PostProcessError>,
    ended: Result<ProcessedText, PostProcessError>,
)
    requires
        call_ensures(
            DeterministicPostProcessor::process,
            (processor, transcript, plain),
            result,
        ),
        call_ensures(
            DeterministicPostProcessor::process,
            (processor, transcript, context),
            ended,
        ),
        tidy_alike(plain, context),
        plain.dictionary@ == context.dictionary@,
        !plain.append_newline && !plain.append_space,
    ensures
        result->Ok_0.text@.len() == 0 ==> ended->Ok_0.text@.len() == 0,
        result->Ok_0.text@.len() > 0 ==> ended->Ok_0.text@ == result->Ok_0.text@ + match (
            context.append_newline,
            context.append_space,
        ) {
            (false, false) => seq![],
            (true, false) => seq!['\n'],
            (false, true) => seq![' '],
            (true, true) => seq!['\n', ' '],
        },
{
    let text = result->Ok_0.text@;
    assert(text + seq!['\n'] + seq![' '] == text + seq!['\n', ' ']);
    assert(text + seq![] == text);
}

/// Processing without a dictionary keeps the visible characters of the transcript, in order, and adds
/// none.
pub proof fn law_processing_keeps_visible_text(text: Seq<char>, context: &ProcessingContext)
    requires
        context.dictionary@.len() == 0,
    ensures
        visible(processed(text, context)) == visible(text),
{
    lemma_trimmed_visible(text);
    let clean = if context.normalize_spaces {
        normalized(trimmed(text), context.preserve_newlines)
    } else {
        trimmed(text)
    };
    law_normalization_keeps_visible_text(trimmed(text), context.preserve_newlines);
    assert(replaced(clean, context.dictionary@, 0) == clean);
    let newline = if context.append_newline {
        seq!['\n']
    } else {
        Seq::empty()
    };
    let space = if context.append_space {
        seq![' ']
    } else {
        Seq::empty()
    };
    lemma_white_space_invisible(newline);
    lemma_white_space_invisible(space);
    lemma_visible_add(clean, newline);
    lemma_visible_add(clean + newline, space);
}

/// Trimming a text first does not matter to its normalization.
pub proof fn law_trimming_first_does_not_matter(s: Seq<char>, keep_newlines: bool)
    ensures
        normalized(trimmed(s), keep_newlines) == normalized(s, keep_newlines),
{
    let (left, right) = lemma_trimmed_parts(s);
    let core = trimmed(s);
    let none = Seq::<char>::empty();
    lemma_normalized_core(left, core, right, keep_newlines);
    lemma_normalized_core(none, core, none, keep_newlines);
    assert(none + core + none == core);
}

} // verus!
