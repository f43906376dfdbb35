//! The counting functions: one per metric, each gated on its flag in `Conf`.
//!
//! Every metric is independent: its result depends only on its own flag and
//! on the content, never on another metric being enabled. A disabled metric
//! yields `None` (absence, not zero).

use vstd::prelude::*;
use unicode_segmentation::UnicodeSegmentation;

use crate::settings::Conf;

verus! {

use vstd::string::StrSliceExecFns;
use vstd::utf8::encode_utf8;

/// The byte length of the UTF-8 encoding of `s`.
pub open spec fn spec_byte_count(s: Seq<char>) -> nat {
    encode_utf8(s).len()
}

/// The number of Unicode scalar values (code points) in `s`.
pub open spec fn spec_char_count(s: Seq<char>) -> nat {
    s.len()
}

/// The number of line-feed characters in `s`.
pub open spec fn newline_count(s: Seq<char>) -> nat
    decreases s.len(),
{
    if s.len() == 0 {
        0
    } else {
        newline_count(s.drop_last()) + if s.last() == '\n' {
            1nat
        } else {
            0nat
        }
    }
}

/// The number of logical lines in `s`: each line feed closes a line, and a
/// final unterminated segment counts as one more line. A trailing terminator
/// opens no extra empty line, so `"a\nb\n"` has two lines, as does `"a\nb"`,
/// and empty content has zero.
pub open spec fn spec_line_count(s: Seq<char>) -> nat {
    newline_count(s) + if s.len() > 0 && s.last() != '\n' {
        1nat
    } else {
        0nat
    }
}

/// The number of word segments of `s` under the Unicode (UAX #29) default
/// word-boundary algorithm, keeping only segments that contain an
/// alphanumeric character. Named rather than spelled out: the boundary rules
/// fill tables, but the result is a function of the characters alone.
pub uninterp spec fn unicode_word_count_of(s: Seq<char>) -> nat;

proof fn lemma_newline_count_le_len(s: Seq<char>)
    ensures
        newline_count(s) <= s.len(),
    decreases s.len(),
{
    if s.len() > 0 {
        lemma_newline_count_le_len(s.drop_last());
    }
}

/// What the byte-count function returns: the encoded length iff enabled.
pub open spec fn spec_bytes_metric(c: Conf, s: Seq<char>) -> Option<u64> {
    if c.bytes {
        Some(spec_byte_count(s) as u64)
    } else {
        None
    }
}

/// What the character-count function returns: the code-point count iff enabled.
pub open spec fn spec_characters_metric(c: Conf, s: Seq<char>) -> Option<u64> {
    if c.characters {
        Some(spec_char_count(s) as u64)
    } else {
        None
    }
}

/// What the line-count function returns: the logical line count iff enabled.
pub open spec fn spec_lines_metric(c: Conf, s: Seq<char>) -> Option<u64> {
    if c.lines {
        Some(spec_line_count(s) as u64)
    } else {
        None
    }
}

/// What the word-count function returns: the Unicode word-segment count iff
/// enabled.
pub open spec fn spec_words_metric(c: Conf, s: Seq<char>) -> Option<u64> {
    if c.words {
        Some(unicode_word_count_of(s) as u64)
    } else {
        None
    }
}

/// Relies on unicode_segmentation's `UnicodeSegmentation::unicode_words`:
/// it yields the substrings that, after splitting on UAX #29 default word
/// boundaries, contain an alphanumeric character. The segmentation is a
/// deterministic function of the characters alone, and empty content has no
/// words.
#[verifier::external_body]
fn unicode_word_count(s: &str) -> (r: usize)
    ensures
        r as nat == unicode_word_count_of(s@),
        s@.len() == 0 ==> r == 0,
{
    s.unicode_words().count()
}

/// Byte count of `contents`: the length of its UTF-8 encoding (not a
/// code-point count), or `None` when the metric is disabled.
pub fn bytes(conf: &Conf, contents: &String) -> (r: Option<u64>)
    ensures
        r == spec_bytes_metric(*conf, contents@),
        conf.bytes <==> r is Some,
{
    if conf.bytes {
        let n: usize = contents.as_str().as_bytes().len();
        Some(n as u64)
    } else {
        None
    }
}

/// Character count of `contents`: the number of Unicode scalar values, or
/// `None` when the metric is disabled.
pub fn characters(conf: &Conf, contents: &String) -> (r: Option<u64>)
    ensures
        r == spec_characters_metric(*conf, contents@),
        conf.characters <==> r is Some,
{
    if conf.characters {
        let n: usize = contents.as_str().unicode_len();
        Some(n as u64)
    } else {
        None
    }
}

/// Line count of `contents`: logical lines, a trailing terminator opening no
/// extra line, or `None` when the metric is disabled.
pub fn lines(conf: &Conf, contents: &String) -> (r: Option<u64>)
    ensures
        r == spec_lines_metric(*conf, contents@),
        conf.lines <==> r is Some,
{
    if conf.lines {
        let s: &str = contents.as_str();
        let n: usize = s.unicode_len();
        let mut count: u64 = 0;
        let mut i: usize = 0;
        while i < n
            invariant
                s@ == contents@,
                n as nat == s@.len(),
                i <= n,
                count as nat == newline_count(s@.take(i as int)),
                count <= i,
            decreases n - i,
        {
            let c: char = s.get_char(i);
            proof {
                assert(s@.take(i + 1).drop_last() =~= s@.take(i as int));
                assert(s@.take(i + 1).last() == s@[i as int]);
            }
            if c == '\n' {
                count = count + 1;
            }
            i = i + 1;
        }
        proof {
            assert(s@.take(n as int) =~= s@);
        }
        if n > 0 && s.get_char(n - 1) != '\n' {
            proof {
                lemma_newline_count_le_len(s@.drop_last());
                assert(s@.last() == s@[n - 1]);
            }
            count = count + 1;
        }
        Some(count)
    } else {
        None
    }
}

/// The value a present metric contributes to a total; an absent one
/// contributes nothing.
pub open spec fn opt_nat(v: Option<u64>) -> nat {
    match v {
        Some(x) => x as nat,
        None => 0,
    }
}

/// The metrics computed for one unit of content. Each field is present iff
/// its metric was enabled; absence, not zero, denotes "not requested".
/// `pos` is the cursor of [`ObjectAttributes::next`], zero when freshly built.
#[derive(Debug, PartialEq, Eq, Hash)]
pub struct ObjectAttributes {
    pub bytes: Option<u64>,
    pub characters: Option<u64>,
    pub lines: Option<u64>,
    pub words: Option<u64>,
    pub pos: usize,
}

/// The attributes that measuring content `s` under `c` produces.
pub open spec fn spec_attrs(c: Conf, s: Seq<char>) -> ObjectAttributes {
    ObjectAttributes {
        bytes: spec_bytes_metric(c, s),
        characters: spec_characters_metric(c, s),
        lines: spec_lines_metric(c, s),
        words: spec_words_metric(c, s),
        pos: 0,
    }
}

/// Runs every enabled counting function on `contents` and collects the
/// results, with the cursor at zero.
pub fn measure(conf: &Conf, contents: &String) -> (r: ObjectAttributes)
    ensures
        r == spec_attrs(*conf, contents@),
{
    ObjectAttributes {
        bytes: bytes(conf, contents),
        characters: characters(conf, contents),
        lines: lines(conf, contents),
        words: words(conf, contents),
        pos: 0,
    }
}

impl ObjectAttributes {
    /// Steps the cursor one slot forward and hands out the field it lands
    /// on. Because the cursor moves before the slot is chosen, the first
    /// three calls on a fresh value yield characters, lines and words in
    /// turn (the bytes slot is skipped), the next two yield nothing while
    /// still advancing, and beyond that the cursor stops moving.
    pub fn next(&mut self) -> (r: Option<Option<u64>>)
        ensures
            old(self).pos > 4 ==> r is None && *final(self) == *old(self),
            old(self).pos <= 4 ==> *final(self) == (ObjectAttributes {
                pos: (old(self).pos + 1) as usize,
                ..*old(self)
            }),
            old(self).pos == 0 ==> r == Some(old(self).characters),
            old(self).pos == 1 ==> r == Some(old(self).lines),
            old(self).pos == 2 ==> r == Some(old(self).words),
            old(self).pos == 3 || old(self).pos == 4 ==> r is None,
    {
        if self.pos > 4 {
            None
        } else {
            self.pos = self.pos + 1;
            match self.pos {
                0 => Some(self.bytes),
                1 => Some(self.characters),
                2 => Some(self.lines),
                3 => Some(self.words),
                _ => None,
            }
        }
    }
}

/// Word count of `contents` under Unicode word-boundary segmentation, or
/// `None` when the metric is disabled. Empty content has zero words.
pub fn words(conf: &Conf, contents: &String) -> (r: Option<u64>)
    ensures
        r == spec_words_metric(*conf, contents@),
        conf.words <==> r is Some,
        conf.words && contents@.len() == 0 ==> r == Some(0u64),
{
    if conf.words {
        let n: usize = unicode_word_count(contents.as_str());
        Some(n as u64)
    } else {
        None
    }
}

/// Metric independence: each metric's result is determined by its own flag
/// and the content alone, never by another metric being enabled; a disabled
/// metric yields absence and an enabled one a concrete value.
pub proof fn lemma_metric_independence(c1: Conf, c2: Conf, s: Seq<char>)
    ensures
        c1.bytes == c2.bytes ==> spec_bytes_metric(c1, s) == spec_bytes_metric(c2, s),
        c1.characters == c2.characters ==> spec_characters_metric(c1, s)
            == spec_characters_metric(c2, s),
        c1.lines == c2.lines ==> spec_lines_metric(c1, s) == spec_lines_metric(c2, s),
        c1.words == c2.words ==> spec_words_metric(c1, s) == spec_words_metric(c2, s),
        spec_bytes_metric(c1, s) is Some <==> c1.bytes,
        spec_characters_metric(c1, s) is Some <==> c1.characters,
        spec_lines_metric(c1, s) is Some <==> c1.lines,
        spec_words_metric(c1, s) is Some <==> c1.words,
{
}

/// For content whose characters all lie in the ASCII range, the encoding
/// spends one byte per character, so the byte count equals the character
/// count.
pub proof fn lemma_ascii_byte_count(s: Seq<char>)
    requires
        vstd::utf8::is_ascii_chars(s),
    ensures
        spec_byte_count(s) == spec_char_count(s),
{
    vstd::utf8::is_ascii_chars_encode_utf8(s);
}

/// Empty content has a defined value under every enabled metric: zero bytes,
/// zero code points, and zero lines (no terminator, so no line is open).
/// The word-segment count of empty content is likewise zero, as the contract
/// of [`words`] states.
pub proof fn lemma_empty_content(c: Conf)
    ensures
        c.bytes ==> spec_bytes_metric(c, Seq::<char>::empty()) == Some(0u64),
        c.characters ==> spec_characters_metric(c, Seq::<char>::empty()) == Some(0u64),
        c.lines ==> spec_lines_metric(c, Seq::<char>::empty()) == Some(0u64),
{
    assert(spec_byte_count(Seq::<char>::empty()) == 0);
    assert(spec_line_count(Seq::<char>::empty()) == 0);
}

} // verus!
