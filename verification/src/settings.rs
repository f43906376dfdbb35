//! Runtime configuration: which metrics are enabled for an invocation.

use vstd::prelude::*;

verus! {

/// Configured runtime flags: which metrics to compute for each unit of
/// content, plus two carried-through options that no metric reads.
#[derive(Debug, PartialEq, Eq, Structural, Hash)]
pub struct Conf {
    /// Count the raw bytes of the content's UTF-8 encoding.
    pub bytes: bool,
    /// Count Unicode scalar values (code points).
    pub characters: bool,
    /// Count logical lines (a trailing terminator opens no extra line).
    pub lines: bool,
    /// Filenames are to be read from an external list file. Carried through
    /// unchanged; no behaviour depends on it yet.
    pub files_from: bool,
    /// Reserved for a maximum-line-length metric; always zero.
    pub max_line_length: u32,
    /// Count Unicode word segments.
    pub words: bool,
}

/// Resolves externally parsed flag presence into a `Conf`.
///
/// When none of bytes, lines and words was requested, all three default to
/// enabled, whether or not characters was requested; characters is never
/// defaulted on.
pub fn config(bytes: bool, lines: bool, words: bool, chars: bool, files_from: bool) -> (c: Conf)
    ensures
        !bytes && !lines && !words ==> c.bytes && c.lines && c.words,
        bytes || lines || words ==> c.bytes == bytes && c.lines == lines && c.words == words,
        c.characters == chars,
        c.files_from == files_from,
        c.max_line_length == 0,
{
    let defaulted: bool = !bytes && !lines && !words;
    Conf {
        bytes: bytes || defaulted,
        characters: chars,
        lines: lines || defaulted,
        files_from,
        max_line_length: 0,
        words: words || defaulted,
    }
}

} // verus!
