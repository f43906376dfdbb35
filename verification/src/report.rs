//! Per-file aggregation and report formatting.
//!
//! The engine is fed one resolved `Conf` and, for each named file, either its
//! full text content or the message of the failure that reading it produced.
//! Failures yield one diagnostic line each and no result entry; successes
//! yield one entry per distinct filename. The report holds the diagnostics,
//! then one line per entry, then (for a multi-file invocation with a nonzero
//! total) a totals line. Entries are reported in first-occurrence order of
//! their filenames, so output order is deterministic.

use vstd::prelude::*;

use crate::metrics::measure;
use crate::metrics::opt_nat;
use crate::metrics::spec_attrs;
use crate::metrics::ObjectAttributes;
use crate::settings::Conf;

verus! {

use vstd::string::StringExecFns;

/// The decimal digit character for `d`.
pub open spec fn spec_digit(d: int) -> char {
    if d == 0 {
        '0'
    } else if d == 1 {
        '1'
    } else if d == 2 {
        '2'
    } else if d == 3 {
        '3'
    } else if d == 4 {
        '4'
    } else if d == 5 {
        '5'
    } else if d == 6 {
        '6'
    } else if d == 7 {
        '7'
    } else if d == 8 {
        '8'
    } else {
        '9'
    }
}

/// The decimal digit string of a nonnegative `n`: most significant digit
/// first, no sign, no padding.
pub open spec fn spec_decimal(n: int) -> Seq<char>
    recommends
        n >= 0,
    decreases n,
{
    if n < 10 {
        seq![spec_digit(n)]
    } else {
        spec_decimal(n / 10).push(spec_digit(n % 10))
    }
}

/// Relies on the std `Display` implementation for `u128`: it writes the
/// value's decimal digits, most significant first, with no sign, padding or
/// separators.
#[verifier::external_body]
fn decimal_string(x: u128) -> (r: String)
    ensures
        r@ == spec_decimal(x as int),
{
    format!("{}", x)
}

/// One tab-prefixed report field: absent metrics render as nothing.
pub open spec fn spec_cell(v: Option<u64>) -> Seq<char> {
    match v {
        Some(x) => "\t"@ + spec_decimal(x as int) + " "@,
        None => Seq::empty(),
    }
}

/// One per-file report line: the present metrics in the fixed order bytes,
/// characters, lines, words, then the filename.
pub open spec fn spec_entry_line(name: Seq<char>, a: ObjectAttributes) -> Seq<char> {
    spec_cell(a.bytes) + spec_cell(a.characters) + spec_cell(a.lines) + spec_cell(a.words) + name
        + "\n"@
}

/// One diagnostic line for a file whose content could not be read.
pub open spec fn spec_diag_line(name: Seq<char>, err: Seq<char>) -> Seq<char> {
    "wc: "@ + name + " "@ + err + "\n"@
}

/// The diagnostic lines of an input list, in input order: one per failure.
pub open spec fn spec_diags(files: Seq<(String, Result<String, String>)>) -> Seq<char>
    decreases files.len(),
{
    if files.len() == 0 {
        Seq::empty()
    } else {
        spec_diags(files.drop_last()) + match files.last().1 {
            Ok(_) => Seq::<char>::empty(),
            Err(e) => spec_diag_line(files.last().0@, e@),
        }
    }
}

/// Whether `es` already holds an entry for `name`.
pub open spec fn has_entry(es: Seq<(String, ObjectAttributes)>, name: Seq<char>) -> bool {
    exists|i: int| 0 <= i < es.len() && es[i].0@ == name
}

/// The result set an input list produces: one entry per distinct filename
/// whose content was read, carrying the metrics of that content, in
/// first-occurrence order. Failed reads contribute nothing.
pub open spec fn spec_entries(c: Conf, files: Seq<(String, Result<String, String>)>) -> Seq<
    (String, ObjectAttributes),
>
    decreases files.len(),
{
    if files.len() == 0 {
        Seq::empty()
    } else {
        let rest = spec_entries(c, files.drop_last());
        match files.last().1 {
            Ok(content) => if has_entry(rest, files.last().0@) {
                rest
            } else {
                rest.push((files.last().0, spec_attrs(c, content@)))
            },
            Err(_) => rest,
        }
    }
}

/// The per-file lines of the report, one per entry, in entry order.
pub open spec fn spec_body(es: Seq<(String, ObjectAttributes)>) -> Seq<char>
    decreases es.len(),
{
    if es.len() == 0 {
        Seq::empty()
    } else {
        spec_body(es.drop_last()) + spec_entry_line(es.last().0@, es.last().1)
    }
}

/// The sum of the byte counts present in `es`.
pub open spec fn spec_total_bytes(es: Seq<(String, ObjectAttributes)>) -> nat
    decreases es.len(),
{
    if es.len() == 0 {
        0
    } else {
        spec_total_bytes(es.drop_last()) + opt_nat(es.last().1.bytes)
    }
}

/// The sum of the character counts present in `es`.
pub open spec fn spec_total_characters(es: Seq<(String, ObjectAttributes)>) -> nat
    decreases es.len(),
{
    if es.len() == 0 {
        0
    } else {
        spec_total_characters(es.drop_last()) + opt_nat(es.last().1.characters)
    }
}

/// The sum of the line counts present in `es`.
pub open spec fn spec_total_lines(es: Seq<(String, ObjectAttributes)>) -> nat
    decreases es.len(),
{
    if es.len() == 0 {
        0
    } else {
        spec_total_lines(es.drop_last()) + opt_nat(es.last().1.lines)
    }
}

/// The sum of the word counts present in `es`.
pub open spec fn spec_total_words(es: Seq<(String, ObjectAttributes)>) -> nat
    decreases es.len(),
{
    if es.len() == 0 {
        0
    } else {
        spec_total_words(es.drop_last()) + opt_nat(es.last().1.words)
    }
}

/// One totals-line field: nonzero totals render tab-prefixed, zero totals
/// (inactive metrics among them) are suppressed.
pub open spec fn spec_total_cell(t: nat) -> Seq<char> {
    if t != 0 {
        "\t"@ + spec_decimal(t as int) + " "@
    } else {
        Seq::empty()
    }
}

/// The totals line: the nonzero totals in bytes, characters, lines, words
/// order, then the literal label.
pub open spec fn spec_totals_line(es: Seq<(String, ObjectAttributes)>) -> Seq<char> {
    spec_total_cell(spec_total_bytes(es)) + spec_total_cell(spec_total_characters(es))
        + spec_total_cell(spec_total_lines(es)) + spec_total_cell(spec_total_words(es))
        + "total\n"@
}

/// The whole report of an input list: diagnostics in input order, then one
/// line per entry, then the totals line when more than one filename was
/// supplied (whether or not each was readable) and some total is nonzero.
pub open spec fn spec_report(c: Conf, files: Seq<(String, Result<String, String>)>) -> Seq<char> {
    let es = spec_entries(c, files);
    spec_diags(files) + spec_body(es) + if files.len() > 1 && spec_total_bytes(es)
        + spec_total_characters(es) + spec_total_lines(es) + spec_total_words(es) > 0 {
        spec_totals_line(es)
    } else {
        Seq::<char>::empty()
    }
}

fn render_cell(out: &mut String, v: Option<u64>)
    ensures
        final(out)@ == old(out)@ + spec_cell(v),
{
    match v {
        Some(x) => {
            out.append("\t");
            let d = decimal_string(x as u128);
            out.append(d.as_str());
            out.append(" ");
            proof {
                assert(out@ =~= old(out)@ + spec_cell(v));
            }
        },
        None => {
            proof {
                assert(out@ =~= old(out)@ + spec_cell(v));
            }
        },
    }
}

fn render_entry(out: &mut String, name: &String, a: &ObjectAttributes)
    ensures
        final(out)@ == old(out)@ + spec_entry_line(name@, *a),
{
    render_cell(out, a.bytes);
    render_cell(out, a.characters);
    render_cell(out, a.lines);
    render_cell(out, a.words);
    out.append(name.as_str());
    out.append("\n");
    proof {
        assert(out@ =~= old(out)@ + spec_entry_line(name@, *a));
    }
}

fn render_diag(out: &mut String, name: &String, err: &String)
    ensures
        final(out)@ == old(out)@ + spec_diag_line(name@, err@),
{
    out.append("wc: ");
    out.append(name.as_str());
    out.append(" ");
    out.append(err.as_str());
    out.append("\n");
    proof {
        assert(out@ =~= old(out)@ + spec_diag_line(name@, err@));
    }
}

fn render_total_cell(out: &mut String, t: u128)
    ensures
        final(out)@ == old(out)@ + spec_total_cell(t as nat),
{
    if t != 0 {
        out.append("\t");
        let d = decimal_string(t);
        out.append(d.as_str());
        out.append(" ");
        proof {
            assert(out@ =~= old(out)@ + spec_total_cell(t as nat));
        }
    } else {
        proof {
            assert(out@ =~= old(out)@ + spec_total_cell(t as nat));
        }
    }
}

fn contains_name(es: &Vec<(String, ObjectAttributes)>, name: &String) -> (r: bool)
    ensures
        r == has_entry(es@, name@),
{
    let mut j: usize = 0;
    while j < es.len()
        invariant
            j <= es@.len(),
            forall|k: int| 0 <= k < j ==> es@[k].0@ != name@,
        decreases es@.len() - j,
    {
        if es[j].0 == *name {
            proof {
                assert(es@[j as int].0@ == name@);
            }
            return true;
        }
        j = j + 1;
    }
    false
}

/// Builds the result set of an input list: the metrics of each readable
/// file's content, one entry per distinct filename, in first-occurrence
/// order. Failed reads are skipped here; their diagnostics are the report's
/// concern.
pub fn compute_entries(conf: &Conf, files: &Vec<(String, Result<String, String>)>) -> (es: Vec<
    (String, ObjectAttributes),
>)
    ensures
        es@ == spec_entries(*conf, files@),
{
    let mut es: Vec<(String, ObjectAttributes)> = Vec::new();
    let mut i: usize = 0;
    while i < files.len()
        invariant
            i <= files@.len(),
            es@ == spec_entries(*conf, files@.take(i as int)),
        decreases files@.len() - i,
    {
        proof {
            assert(files@.take(i + 1).drop_last() =~= files@.take(i as int));
            assert(files@.take(i + 1).last() == files@[i as int]);
        }
        let entry = &files[i];
        match &entry.1 {
            Ok(content) => {
                if !contains_name(&es, &entry.0) {
                    let name = entry.0.clone();
                    let attrs = measure(conf, content);
                    es.push((name, attrs));
                }
            },
            Err(_) => {},
        }
        i = i + 1;
    }
    proof {
        assert(files@.take(files@.len() as int) =~= files@);
    }
    es
}

/// Sums the present metric values of `es` into the four totals slots, in
/// bytes, characters, lines, words order. The sums are exact: each summand
/// fits 64 bits and there are at most `usize::MAX` entries, so 128-bit
/// accumulators cannot wrap.
fn compute_totals(es: &Vec<(String, ObjectAttributes)>) -> (t: (u128, u128, u128, u128))
    ensures
        t.0 as nat == spec_total_bytes(es@),
        t.1 as nat == spec_total_characters(es@),
        t.2 as nat == spec_total_lines(es@),
        t.3 as nat == spec_total_words(es@),
{
    let mut tb: u128 = 0;
    let mut tc: u128 = 0;
    let mut tl: u128 = 0;
    let mut tw: u128 = 0;
    let mut j: usize = 0;
    while j < es.len()
        invariant
            j <= es@.len(),
            tb as nat == spec_total_bytes(es@.take(j as int)),
            tc as nat == spec_total_characters(es@.take(j as int)),
            tl as nat == spec_total_lines(es@.take(j as int)),
            tw as nat == spec_total_words(es@.take(j as int)),
            tb as int <= j as int * 0xffff_ffff_ffff_ffff,
            tc as int <= j as int * 0xffff_ffff_ffff_ffff,
            tl as int <= j as int * 0xffff_ffff_ffff_ffff,
            tw as int <= j as int * 0xffff_ffff_ffff_ffff,
        decreases es@.len() - j,
    {
        proof {
            assert(es@.take(j + 1).drop_last() =~= es@.take(j as int));
            assert(es@.take(j + 1).last() == es@[j as int]);
            assert((j as int + 1) * 0xffff_ffff_ffff_ffff <= 0xffff_ffff_ffff_ffff
                * 0xffff_ffff_ffff_ffff);
        }
        let a = &es[j].1;
        match a.bytes {
            Some(v) => {
                tb = tb + v as u128;
            },
            None => {},
        }
        match a.characters {
            Some(v) => {
                tc = tc + v as u128;
            },
            None => {},
        }
        match a.lines {
            Some(v) => {
                tl = tl + v as u128;
            },
            None => {},
        }
        match a.words {
            Some(v) => {
                tw = tw + v as u128;
            },
            None => {},
        }
        j = j + 1;
    }
    proof {
        assert(es@.take(es@.len() as int) =~= es@);
    }
    (tb, tc, tl, tw)
}

/// The whole engine run over an already-read input list: each list element
/// pairs a filename with its full text content, or with the message of the
/// failure that reading it produced. The returned report holds one
/// diagnostic line per failure in input order, then one line per entry of
/// the result set, then the totals line when more than one filename was
/// supplied and some total is nonzero.
pub fn read_files(conf: &Conf, files: &Vec<(String, Result<String, String>)>) -> (out: String)
    ensures
        out@ == spec_report(*conf, files@),
{
    let mut out = String::new();
    let mut i: usize = 0;
    proof {
        assert(files@.take(0) =~= Seq::<(String, Result<String, String>)>::empty());
    }
    while i < files.len()
        invariant
            i <= files@.len(),
            out@ == spec_diags(files@.take(i as int)),
        decreases files@.len() - i,
    {
        proof {
            assert(files@.take(i + 1).drop_last() =~= files@.take(i as int));
            assert(files@.take(i + 1).last() == files@[i as int]);
        }
        let entry = &files[i];
        match &entry.1 {
            Ok(_) => {},
            Err(e) => {
                render_diag(&mut out, &entry.0, e);
            },
        }
        i = i + 1;
        proof {
            assert(out@ =~= spec_diags(files@.take(i as int)));
        }
    }
    proof {
        assert(files@.take(files@.len() as int) =~= files@);
    }
    let es = compute_entries(conf, files);
    let mut j: usize = 0;
    proof {
        assert(es@.take(0) =~= Seq::<(String, ObjectAttributes)>::empty());
        assert(out@ =~= spec_diags(files@) + spec_body(es@.take(0)));
    }
    while j < es.len()
        invariant
            j <= es@.len(),
            es@ == spec_entries(*conf, files@),
            out@ == spec_diags(files@) + spec_body(es@.take(j as int)),
        decreases es@.len() - j,
    {
        proof {
            assert(es@.take(j + 1).drop_last() =~= es@.take(j as int));
            assert(es@.take(j + 1).last() == es@[j as int]);
        }
        let entry = &es[j];
        render_entry(&mut out, &entry.0, &entry.1);
        j = j + 1;
        proof {
            assert(out@ =~= spec_diags(files@) + spec_body(es@.take(j as int)));
        }
    }
    proof {
        assert(es@.take(es@.len() as int) =~= es@);
    }
    let totals = compute_totals(&es);
    let (tb, tc, tl, tw) = totals;
    if files.len() > 1 && (tb > 0 || tc > 0 || tl > 0 || tw > 0) {
        render_total_cell(&mut out, tb);
        render_total_cell(&mut out, tc);
        render_total_cell(&mut out, tl);
        render_total_cell(&mut out, tw);
        out.append("total\n");
        proof {
            assert(out@ =~= spec_report(*conf, files@));
        }
    } else {
        proof {
            assert(out@ =~= spec_report(*conf, files@));
        }
    }
    out
}

/// Determinism of the engine: the report is a function of the configuration
/// and the file contents alone, so two runs over identical, unmodified
/// content produce identical output.
pub proof fn lemma_report_deterministic(
    c: Conf,
    files: Seq<(String, Result<String, String>)>,
    o1: Seq<char>,
    o2: Seq<char>,
)
    requires
        o1 == spec_report(c, files),
        o2 == spec_report(c, files),
    ensures
        o1 == o2,
{
}

} // verus!
