//! One invocation: seven words in, four lines or the usage text out.

use vstd::prelude::*;
use vstd::string::StringExecFns;
use crate::checked::lemma_complete_map_reports;
use crate::error::DecodeError;
use crate::map::PCIMap;
use crate::parse::{parse_cell, parse_hex};
use crate::report::Report;

verus! {

/// The number of words that describe one range.
pub const CELLS: usize = 7;

/// What an invocation prints, and the status it ends with.
#[derive(Debug, PartialEq, Eq)]
pub struct Outcome {
    /// The lines to print, in order.
    pub lines: Vec<String>,
    /// The exit status: zero for a decoded range, one for a failure.
    pub status: i32,
}

/// The two lines that say how the words are to be given.
pub open spec fn usage_text() -> Seq<Seq<char>> {
    seq!["Usage:"@, "      pci-range <cell0> <cell1> .. <cell7>"@]
}

/// Writes the usage text.
pub fn usage() -> (lines: Vec<String>)
    ensures
        lines.deep_view() == usage_text(),
        lines@.len() == 2,
{
    let mut lines: Vec<String> = Vec::new();
    lines.push(String::from_str("Usage:"));
    lines.push(String::from_str("      pci-range <cell0> <cell1> .. <cell7>"));
    assert(lines.deep_view() =~= usage_text());
    lines
}

/// The cells that a list of words denotes, word by word. A word that is no
/// numeral gives an absent cell.
pub open spec fn spec_read_cells(words: Seq<Seq<char>>) -> Seq<Option<u32>> {
    Seq::new(words.len(), |i: int| parse_hex(words[i]))
}

/// Reads each word as a cell.
pub fn read_cells(words: &[String]) -> (cells: Vec<Option<u32>>)
    ensures
        cells@ == spec_read_cells(words.deep_view()),
{
    let mut cells: Vec<Option<u32>> = Vec::new();
    let mut i: usize = 0;
    while i < words.len()
        invariant
            i <= words@.len(),
            cells@.len() == i,
            forall|k: int| 0 <= k < i ==> cells@[k] == parse_hex(#[trigger] words@[k]@),
        decreases words@.len() - i,
    {
        cells.push(parse_cell(words[i].as_str()));
        i = i + 1;
    }
    assert(cells@ =~= spec_read_cells(words.deep_view()));
    cells
}

/// What an invocation with the given words decodes to.
///
/// Any number of words but seven is a usage error. Each of the seven must
/// be a numeral: the first that is not is reported as the missing cell,
/// whether or not a field would have read it. Seven numerals always decode.
pub open spec fn spec_decode(words: Seq<Seq<char>>) -> Result<Report, DecodeError> {
    if words.len() != CELLS {
        Err(DecodeError::Usage)
    } else {
        let map = PCIMap::spec_from_cells(spec_read_cells(words));
        match map.spec_first_absent() {
            Some(c) => Err(DecodeError::MissingField(c)),
            None => map.spec_report(),
        }
    }
}

/// Decodes the words of one invocation.
pub fn decode(words: &[String]) -> (r: Result<Report, DecodeError>)
    ensures
        r == spec_decode(words.deep_view()),
        words@.len() != CELLS ==> r == Err::<Report, DecodeError>(DecodeError::Usage),
        r is Ok <==> words@.len() == CELLS && forall|i: int|
            0 <= i < CELLS ==> parse_hex(#[trigger] words@[i]@) is Some,
{
    if words.len() != CELLS {
        return Err(DecodeError::Usage);
    }
    let cells = read_cells(words);
    let map = PCIMap::from_cells(cells.as_slice());
    match map.first_absent() {
        Some(c) => {
            assert(parse_hex(words@[c.position()]@) is None);
            Err(DecodeError::MissingField(c))
        },
        None => {
            proof {
                lemma_complete_map_reports(map);
                assert forall|i: int| 0 <= i < CELLS implies parse_hex(
                    #[trigger] words@[i]@,
                ) is Some by {
                    assert(cells@[i] == parse_hex(words@[i]@));
                }
            }
            map.report()
        },
    }
}

/// What an invocation prints and how it ends: the four lines of the report
/// and status zero, or, on any error, the usage text alone and status one.
pub open spec fn spec_run(words: Seq<Seq<char>>) -> (Seq<Seq<char>>, int) {
    match spec_decode(words) {
        Ok(report) => (report.spec_lines(), 0),
        Err(_) => (usage_text(), 1),
    }
}

/// Runs one invocation on its words, the program's own name left out.
pub fn run(words: &[String]) -> (out: Outcome)
    ensures
        (out.lines.deep_view(), out.status as int) == spec_run(words.deep_view()),
        out.status == 0 <==> spec_decode(words.deep_view()) is Ok,
{
    match decode(words) {
        Ok(report) => Outcome { lines: report.lines(), status: 0 },
        Err(_) => Outcome { lines: usage(), status: 1 },
    }
}

} // verus!
