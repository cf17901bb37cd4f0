//! One counter file: its values and its modification time.
use std::path::PathBuf;
use vstd::prelude::*;

use crate::cache_field::{zero_values, CacheField, CacheFieldData, FIELD_COUNT};
use crate::collection::CacheFieldCollection;
use crate::error::ErrorKind;
use crate::text::{parse_u64, spec_parse_u64, trim_line_end, trim_line_end_text};

verus! {

/// The text of each line.
pub open spec fn line_views(lines: Seq<String>) -> Seq<Seq<char>> {
    lines.map_values(|s: String| s@)
}

/// How many lines are read: one per field at most.
pub open spec fn lines_read(lines: Seq<Seq<char>>) -> int {
    if lines.len() < FIELD_COUNT {
        lines.len() as int
    } else {
        FIELD_COUNT as int
    }
}

/// The value that line `i` holds once its terminator is trimmed, if any.
pub open spec fn line_value(lines: Seq<Seq<char>>, i: int) -> Option<u64> {
    spec_parse_u64(trim_line_end(lines[i]))
}

/// Every line that is read holds a value.
pub open spec fn all_lines_parse(lines: Seq<Seq<char>>) -> bool {
    forall|i: int| 0 <= i < lines_read(lines) ==> #[trigger] line_value(lines, i) is Some
}

/// Line `i` is the first line read that holds no value.
pub open spec fn is_first_bad_line(lines: Seq<Seq<char>>, i: int) -> bool {
    &&& 0 <= i < lines_read(lines)
    &&& line_value(lines, i) is None
    &&& forall|j: int| 0 <= j < i ==> #[trigger] line_value(lines, j) is Some
}

/// The values of the first `n` lines by ordinal, zero beyond them.
pub open spec fn values_of_lines(lines: Seq<Seq<char>>, n: int) -> Seq<u64> {
    Seq::new(FIELD_COUNT as nat, |i: int| if i < n { line_value(lines, i)->0 } else { 0u64 })
}

/// The values a counter file with these lines records: line `i` holds the
/// value of ordinal `i`; fields past the last line are zero.
pub open spec fn leaf_values(lines: Seq<Seq<char>>) -> Seq<u64> {
    values_of_lines(lines, lines_read(lines))
}

/// The counters recorded in one counter file, and when it was last modified.
#[derive(Debug, Clone, Copy)]
pub struct CacheLeaf {
    fields: CacheFieldData,
    mtime: u64,
}

impl CacheFieldCollection for CacheLeaf {
    closed spec fn spec_fields(&self) -> Seq<u64> {
        self.fields@
    }

    closed spec fn spec_mtime(&self) -> u64 {
        self.mtime
    }

    fn fields(&self) -> (r: &CacheFieldData) {
        &self.fields
    }

    fn mtime(&self) -> (r: u64) {
        self.mtime
    }
}

/// A counter file with fewer lines than there are fields, each line numeric,
/// reads successfully: each field it supplies holds the value of its line and
/// every later field is zero.
pub proof fn lemma_short_file(lines: Seq<Seq<char>>)
    requires
        lines.len() < FIELD_COUNT,
        forall|i: int| 0 <= i < lines.len() ==> #[trigger] line_value(lines, i) is Some,
    ensures
        all_lines_parse(lines),
        forall|i: int| 0 <= i < lines.len() ==> #[trigger] leaf_values(lines)[i] == line_value(lines, i)->0,
        forall|i: int| lines.len() <= i < FIELD_COUNT ==> #[trigger] leaf_values(lines)[i] == 0,
{
}

/// A non-numeric line `i`, with every line read before it numeric, is the
/// line that a failed read reports, and the read does fail.
pub proof fn lemma_bad_line_reported(lines: Seq<Seq<char>>, i: int)
    requires
        0 <= i < lines_read(lines),
        line_value(lines, i) is None,
        forall|j: int| 0 <= j < i ==> #[trigger] line_value(lines, j) is Some,
    ensures
        !all_lines_parse(lines),
        is_first_bad_line(lines, i),
        forall|j: int| #[trigger] is_first_bad_line(lines, j) ==> j == i,
{
    assert forall|j: int| #[trigger] is_first_bad_line(lines, j) implies j == i by {
        if j < i {
            assert(line_value(lines, j) is Some);
        } else if j > i {
            assert(line_value(lines, i) is Some);
        }
    }
}

/// A leaf holds exactly one value per field.
pub broadcast proof fn lemma_leaf_len(leaf: CacheLeaf)
    ensures
        #[trigger] leaf.spec_fields().len() == FIELD_COUNT,
{
    crate::cache_field::lemma_field_data_len(leaf.fields);
}

impl CacheLeaf {
    /// A leaf with the given values and modification time.
    pub fn new(fields: CacheFieldData, mtime: u64) -> (r: CacheLeaf)
        ensures
            r.spec_fields() == fields@,
            r.spec_mtime() == mtime,
    {
        CacheLeaf { fields, mtime }
    }

    /// Build the leaf of the counter file `f`, modified at `mtime`, whose
    /// lines, each with its terminator, are `lines`. Line `i` holds the value
    /// of the field whose ordinal is `i`; lines past the last field are not
    /// read, and fields past the last line are zero. The first line read that
    /// is not a `u64` fails the whole read.
    pub fn from_lines(f: PathBuf, mtime: u64, lines: &Vec<String>) -> (r: Result<CacheLeaf, ErrorKind>)
        ensures
            r is Ok <==> all_lines_parse(line_views(lines@)),
            r matches Ok(leaf) ==> leaf.spec_fields() == leaf_values(line_views(lines@))
                && leaf.spec_mtime() == mtime,
            r matches Err(e) ==> (e matches ErrorKind::ParseU64Error { input_value, input_line, input_file }
                && is_first_bad_line(line_views(lines@), input_line as int)
                && input_value@ == trim_line_end(line_views(lines@)[input_line as int])
                && input_file == f),
    {
        let ghost lv = line_views(lines@);
        let n: usize = if lines.len() < FIELD_COUNT {
            lines.len()
        } else {
            FIELD_COUNT
        };
        let mut fields = CacheFieldData::new();
        let mut i: usize = 0;
        assert(fields@ =~= values_of_lines(lv, 0));
        while i < n
            invariant
                i <= n,
                n == lines_read(lv),
                lv == line_views(lines@),
                lv.len() == lines@.len(),
                fields@ == values_of_lines(lv, i as int),
                forall|j: int| 0 <= j < i ==> #[trigger] line_value(lv, j) is Some,
            decreases n - i,
        {
            let text = trim_line_end_text(lines[i].as_str());
            assert(lv[i as int] == lines@[i as int]@);
            match parse_u64(text.as_str()) {
                Some(v) => {
                    fields.set_field(CacheField::at_ordinal(i), v);
                },
                None => {
                    assert(line_value(lv, i as int) is None);
                    return Err(ErrorKind::ParseU64Error { input_value: text, input_line: i, input_file: f });
                },
            }
            i = i + 1;
            assert(fields@ =~= values_of_lines(lv, i as int));
        }
        Ok(CacheLeaf { fields, mtime })
    }
}

impl Default for CacheLeaf {
    fn default() -> (r: CacheLeaf)
        ensures
            r.spec_fields() == zero_values(),
            r.spec_mtime() == 0,
    {
        CacheLeaf { fields: CacheFieldData::new(), mtime: 0 }
    }
}

} // verus!
