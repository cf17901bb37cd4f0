//! A cache directory: one root counter file and sixteen shard counter files,
//! merged into one snapshot.
use vstd::prelude::*;

use crate::cache_field::{zero_values, CacheField, CacheFieldData, FIELD_COUNT};
use crate::collection::CacheFieldCollection;
use crate::error::ErrorKind;
use crate::leaf::CacheLeaf;

verus! {

broadcast use crate::cache_field::lemma_field_data_len;

/// Number of shard subdirectories, named by one lowercase hexadecimal digit.
pub const SHARD_COUNT: u32 = 16;

/// Ordinal of the field that records when the statistics were last zeroed.
pub open spec fn zero_stamp_ordinal() -> int {
    CacheField::ZeroTimeStamp.ordinal()
}

/// The merge of leaf values `leaf` into snapshot values `acc`: the
/// zero-timestamp field keeps the larger of the two, every other field the sum.
pub open spec fn merged_values(acc: Seq<u64>, leaf: Seq<u64>) -> Seq<u64> {
    Seq::new(
        FIELD_COUNT as nat,
        |i: int|
            if i == zero_stamp_ordinal() {
                if acc[i] < leaf[i] {
                    leaf[i]
                } else {
                    acc[i]
                }
            } else {
                (acc[i] + leaf[i]) as u64
            },
    )
}

/// Every sum that merging `leaf` into `acc` forms fits in 64 bits.
pub open spec fn merge_fits(acc: Seq<u64>, leaf: Seq<u64>) -> bool {
    forall|i: int|
        0 <= i < FIELD_COUNT && i != zero_stamp_ordinal() ==> #[trigger] acc[i] + #[trigger] leaf[i]
            <= u64::MAX
}

/// The lowercase hexadecimal digit of `i`.
pub open spec fn hex_digit(i: int) -> char
    recommends
        0 <= i < 16,
{
    if i < 10 {
        (i + 48) as char
    } else {
        (i + 87) as char
    }
}

/// The larger of two times.
pub open spec fn later(a: u64, b: u64) -> u64 {
    if a < b {
        b
    } else {
        a
    }
}

/// Merging is independent of order: merging `a` then `b` gives the same
/// values as merging `b` then `a`, when the sums fit.
pub proof fn lemma_merge_commutes(acc: Seq<u64>, a: Seq<u64>, b: Seq<u64>)
    requires
        acc.len() == FIELD_COUNT,
        forall|i: int|
            0 <= i < FIELD_COUNT && i != zero_stamp_ordinal() ==> #[trigger] acc[i] + #[trigger] a[i] + #[trigger] b[i]
                <= u64::MAX,
    ensures
        merged_values(merged_values(acc, a), b) == merged_values(merged_values(acc, b), a),
{
    assert(merged_values(merged_values(acc, a), b) =~= merged_values(merged_values(acc, b), a));
}

/// What reading one candidate counter file of a directory gave.
#[derive(Debug)]
pub enum LeafRead {
    /// The file was read.
    Found(CacheLeaf),
    /// The file does not exist; it contributes nothing.
    Missing,
    /// Reading the file failed otherwise.
    Failed(ErrorKind),
}

/// The snapshot, as values and modification time, after one more candidate
/// file gave `read`; an error ends the whole read.
pub open spec fn step(state: (Seq<u64>, u64), read: LeafRead) -> Result<(Seq<u64>, u64), ErrorKind> {
    match read {
        LeafRead::Found(leaf) => Ok(
            (merged_values(state.0, leaf.spec_fields()), later(state.1, leaf.spec_mtime())),
        ),
        LeafRead::Missing => Ok(state),
        LeafRead::Failed(e) => Err(e),
    }
}

/// The result of reading a directory whose candidate files gave `reads`, in
/// order, starting from an empty snapshot.
pub open spec fn aggregate(reads: Seq<LeafRead>) -> Result<(Seq<u64>, u64), ErrorKind>
    decreases reads.len(),
{
    if reads.len() == 0 {
        Ok((zero_values(), 0))
    } else {
        match aggregate(reads.drop_last()) {
            Ok(state) => step(state, reads.last()),
            Err(e) => Err(e),
        }
    }
}

/// The sum of field `i` over the files found.
pub open spec fn field_total(reads: Seq<LeafRead>, i: int) -> int
    decreases reads.len(),
{
    if reads.len() == 0 {
        0
    } else {
        field_total(reads.drop_last(), i) + match reads.last() {
            LeafRead::Found(leaf) => leaf.spec_fields()[i] as int,
            _ => 0,
        }
    }
}

/// The largest value of field `i` over the files found, zero if none.
pub open spec fn field_latest(reads: Seq<LeafRead>, i: int) -> u64
    decreases reads.len(),
{
    if reads.len() == 0 {
        0
    } else {
        match reads.last() {
            LeafRead::Found(leaf) => later(field_latest(reads.drop_last(), i), leaf.spec_fields()[i]),
            _ => field_latest(reads.drop_last(), i),
        }
    }
}

/// The latest modification time over the files found, zero if none.
pub open spec fn latest_mtime(reads: Seq<LeafRead>) -> u64
    decreases reads.len(),
{
    if reads.len() == 0 {
        0
    } else {
        match reads.last() {
            LeafRead::Found(leaf) => later(latest_mtime(reads.drop_last()), leaf.spec_mtime()),
            _ => latest_mtime(reads.drop_last()),
        }
    }
}

/// No candidate file failed to be read.
pub open spec fn no_failure(reads: Seq<LeafRead>) -> bool {
    forall|j: int| 0 <= j < reads.len() ==> !(#[trigger] reads[j] is Failed)
}

/// The sums of the files found fit in 64 bits.
pub open spec fn totals_fit(reads: Seq<LeafRead>) -> bool {
    forall|i: int|
        0 <= i < FIELD_COUNT && i != zero_stamp_ordinal() ==> #[trigger] field_total(reads, i)
            <= u64::MAX
}

/// The values of a snapshot of the files found: the largest for the
/// zero-timestamp field, the sum for every other field.
pub open spec fn expected_values(reads: Seq<LeafRead>) -> Seq<u64> {
    Seq::new(
        FIELD_COUNT as nat,
        |i: int|
            if i == zero_stamp_ordinal() {
                field_latest(reads, i)
            } else {
                field_total(reads, i) as u64
            },
    )
}

proof fn lemma_field_total_grows(reads: Seq<LeafRead>, i: int)
    requires
        reads.len() > 0,
    ensures
        0 <= field_total(reads.drop_last(), i) <= field_total(reads, i),
    decreases reads.len(),
{
    if reads.len() > 1 {
        lemma_field_total_grows(reads.drop_last(), i);
    }
}

/// A directory read succeeds unless some candidate file failed to be read:
/// files that do not exist never make it fail.
pub proof fn lemma_only_failures_fail(reads: Seq<LeafRead>)
    requires
        no_failure(reads),
    ensures
        aggregate(reads) is Ok,
    decreases reads.len(),
{
    if reads.len() > 0 {
        assert(no_failure(reads.drop_last()));
        lemma_only_failures_fail(reads.drop_last());
        assert(!(reads[reads.len() - 1] is Failed));
    }
}

/// A file that does not exist contributes nothing, wherever it stands: in
/// particular a missing root file leaves the merge of the shards as it is.
pub proof fn lemma_missing_contributes_nothing(a: Seq<LeafRead>, b: Seq<LeafRead>)
    ensures
        aggregate(a + seq![LeafRead::Missing] + b) == aggregate(a + b),
    decreases b.len(),
{
    if b.len() == 0 {
        assert((a + seq![LeafRead::Missing] + b).drop_last() =~= a);
        assert(a + b =~= a);
    } else {
        lemma_missing_contributes_nothing(a, b.drop_last());
        assert((a + seq![LeafRead::Missing] + b).drop_last() =~= a + seq![LeafRead::Missing] + b.drop_last());
        assert((a + b).drop_last() =~= a + b.drop_last());
    }
}

/// Reading a directory whose candidate files all read or are missing gives,
/// for the zero-timestamp field, the largest of the values found; for every
/// other field, their sum; and the latest modification time of the files found.
pub proof fn lemma_aggregate_merges(reads: Seq<LeafRead>)
    requires
        no_failure(reads),
        totals_fit(reads),
    ensures
        aggregate(reads) == Ok::<(Seq<u64>, u64), ErrorKind>((expected_values(reads), latest_mtime(reads))),
    decreases reads.len(),
{
    broadcast use crate::leaf::lemma_leaf_len;
    if reads.len() == 0 {
        assert(expected_values(reads) =~= zero_values());
    } else {
        let prev = reads.drop_last();
        assert(no_failure(prev));
        assert forall|i: int| 0 <= i < FIELD_COUNT && i != zero_stamp_ordinal() implies #[trigger] field_total(prev, i)
            <= u64::MAX by {
            lemma_field_total_grows(reads, i);
        }
        lemma_aggregate_merges(prev);
        assert(!(reads[reads.len() - 1] is Failed));
        match reads.last() {
            LeafRead::Found(leaf) => {
                assert forall|i: int| 0 <= i < FIELD_COUNT && i != zero_stamp_ordinal() implies #[trigger] expected_values(prev)[i]
                    + #[trigger] leaf.spec_fields()[i] <= u64::MAX && expected_values(prev)[i] + leaf.spec_fields()[i]
                    == field_total(reads, i) by {
                    lemma_field_total_grows(reads, i);
                }
                assert(merge_fits(expected_values(prev), leaf.spec_fields()));
                assert(merged_values(expected_values(prev), leaf.spec_fields()) =~= expected_values(reads));
            },
            _ => {
                assert(expected_values(prev) =~= expected_values(reads));
            },
        }
    }
}

/// The statistics of a whole cache directory.
#[derive(Debug, Clone, Copy)]
pub struct CacheDir {
    fields: CacheFieldData,
    mtime: u64,
}

impl CacheFieldCollection for CacheDir {
    closed spec fn spec_fields(&self) -> Seq<u64> {
        self.fields@
    }

    closed spec fn spec_mtime(&self) -> u64 {
        self.mtime
    }

    fn fields(&self) -> (r: &CacheFieldData) {
        &self.fields
    }

    fn mtime(&self) -> (r: u64) {
        self.mtime
    }
}

impl Default for CacheDir {
    fn default() -> (r: CacheDir)
        ensures
            r.spec_fields() == zero_values(),
            r.spec_mtime() == 0,
    {
        CacheDir { fields: CacheFieldData::new(), mtime: 0 }
    }
}

impl CacheDir {
    /// Combine `value` into the snapshot's value of `field`.
    fn stash_field(&mut self, field: CacheField, value: u64)
        requires
            field != CacheField::ZeroTimeStamp ==> old(self).fields@[field.ordinal()] + value <= u64::MAX,
        ensures
            final(self).mtime == old(self).mtime,
            final(self).fields@ == old(self).fields@.update(
                field.ordinal(),
                if field == CacheField::ZeroTimeStamp {
                    later(old(self).fields@[field.ordinal()], value)
                } else {
                    (old(self).fields@[field.ordinal()] + value) as u64
                },
            ),
    {
        let current_value = self.fields.get_field(field);
        match field {
            CacheField::ZeroTimeStamp => {
                if value > current_value {
                    self.fields.set_field(field, value);
                } else {
                    assert(self.fields@ =~= old(self).fields@.update(field.ordinal(), current_value));
                }
            },
            _ => {
                self.fields.set_field(field, current_value + value);
            },
        }
    }

    /// Take in what reading one candidate counter file gave: merge a leaf
    /// that was read, skip a file that does not exist, and hand back any
    /// other failure, leaving the snapshot as it was.
    pub fn add_leaf(&mut self, read: LeafRead) -> (r: Result<(), ErrorKind>)
        requires
            read matches LeafRead::Found(leaf) ==> merge_fits(old(self).spec_fields(), leaf.spec_fields()),
        ensures
            match step((old(self).spec_fields(), old(self).spec_mtime()), read) {
                Ok(state) => r is Ok && final(self).spec_fields() == state.0 && final(self).spec_mtime()
                    == state.1,
                Err(e) => r == Err::<(), ErrorKind>(e) && final(self).spec_fields() == old(
                    self,
                ).spec_fields() && final(self).spec_mtime() == old(self).spec_mtime(),
            },
    {
        match read {
            LeafRead::Found(leaf) => {
                self.merge_leaf(&leaf);
                Ok(())
            },
            LeafRead::Missing => Ok(()),
            LeafRead::Failed(e) => Err(e),
        }
    }

    /// The name of shard subdirectory `i`: its lowercase hexadecimal digit.
    pub fn shard_dir_name(i: u32) -> (r: char)
        requires
            i < SHARD_COUNT,
        ensures
            r == hex_digit(i as int),
    {
        if i < 10 {
            ((i as u8) + 48u8) as char
        } else {
            ((i as u8) + 87u8) as char
        }
    }

    /// Whether merging `leaf` into this snapshot keeps every sum in 64 bits.
    pub fn can_merge(&self, leaf: &CacheLeaf) -> (r: bool)
        ensures
            r == merge_fits(self.spec_fields(), leaf.spec_fields()),
    {
        let mut i: usize = 0;
        while i < FIELD_COUNT
            invariant
                i <= FIELD_COUNT,
                forall|j: int|
                    0 <= j < i && j != zero_stamp_ordinal() ==> #[trigger] self.spec_fields()[j]
                        + #[trigger] leaf.spec_fields()[j] <= u64::MAX,
            decreases FIELD_COUNT - i,
        {
            let field = CacheField::at_ordinal(i);
            if i != CacheField::ZeroTimeStamp.as_usize() {
                let a = self.fields.get_field(field);
                let b = leaf.fields().get_field(field);
                if a > u64::MAX - b {
                    return false;
                }
            }
            i = i + 1;
        }
        true
    }

    /// Merge the values and modification time of `leaf` into this snapshot.
    pub fn merge_leaf(&mut self, leaf: &CacheLeaf)
        requires
            merge_fits(old(self).spec_fields(), leaf.spec_fields()),
        ensures
            final(self).spec_fields() == merged_values(old(self).spec_fields(), leaf.spec_fields()),
            final(self).spec_mtime() == later(old(self).spec_mtime(), leaf.spec_mtime()),
    {
        let ghost acc = self.fields@;
        let ghost lf = leaf.spec_fields();
        let mut i: usize = 0;
        while i < FIELD_COUNT
            invariant
                i <= FIELD_COUNT,
                acc.len() == FIELD_COUNT,
                lf == leaf.spec_fields(),
                self.mtime == old(self).mtime,
                merge_fits(acc, lf),
                self.fields@ == merged_values(acc, lf).take(i as int) + acc.skip(i as int),
            decreases FIELD_COUNT - i,
        {
            let field = CacheField::at_ordinal(i);
            let value = leaf.fields().get_field(field);
            assert(self.fields@[i as int] == acc[i as int]);
            self.stash_field(field, value);
            i = i + 1;
            assert(self.fields@ =~= merged_values(acc, lf).take(i as int) + acc.skip(i as int));
        }
        assert(self.fields@ =~= merged_values(acc, lf));
        if self.mtime < leaf.mtime() {
            self.mtime = leaf.mtime();
        }
    }
}

} // verus!
