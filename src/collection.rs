//! What a leaf record and a directory snapshot have in common: a value for
//! every field and a modification time, and their renderings.
use vstd::prelude::*;
use vstd::string::StringExecFns;

use crate::cache_field::{display_order, lemma_field_orders, CacheField, CacheFieldData, CacheFieldFormat, FIELD_COUNT};
use crate::clock::local_time_text;
use crate::text::{decimal, pad_end, pad_start, push_decimal, push_padded_end, push_padded_start};
use crate::value_format::{opt_view, timestamp_text, timestamp_text_with_local, value_text};

verus! {

/// Width of the label column of the human-readable rendering.
pub const LABEL_WIDTH: usize = 30;

/// Width of the value column of the human-readable rendering.
pub const VALUE_WIDTH: usize = 9;

/// The (field, value) pairs in display order.
pub open spec fn display_pairs(values: Seq<u64>) -> Seq<(CacheField, u64)> {
    Seq::new(
        FIELD_COUNT as nat,
        |i: int| (display_order()[i], values[display_order()[i].ordinal()]),
    )
}

/// The first line of the machine-readable rendering.
pub open spec fn raw_header(mtime: u64) -> Seq<char> {
    "stats_updated_timestamp"@ + seq!['\t'] + decimal(mtime as nat) + seq!['\n']
}

/// The line of field `k` with value `v` in the machine-readable rendering.
pub open spec fn raw_line(k: CacheField, v: u64) -> Seq<char> {
    k.spec_metadata().id@ + seq!['\t'] + decimal(v as nat) + seq!['\n']
}

/// Field `k` has a line in the machine-readable rendering: it is not
/// never-shown.
pub open spec fn raw_shown(k: CacheField) -> bool {
    !k.spec_metadata().never_shown()
}

/// Field `k` with value `v` has a line in the human-readable rendering: it is
/// not never-shown, and its value is not zero unless it is always-shown.
pub open spec fn pretty_shown(k: CacheField, v: u64) -> bool {
    !k.spec_metadata().never_shown() && (k.spec_metadata().always_shown() || v != 0)
}

/// The fields among the first `n` in display order that the machine-readable
/// rendering shows, in display order.
pub open spec fn raw_fields_upto(n: int) -> Seq<CacheField>
    decreases n,
{
    if n <= 0 {
        Seq::empty()
    } else {
        let k = display_order()[n - 1];
        if raw_shown(k) {
            raw_fields_upto(n - 1).push(k)
        } else {
            raw_fields_upto(n - 1)
        }
    }
}

/// The fields among the first `n` in display order that the human-readable
/// rendering shows for `values`, in display order.
pub open spec fn pretty_fields_upto(values: Seq<u64>, n: int) -> Seq<CacheField>
    decreases n,
{
    if n <= 0 {
        Seq::empty()
    } else {
        let k = display_order()[n - 1];
        if pretty_shown(k, values[k.ordinal()]) {
            pretty_fields_upto(values, n - 1).push(k)
        } else {
            pretty_fields_upto(values, n - 1)
        }
    }
}

/// The fields that the machine-readable rendering shows, in display order.
pub open spec fn raw_fields() -> Seq<CacheField> {
    raw_fields_upto(FIELD_COUNT as int)
}

/// The fields that the human-readable rendering shows for `values`, in
/// display order.
pub open spec fn pretty_fields(values: Seq<u64>) -> Seq<CacheField> {
    pretty_fields_upto(values, FIELD_COUNT as int)
}

/// The machine-readable lines of `fields`, in their order.
pub open spec fn raw_lines(fields: Seq<CacheField>, values: Seq<u64>) -> Seq<char>
    decreases fields.len(),
{
    if fields.len() == 0 {
        Seq::empty()
    } else {
        let k = fields.last();
        raw_lines(fields.drop_last(), values) + raw_line(k, values[k.ordinal()])
    }
}

/// The machine-readable rendering: the modification time, then one line per
/// field in display order, except the fields never shown.
pub open spec fn raw_rendering(values: Seq<u64>, mtime: u64) -> Seq<char> {
    raw_header(mtime) + raw_lines(raw_fields(), values)
}

/// One line of the human-readable rendering: the label left-aligned, the
/// value right-aligned.
pub open spec fn pretty_line(label: Seq<char>, text: Seq<char>) -> Seq<char> {
    pad_end(label, LABEL_WIDTH as nat) + seq![' '] + pad_start(text, VALUE_WIDTH as nat) + seq!['\n']
}

/// The human-readable lines of `fields`, in their order, where `locals[i]` is
/// the local wall-clock text of the value of the field at display position `i`.
pub open spec fn pretty_lines(
    fields: Seq<CacheField>,
    values: Seq<u64>,
    locals: Seq<Option<Seq<char>>>,
) -> Seq<char>
    decreases fields.len(),
{
    if fields.len() == 0 {
        Seq::empty()
    } else {
        let k = fields.last();
        pretty_lines(fields.drop_last(), values, locals) + pretty_line(
            k.spec_metadata().message@,
            value_text(k, values[k.ordinal()] as nat, locals[k.display_position()]),
        )
    }
}

/// The human-readable rendering: the modification time, then one line per
/// field shown, in display order. `mtime_local` is the local wall-clock text
/// of the modification time, `locals[i]` that of the value at display position `i`.
pub open spec fn pretty_rendering(
    values: Seq<u64>,
    mtime: u64,
    mtime_local: Option<Seq<char>>,
    locals: Seq<Option<Seq<char>>>,
) -> Seq<char> {
    pretty_line("stats updated"@, timestamp_text(mtime as nat, mtime_local)) + pretty_lines(
        pretty_fields(values),
        values,
        locals,
    )
}

proof fn lemma_raw_fields_upto(n: int, k: CacheField)
    requires
        0 <= n <= FIELD_COUNT,
    ensures
        raw_fields_upto(n).contains(k) <==> k.display_position() < n && raw_shown(k),
    decreases n,
{
    lemma_field_orders();
    if n > 0 {
        lemma_raw_fields_upto(n - 1, k);
        let j = display_order()[n - 1];
        if raw_shown(j) {
            assert(raw_fields_upto(n)[raw_fields_upto(n - 1).len() as int] == j);
            assert forall|x: CacheField| raw_fields_upto(n).contains(x) <==> raw_fields_upto(n - 1).contains(x)
                || x == j by {
                let prev = raw_fields_upto(n - 1);
                if prev.contains(x) {
                    let t = choose|t: int| 0 <= t < prev.len() && #[trigger] prev[t] == x;
                    assert(raw_fields_upto(n)[t] == x);
                }
            }
        }
    }
}

proof fn lemma_pretty_fields_upto(values: Seq<u64>, n: int, k: CacheField)
    requires
        0 <= n <= FIELD_COUNT,
    ensures
        pretty_fields_upto(values, n).contains(k) <==> k.display_position() < n && pretty_shown(
            k,
            values[k.ordinal()],
        ),
    decreases n,
{
    lemma_field_orders();
    if n > 0 {
        lemma_pretty_fields_upto(values, n - 1, k);
        let j = display_order()[n - 1];
        if pretty_shown(j, values[j.ordinal()]) {
            let prev = pretty_fields_upto(values, n - 1);
            assert(pretty_fields_upto(values, n)[prev.len() as int] == j);
            assert forall|x: CacheField| pretty_fields_upto(values, n).contains(x) <==> prev.contains(x)
                || x == j by {
                if prev.contains(x) {
                    let t = choose|t: int| 0 <= t < prev.len() && #[trigger] prev[t] == x;
                    assert(pretty_fields_upto(values, n)[t] == x);
                }
            }
        }
    }
}

/// Visibility in the two renderings: the machine-readable one shows every
/// field that is not never-shown, whatever its value; the human-readable one
/// shows a field exactly when it is not never-shown and its value is not zero
/// unless it is always-shown. So a zero value is left out of the
/// human-readable rendering unless always-shown.
pub proof fn lemma_rendering_visibility(values: Seq<u64>, k: CacheField)
    ensures
        raw_fields().contains(k) <==> !k.spec_metadata().never_shown(),
        pretty_fields(values).contains(k) <==> !k.spec_metadata().never_shown() && (
        k.spec_metadata().always_shown() || values[k.ordinal()] != 0),
        values[k.ordinal()] == 0 ==> (pretty_fields(values).contains(k)
            <==> !k.spec_metadata().never_shown() && k.spec_metadata().always_shown()),
{
    lemma_field_orders();
    lemma_raw_fields_upto(FIELD_COUNT as int, k);
    lemma_pretty_fields_upto(values, FIELD_COUNT as int, k);
}

/// The views of optional strings.
pub open spec fn opt_views(v: Seq<Option<String>>) -> Seq<Option<Seq<char>>> {
    v.map_values(|o: Option<String>| opt_view(o))
}

fn push_pretty_line(out: &mut String, label: &str, text: &str)
    ensures
        final(out)@ == old(out)@ + pretty_line(label@, text@),
{
    push_padded_end(out, label, LABEL_WIDTH);
    out.push(' ');
    push_padded_start(out, text, VALUE_WIDTH);
    out.push('\n');
    assert(out@ =~= old(out)@ + pretty_line(label@, text@));
}

/// A thing that exposes a value for every field and the time it was last
/// modified.
pub trait CacheFieldCollection {
    /// The values, by ordinal.
    spec fn spec_fields(&self) -> Seq<u64>;

    /// Seconds since the epoch at the last modification.
    spec fn spec_mtime(&self) -> u64;

    /// The values recorded for this thing.
    fn fields(&self) -> (r: &CacheFieldData)
        ensures
            r@ == self.spec_fields(),
    ;

    /// Seconds since the epoch (UTC) at the last modification.
    fn mtime(&self) -> (r: u64)
        ensures
            r == self.spec_mtime(),
    ;

    /// The value of field `f`.
    fn get_field(&self, f: CacheField) -> (r: u64)
        ensures
            r == self.spec_fields()[f.ordinal()],
    {
        self.fields().get_field(f)
    }

    /// The (field, value) pairs in display order.
    fn iter(&self) -> (r: Vec<(CacheField, u64)>)
        ensures
            r@ == display_pairs(self.spec_fields()),
    {
        let values = self.fields();
        let mut r: Vec<(CacheField, u64)> = Vec::new();
        let mut i: usize = 0;
        while i < FIELD_COUNT
            invariant
                i <= FIELD_COUNT,
                values@ == self.spec_fields(),
                r@ == display_pairs(self.spec_fields()).take(i as int),
            decreases FIELD_COUNT - i,
        {
            let k = CacheField::at_display_position(i);
            r.push((k, values.get_field(k)));
            i = i + 1;
            assert(r@ =~= display_pairs(self.spec_fields()).take(i as int));
        }
        assert(r@ =~= display_pairs(self.spec_fields()));
        r
    }

    /// The machine-readable rendering: a line `stats_updated_timestamp`, tab,
    /// the modification time; then, in display order, a line of identifier,
    /// tab and value for each field that is not never-shown.
    fn raw_text(&self) -> (r: String)
        ensures
            r@ == raw_rendering(self.spec_fields(), self.spec_mtime()),
    {
        let values = self.fields();
        let mut out = String::new();
        out.append("stats_updated_timestamp");
        out.push('\t');
        push_decimal(&mut out, self.mtime());
        out.push('\n');
        let ghost header = out@;
        assert(header =~= raw_header(self.spec_mtime()));
        let mut i: usize = 0;
        while i < FIELD_COUNT
            invariant
                i <= FIELD_COUNT,
                values@ == self.spec_fields(),
                header == raw_header(self.spec_mtime()),
                out@ == header + raw_lines(raw_fields_upto(i as int), self.spec_fields()),
            decreases FIELD_COUNT - i,
        {
            let k = CacheField::at_display_position(i);
            let meta = k.metadata();
            if !meta.is_flag_never() {
                out.append(meta.id);
                out.push('\t');
                push_decimal(&mut out, values.get_field(k));
                out.push('\n');
            }
            proof {
                let prev = raw_fields_upto(i as int);
                assert(prev.push(k).drop_last() =~= prev);
            }
            i = i + 1;
            assert(out@ =~= header + raw_lines(raw_fields_upto(i as int), self.spec_fields()));
        }
        out
    }

    /// The human-readable rendering, given the local wall-clock texts: a line
    /// `stats updated` with the modification time (rendered from
    /// `mtime_local`); then, in display order, a line of label and formatted
    /// value for each field that is not never-shown and whose value is not
    /// zero unless it is always-shown. `field_locals[i]` is the local
    /// wall-clock text of the value at display position `i`, used for
    /// timestamp fields only.
    fn pretty_text_with_local(&self, mtime_local: Option<String>, field_locals: &Vec<Option<String>>) -> (r: String)
        requires
            field_locals.len() == FIELD_COUNT,
        ensures
            r@ == pretty_rendering(
                self.spec_fields(),
                self.spec_mtime(),
                opt_view(mtime_local),
                opt_views(field_locals@),
            ),
    {
        let values = self.fields();
        let ghost locals = opt_views(field_locals@);
        let mut out = String::new();
        let stamp = timestamp_text_with_local(self.mtime(), mtime_local);
        push_pretty_line(&mut out, "stats updated", stamp.as_str());
        let ghost header = out@;
        let mut i: usize = 0;
        while i < FIELD_COUNT
            invariant
                i <= FIELD_COUNT,
                field_locals.len() == FIELD_COUNT,
                locals == opt_views(field_locals@),
                values@ == self.spec_fields(),
                out@ == header + pretty_lines(pretty_fields_upto(self.spec_fields(), i as int), self.spec_fields(), locals),
            decreases FIELD_COUNT - i,
        {
            let k = CacheField::at_display_position(i);
            let meta = k.metadata();
            let v = values.get_field(k);
            if !meta.is_flag_never() && (meta.is_flag_always() || v != 0) {
                let local = field_locals[i].clone();
                assert(opt_view(local) == locals[i as int]);
                let text = k.format_value_with_local(v, local);
                push_pretty_line(&mut out, meta.message, text.as_str());
            }
            proof {
                let prev = pretty_fields_upto(self.spec_fields(), i as int);
                assert(prev.push(k).drop_last() =~= prev);
            }
            i = i + 1;
            assert(out@ =~= header + pretty_lines(pretty_fields_upto(self.spec_fields(), i as int), self.spec_fields(), locals));
        }
        out
    }

    /// The human-readable rendering, with times in the local time zone: as
    /// `pretty_text_with_local`, with whatever texts the local clock gave.
    fn pretty_text(&self) -> (r: String)
        ensures
            exists|mtime_local: Option<Seq<char>>, locals: Seq<Option<Seq<char>>>|
                locals.len() == FIELD_COUNT && r@ == pretty_rendering(
                    self.spec_fields(),
                    self.spec_mtime(),
                    mtime_local,
                    locals,
                ),
    {
        let values = self.fields();
        let mtime = self.mtime();
        let mtime_local = if mtime <= i64::MAX as u64 {
            local_time_text(mtime as i64)
        } else {
            None
        };
        let mut field_locals: Vec<Option<String>> = Vec::new();
        let mut i: usize = 0;
        while i < FIELD_COUNT
            invariant
                i <= FIELD_COUNT,
                field_locals.len() == i,
            decreases FIELD_COUNT - i,
        {
            let k = CacheField::at_display_position(i);
            let v = values.get_field(k);
            if k.metadata().format == CacheFieldFormat::TimeStamp && v <= i64::MAX as u64 {
                field_locals.push(local_time_text(v as i64));
            } else {
                field_locals.push(None);
            }
            i = i + 1;
        }
        let r = self.pretty_text_with_local(mtime_local, &field_locals);
        assert(opt_views(field_locals@).len() == FIELD_COUNT);
        r
    }
}

} // verus!
