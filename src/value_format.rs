//! Rendering of field values for people.
use vstd::prelude::*;
use vstd::string::StringExecFns;

use crate::cache_field::{CacheField, CacheFieldFormat};
use crate::clock::local_time_text;
use crate::text::{decimal, fixed_two, push_decimal, push_fixed_two, rounded_hundredths};

verus! {

/// Sizes below this many units of a scale are shown in the scale below.
pub const SIZE_SCALE_THRESHOLD: u64 = 10;

/// Kibibytes in a mebibyte, and mebibytes in a gibibyte.
pub const SIZE_STEP: u64 = 1024;

/// The view of an optional string.
pub open spec fn opt_view(o: Option<String>) -> Option<Seq<char>> {
    match o {
        Some(s) => Some(s@),
        None => None,
    }
}

/// A timestamp value as shown: the local wall-clock text `local` when the
/// value is a representable `i64` and a text was had, else the numeral
/// followed by ` (ts)`.
pub open spec fn timestamp_text(v: nat, local: Option<Seq<char>>) -> Seq<char> {
    if v <= i64::MAX && local is Some {
        local->0
    } else {
        decimal(v) + " (ts)"@
    }
}

/// A size of `v` kibibytes as shown: whole kibibytes below ten mebibytes,
/// else mebibytes below ten gibibytes, else gibibytes, the last two with two
/// decimals.
pub open spec fn size_text(v: nat) -> Seq<char> {
    if v < SIZE_SCALE_THRESHOLD * SIZE_STEP {
        decimal(v) + " Kb"@
    } else if v < SIZE_SCALE_THRESHOLD * SIZE_STEP * SIZE_STEP {
        fixed_two(rounded_hundredths(v, SIZE_STEP as nat)) + " Mb"@
    } else {
        fixed_two(rounded_hundredths(v, (SIZE_STEP * SIZE_STEP) as nat)) + " Gb"@
    }
}

/// The value `v` of field `k` as shown, where `local` is the local
/// wall-clock text of `v` (consulted for timestamp fields only).
pub open spec fn value_text(k: CacheField, v: nat, local: Option<Seq<char>>) -> Seq<char> {
    match k.spec_format() {
        CacheFieldFormat::Plain => decimal(v),
        CacheFieldFormat::TimeStamp => timestamp_text(v, local),
        CacheFieldFormat::SizeTimes1024 => size_text(v),
    }
}

/// Rendering the value `v` of field `k` consults the local clock.
pub open spec fn needs_clock(k: CacheField, v: nat) -> bool {
    k.spec_format() == CacheFieldFormat::TimeStamp && v <= i64::MAX
}

/// Render `secs` as a timestamp, given the local wall-clock text of it.
pub fn timestamp_text_with_local(secs: u64, local_time: Option<String>) -> (r: String)
    ensures
        r@ == timestamp_text(secs as nat, opt_view(local_time)),
{
    if secs <= i64::MAX as u64 {
        if let Some(t) = local_time {
            return t;
        }
    }
    let mut out = String::new();
    push_decimal(&mut out, secs);
    out.append(" (ts)");
    out
}

impl CacheField {
    /// Format `value` as this field's format policy says, where `local_time`
    /// is the local wall-clock text of `value` for a timestamp field.
    pub fn format_value_with_local(self, value: u64, local_time: Option<String>) -> (r: String)
        ensures
            r@ == value_text(self, value as nat, opt_view(local_time)),
    {
        match self.metadata().format {
            CacheFieldFormat::Plain => {
                let mut out = String::new();
                push_decimal(&mut out, value);
                assert(out@ =~= decimal(value as nat));
                out
            },
            CacheFieldFormat::TimeStamp => timestamp_text_with_local(value, local_time),
            CacheFieldFormat::SizeTimes1024 => {
                let mut out = String::new();
                if value < SIZE_SCALE_THRESHOLD * SIZE_STEP {
                    push_decimal(&mut out, value);
                    out.append(" Kb");
                } else if value < SIZE_SCALE_THRESHOLD * SIZE_STEP * SIZE_STEP {
                    push_fixed_two(&mut out, value, SIZE_STEP);
                    out.append(" Mb");
                } else {
                    push_fixed_two(&mut out, value, SIZE_STEP * SIZE_STEP);
                    out.append(" Gb");
                }
                assert(out@ =~= size_text(value as nat));
                out
            },
        }
    }

    /// Format `value` as this field's format policy says; a timestamp is
    /// rendered in the local time zone.
    pub fn format_value(self, value: u64) -> (r: String)
        ensures
            exists|l: Option<Seq<char>>| r@ == value_text(self, value as nat, l),
            !needs_clock(self, value as nat) ==> r@ == value_text(self, value as nat, None),
    {
        let local = if self.metadata().format == CacheFieldFormat::TimeStamp && value <= i64::MAX as u64 {
            local_time_text(value as i64)
        } else {
            None
        };
        let r = self.format_value_with_local(value, local);
        assert(r@ == value_text(self, value as nat, opt_view(local)));
        r
    }
}

} // verus!
