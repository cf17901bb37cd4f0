//! The registry of statistics fields: their kinds, ordinals, metadata, the
//! two fixed orders of them, and a store of one value per field.
use vstd::prelude::*;

verus! {

/// Number of fields in a counter file, and of kinds of field.
pub const FIELD_COUNT: usize = 32;

/// No visibility flag.
pub const FLAG_NONE: u8 = 0;
/// The field has no meaningful zero default (kept for compatibility, never consulted).
pub const FLAG_NOZERO: u8 = 1;
/// The field is shown by the human-readable rendering even when its value is zero.
pub const FLAG_ALWAYS: u8 = 2;
/// The field is never shown by either rendering.
pub const FLAG_NEVER: u8 = 4;

/// How the value of a field is rendered for people.
#[derive(Debug, Clone, Copy, PartialEq, Eq, Structural)]
pub enum CacheFieldFormat {
    /// The decimal integer as it is.
    Plain,
    /// Seconds since the epoch, rendered as a local wall-clock time.
    TimeStamp,
    /// A size in kibibytes, scaled to Kb, Mb or Gb.
    SizeTimes1024,
}

/// Descriptive data of one field: its stable identifier, its label, how its
/// value is rendered and its visibility flags.
#[derive(Debug, Clone, Copy)]
pub struct CacheFieldMeta {
    /// Stable machine-readable name.
    pub id: &'static str,
    /// Human-readable label.
    pub message: &'static str,
    /// Rendering policy of the value.
    pub format: CacheFieldFormat,
    /// Bit set of `FLAG_NOZERO`, `FLAG_ALWAYS` and `FLAG_NEVER`.
    pub flags: u8,
}

impl CacheFieldMeta {
    /// The field is shown even when its value is zero.
    pub open spec fn always_shown(self) -> bool {
        self.flags & FLAG_ALWAYS == FLAG_ALWAYS
    }

    /// The field is suppressed from every rendering.
    pub open spec fn never_shown(self) -> bool {
        self.flags & FLAG_NEVER == FLAG_NEVER
    }

    /// The field carries the no-zero-default flag.
    pub open spec fn no_zero_default(self) -> bool {
        self.flags & FLAG_NOZERO == FLAG_NOZERO
    }

    /// Whether the field is shown even when its value is zero.
    pub fn is_flag_always(&self) -> (r: bool)
        ensures
            r == self.always_shown(),
    {
        self.flags & FLAG_ALWAYS == FLAG_ALWAYS
    }

    /// Whether the field is suppressed from every rendering.
    pub fn is_flag_never(&self) -> (r: bool)
        ensures
            r == self.never_shown(),
    {
        self.flags & FLAG_NEVER == FLAG_NEVER
    }
}

/// The kinds of statistics field. The position of a variant is its ordinal:
/// the 0-based line of a counter file that holds its value.
#[derive(Debug, Clone, Copy, PartialEq, Eq, Structural)]
pub enum CacheField {
    /// Placeholder for line 0 of a counter file; carries no statistic
    Sentinel,
    /// Counter of instances where the compiler produced stdout
    StdOut,
    /// Counter of compile failures
    Status,
    /// Counter of internal errors in ccache
    Error,
    /// Counter of cache misses
    ToCache,
    /// Counter of preprocessor errors
    PreProcessor,
    /// Counter of being unable to find the compiler
    Compiler,
    /// Counter of ccache being unable to find a file in cache
    Missing,
    /// Counter of pre-processed cache-hits
    CacheHitCpp,
    /// Counter of bad compiler arguments
    Args,
    /// Counter of ccache being called for link
    Link,
    /// Counter of the number of files in the cache
    NumFiles,
    /// Counter of the total size of the cache
    TotalSize,
    /// (Obsolete) Maximum files in cache
    ObsoleteMaxFiles,
    /// (Obsolete) Maximum size of cache
    ObsoleteMaxSize,
    /// Counts of being called with an unsupported source language
    SourceLang,
    /// Counts of being unable to write to output file
    BadOutputFile,
    /// Counts of being called without an input file
    NoInput,
    /// Counter of calls with multiple source files
    Multiple,
    /// Counter of autoconf compiles/links
    ConfTest,
    /// Counter of calling compiler with an unsupported option
    UnsupportedOption,
    /// Counter of output to stdout
    OutStdOut,
    /// Counter of direct cache hits
    CacheHitDir,
    /// Counter of compiler producing no output
    NoOutput,
    /// Counter of compiler producing empty output
    EmptyOutput,
    /// Counter of encountering an error hashing an extra file
    BadExtraFile,
    /// Counter of failed compiler checks
    CompCheck,
    /// Counter of being unable to use a precompiled header
    CantUsePch,
    /// Counter of being called for pre-processing
    PreProcessing,
    /// Counter of cache cleanups performed
    NumCleanUps,
    /// Counter of unsupported code directives
    UnsupportedDirective,
    /// Counter of when the stats were last zeroed
    ZeroTimeStamp,
}

impl CacheField {
    /// The ordinal of the field: its line in a counter file.
    pub open spec fn ordinal(self) -> int {
        match self {
            CacheField::Sentinel => 0,
            CacheField::StdOut => 1,
            CacheField::Status => 2,
            CacheField::Error => 3,
            CacheField::ToCache => 4,
            CacheField::PreProcessor => 5,
            CacheField::Compiler => 6,
            CacheField::Missing => 7,
            CacheField::CacheHitCpp => 8,
            CacheField::Args => 9,
            CacheField::Link => 10,
            CacheField::NumFiles => 11,
            CacheField::TotalSize => 12,
            CacheField::ObsoleteMaxFiles => 13,
            CacheField::ObsoleteMaxSize => 14,
            CacheField::SourceLang => 15,
            CacheField::BadOutputFile => 16,
            CacheField::NoInput => 17,
            CacheField::Multiple => 18,
            CacheField::ConfTest => 19,
            CacheField::UnsupportedOption => 20,
            CacheField::OutStdOut => 21,
            CacheField::CacheHitDir => 22,
            CacheField::NoOutput => 23,
            CacheField::EmptyOutput => 24,
            CacheField::BadExtraFile => 25,
            CacheField::CompCheck => 26,
            CacheField::CantUsePch => 27,
            CacheField::PreProcessing => 28,
            CacheField::NumCleanUps => 29,
            CacheField::UnsupportedDirective => 30,
            CacheField::ZeroTimeStamp => 31,
        }
    }

    /// The field whose ordinal is `i`.
    pub open spec fn from_ordinal(i: int) -> CacheField
        recommends
            0 <= i < FIELD_COUNT,
    {
        if i == 0 {
            CacheField::Sentinel
        } else if i == 1 {
            CacheField::StdOut
        } else if i == 2 {
            CacheField::Status
        } else if i == 3 {
            CacheField::Error
        } else if i == 4 {
            CacheField::ToCache
        } else if i == 5 {
            CacheField::PreProcessor
        } else if i == 6 {
            CacheField::Compiler
        } else if i == 7 {
            CacheField::Missing
        } else if i == 8 {
            CacheField::CacheHitCpp
        } else if i == 9 {
            CacheField::Args
        } else if i == 10 {
            CacheField::Link
        } else if i == 11 {
            CacheField::NumFiles
        } else if i == 12 {
            CacheField::TotalSize
        } else if i == 13 {
            CacheField::ObsoleteMaxFiles
        } else if i == 14 {
            CacheField::ObsoleteMaxSize
        } else if i == 15 {
            CacheField::SourceLang
        } else if i == 16 {
            CacheField::BadOutputFile
        } else if i == 17 {
            CacheField::NoInput
        } else if i == 18 {
            CacheField::Multiple
        } else if i == 19 {
            CacheField::ConfTest
        } else if i == 20 {
            CacheField::UnsupportedOption
        } else if i == 21 {
            CacheField::OutStdOut
        } else if i == 22 {
            CacheField::CacheHitDir
        } else if i == 23 {
            CacheField::NoOutput
        } else if i == 24 {
            CacheField::EmptyOutput
        } else if i == 25 {
            CacheField::BadExtraFile
        } else if i == 26 {
            CacheField::CompCheck
        } else if i == 27 {
            CacheField::CantUsePch
        } else if i == 28 {
            CacheField::PreProcessing
        } else if i == 29 {
            CacheField::NumCleanUps
        } else if i == 30 {
            CacheField::UnsupportedDirective
        } else {
            CacheField::ZeroTimeStamp
        }
    }

    /// The position of the field in display order.
    pub open spec fn display_position(self) -> int {
        match self {
            CacheField::ZeroTimeStamp => 0,
            CacheField::CacheHitDir => 1,
            CacheField::CacheHitCpp => 2,
            CacheField::ToCache => 3,
            CacheField::Link => 4,
            CacheField::PreProcessing => 5,
            CacheField::Multiple => 6,
            CacheField::StdOut => 7,
            CacheField::NoOutput => 8,
            CacheField::EmptyOutput => 9,
            CacheField::Status => 10,
            CacheField::Error => 11,
            CacheField::PreProcessor => 12,
            CacheField::CantUsePch => 13,
            CacheField::Compiler => 14,
            CacheField::Missing => 15,
            CacheField::Args => 16,
            CacheField::SourceLang => 17,
            CacheField::CompCheck => 18,
            CacheField::ConfTest => 19,
            CacheField::UnsupportedOption => 20,
            CacheField::UnsupportedDirective => 21,
            CacheField::OutStdOut => 22,
            CacheField::BadOutputFile => 23,
            CacheField::NoInput => 24,
            CacheField::BadExtraFile => 25,
            CacheField::NumCleanUps => 26,
            CacheField::NumFiles => 27,
            CacheField::TotalSize => 28,
            CacheField::ObsoleteMaxFiles => 29,
            CacheField::ObsoleteMaxSize => 30,
            CacheField::Sentinel => 31,
        }
    }

    /// The field at position `i` of display order.
    pub open spec fn from_display_position(i: int) -> CacheField
        recommends
            0 <= i < FIELD_COUNT,
    {
        if i == 0 {
            CacheField::ZeroTimeStamp
        } else if i == 1 {
            CacheField::CacheHitDir
        } else if i == 2 {
            CacheField::CacheHitCpp
        } else if i == 3 {
            CacheField::ToCache
        } else if i == 4 {
            CacheField::Link
        } else if i == 5 {
            CacheField::PreProcessing
        } else if i == 6 {
            CacheField::Multiple
        } else if i == 7 {
            CacheField::StdOut
        } else if i == 8 {
            CacheField::NoOutput
        } else if i == 9 {
            CacheField::EmptyOutput
        } else if i == 10 {
            CacheField::Status
        } else if i == 11 {
            CacheField::Error
        } else if i == 12 {
            CacheField::PreProcessor
        } else if i == 13 {
            CacheField::CantUsePch
        } else if i == 14 {
            CacheField::Compiler
        } else if i == 15 {
            CacheField::Missing
        } else if i == 16 {
            CacheField::Args
        } else if i == 17 {
            CacheField::SourceLang
        } else if i == 18 {
            CacheField::CompCheck
        } else if i == 19 {
            CacheField::ConfTest
        } else if i == 20 {
            CacheField::UnsupportedOption
        } else if i == 21 {
            CacheField::UnsupportedDirective
        } else if i == 22 {
            CacheField::OutStdOut
        } else if i == 23 {
            CacheField::BadOutputFile
        } else if i == 24 {
            CacheField::NoInput
        } else if i == 25 {
            CacheField::BadExtraFile
        } else if i == 26 {
            CacheField::NumCleanUps
        } else if i == 27 {
            CacheField::NumFiles
        } else if i == 28 {
            CacheField::TotalSize
        } else if i == 29 {
            CacheField::ObsoleteMaxFiles
        } else if i == 30 {
            CacheField::ObsoleteMaxSize
        } else {
            CacheField::Sentinel
        }
    }

    /// The metadata of each field.
    pub open spec fn spec_metadata(self) -> CacheFieldMeta {
        match self {
            CacheField::ZeroTimeStamp => CacheFieldMeta {
                id: "stats_zeroed_timestamp",
                message: "stats zeroed",
                format: CacheFieldFormat::TimeStamp,
                flags: FLAG_ALWAYS,
            },
            CacheField::CacheHitDir => CacheFieldMeta {
                id: "direct_cache_hit",
                message: "cache hit (direct)",
                format: CacheFieldFormat::Plain,
                flags: FLAG_ALWAYS,
            },
            CacheField::CacheHitCpp => CacheFieldMeta {
                id: "preprocessed_cache_hit",
                message: "cache hit (preprocessed)",
                format: CacheFieldFormat::Plain,
                flags: FLAG_ALWAYS,
            },
            CacheField::ToCache => CacheFieldMeta {
                id: "cache_miss",
                message: "cache miss",
                format: CacheFieldFormat::Plain,
                flags: FLAG_ALWAYS,
            },
            CacheField::Link => CacheFieldMeta {
                id: "called_for_link",
                message: "called for link",
                format: CacheFieldFormat::Plain,
                flags: FLAG_ALWAYS,
            },
            CacheField::PreProcessing => CacheFieldMeta {
                id: "called_for_preprocessing",
                message: "called for preprocessing",
                format: CacheFieldFormat::Plain,
                flags: FLAG_ALWAYS,
            },
            CacheField::Multiple => CacheFieldMeta {
                id: "multiple_source_files",
                message: "multiple source files",
                format: CacheFieldFormat::Plain,
                flags: FLAG_NONE,
            },
            CacheField::StdOut => CacheFieldMeta {
                id: "compiler_produced_stdout",
                message: "compiler produced stdout",
                format: CacheFieldFormat::Plain,
                flags: FLAG_NONE,
            },
            CacheField::NoOutput => CacheFieldMeta {
                id: "compiler_produced_no_output",
                message: "compiler produced no output",
                format: CacheFieldFormat::Plain,
                flags: FLAG_NONE,
            },
            CacheField::EmptyOutput => CacheFieldMeta {
                id: "compiler_produced_empty_output",
                message: "compiler produced empty output",
                format: CacheFieldFormat::Plain,
                flags: FLAG_NONE,
            },
            CacheField::Status => CacheFieldMeta {
                id: "compile_failed",
                message: "compile failed",
                format: CacheFieldFormat::Plain,
                flags: FLAG_NONE,
            },
            CacheField::Error => CacheFieldMeta {
                id: "internal_error",
                message: "ccache internal error",
                format: CacheFieldFormat::Plain,
                flags: FLAG_NONE,
            },
            CacheField::PreProcessor => CacheFieldMeta {
                id: "preprocessor_error",
                message: "preprocessor error",
                format: CacheFieldFormat::Plain,
                flags: FLAG_NONE,
            },
            CacheField::CantUsePch => CacheFieldMeta {
                id: "could_not_use_precompiled_header",
                message: "can't use precompiled header",
                format: CacheFieldFormat::Plain,
                flags: FLAG_NONE,
            },
            CacheField::Compiler => CacheFieldMeta {
                id: "could_not_find_compiler",
                message: "couldn't find the compiler",
                format: CacheFieldFormat::Plain,
                flags: FLAG_NONE,
            },
            CacheField::Missing => CacheFieldMeta {
                id: "missing_cache_file",
                message: "cache file missing",
                format: CacheFieldFormat::Plain,
                flags: FLAG_NONE,
            },
            CacheField::Args => CacheFieldMeta {
                id: "bad_compiler_arguments",
                message: "bad compiler arguments",
                format: CacheFieldFormat::Plain,
                flags: FLAG_NONE,
            },
            CacheField::SourceLang => CacheFieldMeta {
                id: "unsupported_source_language",
                message: "unsupported source language",
                format: CacheFieldFormat::Plain,
                flags: FLAG_NONE,
            },
            CacheField::CompCheck => CacheFieldMeta {
                id: "compiler_check_failed",
                message: "compiler check failed",
                format: CacheFieldFormat::Plain,
                flags: FLAG_NONE,
            },
            CacheField::ConfTest => CacheFieldMeta {
                id: "autoconf_test",
                message: "autoconf compile/link",
                format: CacheFieldFormat::Plain,
                flags: FLAG_NONE,
            },
            CacheField::UnsupportedOption => CacheFieldMeta {
                id: "unsupported_compiler_option",
                message: "unsupported compiler option",
                format: CacheFieldFormat::Plain,
                flags: FLAG_NONE,
            },
            CacheField::UnsupportedDirective => CacheFieldMeta {
                id: "unsupported_code_directive",
                message: "unsupported code directive",
                format: CacheFieldFormat::Plain,
                flags: FLAG_NONE,
            },
            CacheField::OutStdOut => CacheFieldMeta {
                id: "output_to_stdout",
                message: "output to stdout",
                format: CacheFieldFormat::Plain,
                flags: FLAG_NONE,
            },
            CacheField::BadOutputFile => CacheFieldMeta {
                id: "bad_output_file",
                message: "could not write to output file",
                format: CacheFieldFormat::Plain,
                flags: FLAG_NONE,
            },
            CacheField::NoInput => CacheFieldMeta {
                id: "no_input_file",
                message: "no input file",
                format: CacheFieldFormat::Plain,
                flags: FLAG_NONE,
            },
            CacheField::BadExtraFile => CacheFieldMeta {
                id: "error_hashing_extra_file",
                message: "error hashing extra file",
                format: CacheFieldFormat::Plain,
                flags: FLAG_NONE,
            },
            CacheField::NumCleanUps => CacheFieldMeta {
                id: "cleanups_performed",
                message: "cleanups performed",
                format: CacheFieldFormat::Plain,
                flags: FLAG_ALWAYS,
            },
            CacheField::NumFiles => CacheFieldMeta {
                id: "files_in_cache",
                message: "files in cache",
                format: CacheFieldFormat::Plain,
                flags: FLAG_NOZERO | FLAG_ALWAYS,
            },
            CacheField::TotalSize => CacheFieldMeta {
                id: "cache_size_kibibyte",
                message: "cache size",
                format: CacheFieldFormat::SizeTimes1024,
                flags: FLAG_NOZERO | FLAG_ALWAYS,
            },
            CacheField::ObsoleteMaxFiles => CacheFieldMeta {
                id: "obsolete_max_files",
                message: "(obsolete) max files",
                format: CacheFieldFormat::Plain,
                flags: FLAG_NOZERO | FLAG_NEVER,
            },
            CacheField::ObsoleteMaxSize => CacheFieldMeta {
                id: "obsolete_max_size",
                message: "(obsolete) max size",
                format: CacheFieldFormat::Plain,
                flags: FLAG_NOZERO | FLAG_NEVER,
            },
            CacheField::Sentinel => CacheFieldMeta {
                id: "internal_none",
                message: "(internal) none",
                format: CacheFieldFormat::Plain,
                flags: FLAG_NONE | FLAG_NEVER,
            },
        }
    }

    /// The format policy of the field.
    pub open spec fn spec_format(self) -> CacheFieldFormat {
        self.spec_metadata().format
    }

    /// Return the ordinal of this field as a `usize`, for indexing.
    pub fn as_usize(self) -> (r: usize)
        ensures
            r == self.ordinal(),
    {
        match self {
            CacheField::Sentinel => 0,
            CacheField::StdOut => 1,
            CacheField::Status => 2,
            CacheField::Error => 3,
            CacheField::ToCache => 4,
            CacheField::PreProcessor => 5,
            CacheField::Compiler => 6,
            CacheField::Missing => 7,
            CacheField::CacheHitCpp => 8,
            CacheField::Args => 9,
            CacheField::Link => 10,
            CacheField::NumFiles => 11,
            CacheField::TotalSize => 12,
            CacheField::ObsoleteMaxFiles => 13,
            CacheField::ObsoleteMaxSize => 14,
            CacheField::SourceLang => 15,
            CacheField::BadOutputFile => 16,
            CacheField::NoInput => 17,
            CacheField::Multiple => 18,
            CacheField::ConfTest => 19,
            CacheField::UnsupportedOption => 20,
            CacheField::OutStdOut => 21,
            CacheField::CacheHitDir => 22,
            CacheField::NoOutput => 23,
            CacheField::EmptyOutput => 24,
            CacheField::BadExtraFile => 25,
            CacheField::CompCheck => 26,
            CacheField::CantUsePch => 27,
            CacheField::PreProcessing => 28,
            CacheField::NumCleanUps => 29,
            CacheField::UnsupportedDirective => 30,
            CacheField::ZeroTimeStamp => 31,
        }
    }

    /// The field whose ordinal is `i`.
    pub fn at_ordinal(i: usize) -> (r: CacheField)
        requires
            i < FIELD_COUNT,
        ensures
            r == CacheField::from_ordinal(i as int),
            r.ordinal() == i,
    {
        match i {
            0 => CacheField::Sentinel,
            1 => CacheField::StdOut,
            2 => CacheField::Status,
            3 => CacheField::Error,
            4 => CacheField::ToCache,
            5 => CacheField::PreProcessor,
            6 => CacheField::Compiler,
            7 => CacheField::Missing,
            8 => CacheField::CacheHitCpp,
            9 => CacheField::Args,
            10 => CacheField::Link,
            11 => CacheField::NumFiles,
            12 => CacheField::TotalSize,
            13 => CacheField::ObsoleteMaxFiles,
            14 => CacheField::ObsoleteMaxSize,
            15 => CacheField::SourceLang,
            16 => CacheField::BadOutputFile,
            17 => CacheField::NoInput,
            18 => CacheField::Multiple,
            19 => CacheField::ConfTest,
            20 => CacheField::UnsupportedOption,
            21 => CacheField::OutStdOut,
            22 => CacheField::CacheHitDir,
            23 => CacheField::NoOutput,
            24 => CacheField::EmptyOutput,
            25 => CacheField::BadExtraFile,
            26 => CacheField::CompCheck,
            27 => CacheField::CantUsePch,
            28 => CacheField::PreProcessing,
            29 => CacheField::NumCleanUps,
            30 => CacheField::UnsupportedDirective,
            _ => CacheField::ZeroTimeStamp,
        }
    }

    /// The field at position `i` of display order.
    pub fn at_display_position(i: usize) -> (r: CacheField)
        requires
            i < FIELD_COUNT,
        ensures
            r == CacheField::from_display_position(i as int),
            r.display_position() == i,
    {
        match i {
            0 => CacheField::ZeroTimeStamp,
            1 => CacheField::CacheHitDir,
            2 => CacheField::CacheHitCpp,
            3 => CacheField::ToCache,
            4 => CacheField::Link,
            5 => CacheField::PreProcessing,
            6 => CacheField::Multiple,
            7 => CacheField::StdOut,
            8 => CacheField::NoOutput,
            9 => CacheField::EmptyOutput,
            10 => CacheField::Status,
            11 => CacheField::Error,
            12 => CacheField::PreProcessor,
            13 => CacheField::CantUsePch,
            14 => CacheField::Compiler,
            15 => CacheField::Missing,
            16 => CacheField::Args,
            17 => CacheField::SourceLang,
            18 => CacheField::CompCheck,
            19 => CacheField::ConfTest,
            20 => CacheField::UnsupportedOption,
            21 => CacheField::UnsupportedDirective,
            22 => CacheField::OutStdOut,
            23 => CacheField::BadOutputFile,
            24 => CacheField::NoInput,
            25 => CacheField::BadExtraFile,
            26 => CacheField::NumCleanUps,
            27 => CacheField::NumFiles,
            28 => CacheField::TotalSize,
            29 => CacheField::ObsoleteMaxFiles,
            30 => CacheField::ObsoleteMaxSize,
            _ => CacheField::Sentinel,
        }
    }

    /// Obtain the metadata describing this field.
    pub fn metadata(self) -> (r: &'static CacheFieldMeta)
        ensures
            *r == self.spec_metadata(),
    {
        match self {
            CacheField::ZeroTimeStamp => &CacheFieldMeta {
                id: "stats_zeroed_timestamp",
                message: "stats zeroed",
                format: CacheFieldFormat::TimeStamp,
                flags: FLAG_ALWAYS,
            },
            CacheField::CacheHitDir => &CacheFieldMeta {
                id: "direct_cache_hit",
                message: "cache hit (direct)",
                format: CacheFieldFormat::Plain,
                flags: FLAG_ALWAYS,
            },
            CacheField::CacheHitCpp => &CacheFieldMeta {
                id: "preprocessed_cache_hit",
                message: "cache hit (preprocessed)",
                format: CacheFieldFormat::Plain,
                flags: FLAG_ALWAYS,
            },
            CacheField::ToCache => &CacheFieldMeta {
                id: "cache_miss",
                message: "cache miss",
                format: CacheFieldFormat::Plain,
                flags: FLAG_ALWAYS,
            },
            CacheField::Link => &CacheFieldMeta {
                id: "called_for_link",
                message: "called for link",
                format: CacheFieldFormat::Plain,
                flags: FLAG_ALWAYS,
            },
            CacheField::PreProcessing => &CacheFieldMeta {
                id: "called_for_preprocessing",
                message: "called for preprocessing",
                format: CacheFieldFormat::Plain,
                flags: FLAG_ALWAYS,
            },
            CacheField::Multiple => &CacheFieldMeta {
                id: "multiple_source_files",
                message: "multiple source files",
                format: CacheFieldFormat::Plain,
                flags: FLAG_NONE,
            },
            CacheField::StdOut => &CacheFieldMeta {
                id: "compiler_produced_stdout",
                message: "compiler produced stdout",
                format: CacheFieldFormat::Plain,
                flags: FLAG_NONE,
            },
            CacheField::NoOutput => &CacheFieldMeta {
                id: "compiler_produced_no_output",
                message: "compiler produced no output",
                format: CacheFieldFormat::Plain,
                flags: FLAG_NONE,
            },
            CacheField::EmptyOutput => &CacheFieldMeta {
                id: "compiler_produced_empty_output",
                message: "compiler produced empty output",
                format: CacheFieldFormat::Plain,
                flags: FLAG_NONE,
            },
            CacheField::Status => &CacheFieldMeta {
                id: "compile_failed",
                message: "compile failed",
                format: CacheFieldFormat::Plain,
                flags: FLAG_NONE,
            },
            CacheField::Error => &CacheFieldMeta {
                id: "internal_error",
                message: "ccache internal error",
                format: CacheFieldFormat::Plain,
                flags: FLAG_NONE,
            },
            CacheField::PreProcessor => &CacheFieldMeta {
                id: "preprocessor_error",
                message: "preprocessor error",
                format: CacheFieldFormat::Plain,
                flags: FLAG_NONE,
            },
            CacheField::CantUsePch => &CacheFieldMeta {
                id: "could_not_use_precompiled_header",
                message: "can't use precompiled header",
                format: CacheFieldFormat::Plain,
                flags: FLAG_NONE,
            },
            CacheField::Compiler => &CacheFieldMeta {
                id: "could_not_find_compiler",
                message: "couldn't find the compiler",
                format: CacheFieldFormat::Plain,
                flags: FLAG_NONE,
            },
            CacheField::Missing => &CacheFieldMeta {
                id: "missing_cache_file",
                message: "cache file missing",
                format: CacheFieldFormat::Plain,
                flags: FLAG_NONE,
            },
            CacheField::Args => &CacheFieldMeta {
                id: "bad_compiler_arguments",
                message: "bad compiler arguments",
                format: CacheFieldFormat::Plain,
                flags: FLAG_NONE,
            },
            CacheField::SourceLang => &CacheFieldMeta {
                id: "unsupported_source_language",
                message: "unsupported source language",
                format: CacheFieldFormat::Plain,
                flags: FLAG_NONE,
            },
            CacheField::CompCheck => &CacheFieldMeta {
                id: "compiler_check_failed",
                message: "compiler check failed",
                format: CacheFieldFormat::Plain,
                flags: FLAG_NONE,
            },
            CacheField::ConfTest => &CacheFieldMeta {
                id: "autoconf_test",
                message: "autoconf compile/link",
                format: CacheFieldFormat::Plain,
                flags: FLAG_NONE,
            },
            CacheField::UnsupportedOption => &CacheFieldMeta {
                id: "unsupported_compiler_option",
                message: "unsupported compiler option",
                format: CacheFieldFormat::Plain,
                flags: FLAG_NONE,
            },
            CacheField::UnsupportedDirective => &CacheFieldMeta {
                id: "unsupported_code_directive",
                message: "unsupported code directive",
                format: CacheFieldFormat::Plain,
                flags: FLAG_NONE,
            },
            CacheField::OutStdOut => &CacheFieldMeta {
                id: "output_to_stdout",
                message: "output to stdout",
                format: CacheFieldFormat::Plain,
                flags: FLAG_NONE,
            },
            CacheField::BadOutputFile => &CacheFieldMeta {
                id: "bad_output_file",
                message: "could not write to output file",
                format: CacheFieldFormat::Plain,
                flags: FLAG_NONE,
            },
            CacheField::NoInput => &CacheFieldMeta {
                id: "no_input_file",
                message: "no input file",
                format: CacheFieldFormat::Plain,
                flags: FLAG_NONE,
            },
            CacheField::BadExtraFile => &CacheFieldMeta {
                id: "error_hashing_extra_file",
                message: "error hashing extra file",
                format: CacheFieldFormat::Plain,
                flags: FLAG_NONE,
            },
            CacheField::NumCleanUps => &CacheFieldMeta {
                id: "cleanups_performed",
                message: "cleanups performed",
                format: CacheFieldFormat::Plain,
                flags: FLAG_ALWAYS,
            },
            CacheField::NumFiles => &CacheFieldMeta {
                id: "files_in_cache",
                message: "files in cache",
                format: CacheFieldFormat::Plain,
                flags: FLAG_NOZERO | FLAG_ALWAYS,
            },
            CacheField::TotalSize => &CacheFieldMeta {
                id: "cache_size_kibibyte",
                message: "cache size",
                format: CacheFieldFormat::SizeTimes1024,
                flags: FLAG_NOZERO | FLAG_ALWAYS,
            },
            CacheField::ObsoleteMaxFiles => &CacheFieldMeta {
                id: "obsolete_max_files",
                message: "(obsolete) max files",
                format: CacheFieldFormat::Plain,
                flags: FLAG_NOZERO | FLAG_NEVER,
            },
            CacheField::ObsoleteMaxSize => &CacheFieldMeta {
                id: "obsolete_max_size",
                message: "(obsolete) max size",
                format: CacheFieldFormat::Plain,
                flags: FLAG_NOZERO | FLAG_NEVER,
            },
            CacheField::Sentinel => &CacheFieldMeta {
                id: "internal_none",
                message: "(internal) none",
                format: CacheFieldFormat::Plain,
                flags: FLAG_NONE | FLAG_NEVER,
            },
        }
    }
}

/// The fields in data order: position `i` holds the field whose ordinal is `i`.
pub open spec fn data_order() -> Seq<CacheField> {
    Seq::new(FIELD_COUNT as nat, |i: int| CacheField::from_ordinal(i))
}

/// The fields in the curated order used for presentation.
pub open spec fn display_order() -> Seq<CacheField> {
    Seq::new(FIELD_COUNT as nat, |i: int| CacheField::from_display_position(i))
}

/// The fields in data order, the sequence in which a counter file lists them.
pub fn field_data_order() -> (r: Vec<CacheField>)
    ensures
        r@ == data_order(),
{
    let mut r: Vec<CacheField> = Vec::new();
    let mut i: usize = 0;
    while i < FIELD_COUNT
        invariant
            i <= FIELD_COUNT,
            r@ == data_order().take(i as int),
        decreases FIELD_COUNT - i,
    {
        r.push(CacheField::at_ordinal(i));
        i = i + 1;
        assert(r@ =~= data_order().take(i as int));
    }
    assert(r@ =~= data_order());
    r
}

/// The fields in display order, the sequence in which they are presented.
pub fn field_display_order() -> (r: Vec<CacheField>)
    ensures
        r@ == display_order(),
{
    let mut r: Vec<CacheField> = Vec::new();
    let mut i: usize = 0;
    while i < FIELD_COUNT
        invariant
            i <= FIELD_COUNT,
            r@ == display_order().take(i as int),
        decreases FIELD_COUNT - i,
    {
        r.push(CacheField::at_display_position(i));
        i = i + 1;
        assert(r@ =~= display_order().take(i as int));
    }
    assert(r@ =~= display_order());
    r
}

/// Both orders list each of the 32 kinds exactly once, at the position given
/// by its ordinal and by its display position; data order begins with the
/// sentinel and ends with the zero timestamp, display order the other way
/// round, so the two sequences differ.
pub proof fn lemma_field_orders()
    ensures
        data_order().len() == FIELD_COUNT,
        display_order().len() == FIELD_COUNT,
        forall|k: CacheField| 0 <= #[trigger] k.ordinal() < FIELD_COUNT && data_order()[k.ordinal()] == k,
        forall|k: CacheField|
            0 <= #[trigger] k.display_position() < FIELD_COUNT && display_order()[k.display_position()] == k,
        forall|i: int| 0 <= i < FIELD_COUNT ==> (#[trigger] data_order()[i]).ordinal() == i,
        forall|i: int| 0 <= i < FIELD_COUNT ==> (#[trigger] display_order()[i]).display_position() == i,
        data_order()[0] == CacheField::Sentinel,
        data_order()[31] == CacheField::ZeroTimeStamp,
        display_order()[0] == CacheField::ZeroTimeStamp,
        display_order()[31] == CacheField::Sentinel,
        data_order() != display_order(),
{
    assert forall|k: CacheField| 0 <= #[trigger] k.ordinal() < FIELD_COUNT && data_order()[k.ordinal()] == k by {
    }
    assert forall|k: CacheField|
        0 <= #[trigger] k.display_position() < FIELD_COUNT && display_order()[k.display_position()] == k by {
    }
    assert(data_order()[0] != display_order()[0]);
}

/// A value for every field, indexed by ordinal; every slot is always present.
#[derive(Debug, Clone, Copy)]
pub struct CacheFieldData {
    items: [u64; 32],
}

impl View for CacheFieldData {
    type V = Seq<u64>;

    /// The values by ordinal.
    closed spec fn view(&self) -> Seq<u64> {
        self.items@
    }
}

/// The store holds exactly one value per field.
pub broadcast proof fn lemma_field_data_len(d: CacheFieldData)
    ensures
        #[trigger] d@.len() == FIELD_COUNT,
{
}

/// All values zero.
pub open spec fn zero_values() -> Seq<u64> {
    Seq::new(FIELD_COUNT as nat, |i: int| 0u64)
}

impl CacheFieldData {
    /// A store with every value zero.
    pub fn new() -> (r: CacheFieldData)
        ensures
            r@ == zero_values(),
    {
        let r = CacheFieldData { items: [0u64; 32] };
        assert(r@ =~= zero_values());
        r
    }

    /// Set the stored value for the field `f`.
    pub fn set_field(&mut self, f: CacheField, v: u64)
        ensures
            final(self)@ == old(self)@.update(f.ordinal(), v),
    {
        let i = f.as_usize();
        self.items[i] = v;
        assert(self@ =~= old(self)@.update(f.ordinal(), v));
    }

    /// Get the stored value for the field `f`.
    pub fn get_field(&self, f: CacheField) -> (r: u64)
        ensures
            r == self@[f.ordinal()],
    {
        self.items[f.as_usize()]
    }
}

impl Default for CacheFieldData {
    fn default() -> (r: CacheFieldData)
        ensures
            r@ == zero_values(),
    {
        CacheFieldData::new()
    }
}

} // verus!
