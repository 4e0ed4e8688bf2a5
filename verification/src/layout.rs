//! Where each field of a thread control structure lies in its page.

use vstd::prelude::*;

verus! {

/// The bytes that a thread control structure takes: one page.
pub const TCS_SIZE: usize = 4096;

/// The alignment of the address at which a thread control structure lies:
/// one page.
pub const TCS_ALIGN: usize = 4096;

/// The bytes that the fields take, from the start of the page. The bytes
/// behind them are reserved.
pub const TCS_FIELDS_END: usize = 72;

/// The fields of a thread control structure, in the order in which they lie
/// in memory.
#[derive(Debug, Clone, Copy, PartialEq, Eq, Structural)]
pub enum Field {
    /// Whether a thread has entered; the processor owns it.
    State,
    /// Execution flags.
    Flags,
    /// Offset of the stack of state save areas.
    SsaOffset,
    /// Index of the current state save area frame; the processor owns it.
    SsaIndex,
    /// Number of state save area frames.
    NrSsaFrames,
    /// Offset of the entry point.
    EntryOffset,
    /// Address at which execution goes on after an asynchronous exit.
    ExitAddr,
    /// Offset of the FS segment.
    FsOffset,
    /// Offset of the GS segment.
    GsOffset,
    /// Limit of the FS segment.
    FsLimit,
    /// Limit of the GS segment.
    GsLimit,
}

impl Field {
    /// The index of the field's first byte.
    pub open spec fn spec_offset(self) -> usize {
        match self {
            Field::State => 0,
            Field::Flags => 8,
            Field::SsaOffset => 16,
            Field::SsaIndex => 24,
            Field::NrSsaFrames => 28,
            Field::EntryOffset => 32,
            Field::ExitAddr => 40,
            Field::FsOffset => 48,
            Field::GsOffset => 56,
            Field::FsLimit => 64,
            Field::GsLimit => 68,
        }
    }

    /// The number of bytes that the field takes.
    pub open spec fn spec_size(self) -> usize {
        match self {
            Field::State => 8,
            Field::Flags => 8,
            Field::SsaOffset => 8,
            Field::SsaIndex => 4,
            Field::NrSsaFrames => 4,
            Field::EntryOffset => 8,
            Field::ExitAddr => 8,
            Field::FsOffset => 8,
            Field::GsOffset => 8,
            Field::FsLimit => 4,
            Field::GsLimit => 4,
        }
    }

    /// The index of the field's first byte.
    #[verifier::when_used_as_spec(spec_offset)]
    pub fn offset(self) -> (r: usize)
        ensures
            r == self.spec_offset(),
    {
        match self {
            Field::State => 0,
            Field::Flags => 8,
            Field::SsaOffset => 16,
            Field::SsaIndex => 24,
            Field::NrSsaFrames => 28,
            Field::EntryOffset => 32,
            Field::ExitAddr => 40,
            Field::FsOffset => 48,
            Field::GsOffset => 56,
            Field::FsLimit => 64,
            Field::GsLimit => 68,
        }
    }

    /// The number of bytes that the field takes.
    #[verifier::when_used_as_spec(spec_size)]
    pub fn size(self) -> (r: usize)
        ensures
            r == self.spec_size(),
    {
        match self {
            Field::State => 8,
            Field::Flags => 8,
            Field::SsaOffset => 8,
            Field::SsaIndex => 4,
            Field::NrSsaFrames => 4,
            Field::EntryOffset => 8,
            Field::ExitAddr => 8,
            Field::FsOffset => 8,
            Field::GsOffset => 8,
            Field::FsLimit => 4,
            Field::GsLimit => 4,
        }
    }

    /// The index of the first byte behind the field.
    pub open spec fn end(self) -> int {
        self.offset() + self.size()
    }
}

/// A page is a whole number of alignment units, so that pages laid side by
/// side are all aligned.
pub proof fn lemma_page_aligned()
    ensures
        TCS_SIZE == 4096,
        TCS_ALIGN == 4096,
        TCS_SIZE % TCS_ALIGN == 0,
{
}

/// Each field lies within the bytes kept for the fields, which lie within
/// the page, and starts at a multiple of its own size.
pub proof fn lemma_field_placed(f: Field)
    ensures
        f.end() <= TCS_FIELDS_END <= TCS_SIZE,
        f.offset() % f.size() == 0,
{
    if f.size() == 8 {
        assert(f.offset() % 8 == 0);
    } else {
        assert(f.offset() % 4 == 0);
    }
}

/// Two different fields share no byte.
pub proof fn lemma_fields_disjoint(f: Field, g: Field)
    requires
        f != g,
    ensures
        f.end() <= g.offset() || g.end() <= f.offset(),
{
}

/// The fields leave no gap: every byte before the reserved ones belongs to
/// a field.
pub proof fn lemma_fields_cover(i: int)
    requires
        0 <= i < TCS_FIELDS_END,
    ensures
        exists|f: Field| f.offset() <= i < #[trigger] f.end(),
{
    let f = if i < 8 {
        Field::State
    } else if i < 16 {
        Field::Flags
    } else if i < 24 {
        Field::SsaOffset
    } else if i < 28 {
        Field::SsaIndex
    } else if i < 32 {
        Field::NrSsaFrames
    } else if i < 40 {
        Field::EntryOffset
    } else if i < 48 {
        Field::ExitAddr
    } else if i < 56 {
        Field::FsOffset
    } else if i < 64 {
        Field::GsOffset
    } else if i < 68 {
        Field::FsLimit
    } else {
        Field::GsLimit
    };
    assert(f.offset() <= i < f.end());
}

} // verus!
