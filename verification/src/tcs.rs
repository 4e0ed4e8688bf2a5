//! The thread control structure and its byte image.

use crate::byte_order::{
    decode, encode, lemma_decode_encode, lemma_encode_len, store, ByteOrder,
};
use crate::flags::Flags;
use crate::layout::{Field, TCS_FIELDS_END, TCS_SIZE};
use vstd::arithmetic::power::pow;
use vstd::prelude::*;

verus! {

/// A thread control structure: one entry point into an enclave, with the
/// place where the processor saves the thread's state when it leaves.
///
/// The processor reads it from enclave memory as a page of bytes, and owns
/// `state` and `ssa_index` from then on.
#[derive(Debug, Clone, Copy, PartialEq, Eq, Structural)]
pub struct Tcs {
    /// 0 while no thread has entered through this structure.
    pub state: u64,
    /// Execution flags.
    pub flags: Flags,
    /// Offset of the stack of state save areas, from the base of the enclave.
    pub ssa_offset: u64,
    /// Index of the current state save area frame.
    pub ssa_index: u32,
    /// Number of frames in the stack of state save areas.
    pub nr_ssa_frames: u32,
    /// Offset of the entry point, from the base of the enclave.
    pub entry_offset: u64,
    /// Address outside the enclave at which execution goes on after an
    /// exception or an interrupt.
    pub exit_addr: u64,
    /// Offset of the FS segment, from the base of the enclave.
    pub fs_offset: u64,
    /// Offset of the GS segment, from the base of the enclave.
    pub gs_offset: u64,
    /// Limit of the FS segment, for 32-bit enclaves.
    pub fs_limit: u32,
    /// Limit of the GS segment, for 32-bit enclaves.
    pub gs_limit: u32,
}

/// `len` bytes, each of them 0.
pub open spec fn zeros(len: nat) -> Seq<u8> {
    Seq::new(len, |i: int| 0u8)
}

impl Tcs {
    /// The number that the field `f` holds.
    pub open spec fn value(&self, f: Field) -> u64 {
        match f {
            Field::State => self.state,
            Field::Flags => self.flags@,
            Field::SsaOffset => self.ssa_offset,
            Field::SsaIndex => self.ssa_index as u64,
            Field::NrSsaFrames => self.nr_ssa_frames as u64,
            Field::EntryOffset => self.entry_offset,
            Field::ExitAddr => self.exit_addr,
            Field::FsOffset => self.fs_offset,
            Field::GsOffset => self.gs_offset,
            Field::FsLimit => self.fs_limit as u64,
            Field::GsLimit => self.gs_limit as u64,
        }
    }

    /// The bytes of the field `f` in the given order.
    pub open spec fn field_bytes(&self, f: Field, order: ByteOrder) -> Seq<u8> {
        encode(self.value(f) as nat, f.size() as nat, order)
    }

    /// The page of bytes that stands for this structure in memory: its
    /// fields one after the other, each in the given byte order, and zeros up
    /// to the end of the page.
    pub open spec fn image(&self, order: ByteOrder) -> Seq<u8> {
        self.field_bytes(Field::State, order)
            + self.field_bytes(Field::Flags, order)
            + self.field_bytes(Field::SsaOffset, order)
            + self.field_bytes(Field::SsaIndex, order)
            + self.field_bytes(Field::NrSsaFrames, order)
            + self.field_bytes(Field::EntryOffset, order)
            + self.field_bytes(Field::ExitAddr, order)
            + self.field_bytes(Field::FsOffset, order)
            + self.field_bytes(Field::GsOffset, order)
            + self.field_bytes(Field::FsLimit, order)
            + self.field_bytes(Field::GsLimit, order)
            + zeros((TCS_SIZE - TCS_FIELDS_END) as nat)
    }

    /// A structure for a thread that enters at `entry` and saves its state in
    /// `nssa` frames at `ssa`, both offsets from the base of the enclave.
    /// Every other field is 0, and no flag is set.
    pub fn new(entry: u64, ssa: u64, nssa: u32) -> (t: Tcs)
        ensures
            t.state == 0,
            t.flags@ == 0,
            t.ssa_offset == ssa,
            t.ssa_index == 0,
            t.nr_ssa_frames == nssa,
            t.entry_offset == entry,
            t.exit_addr == 0,
            t.fs_offset == 0,
            t.gs_offset == 0,
            t.fs_limit == 0,
            t.gs_limit == 0,
    {
        Tcs {
            state: 0,
            flags: Flags::empty(),
            ssa_offset: ssa,
            ssa_index: 0,
            nr_ssa_frames: nssa,
            entry_offset: entry,
            exit_addr: 0,
            fs_offset: 0,
            gs_offset: 0,
            fs_limit: 0,
            gs_limit: 0,
        }
    }

    /// The number that the field `f` holds.
    pub fn get(&self, f: Field) -> (v: u64)
        ensures
            v == self.value(f),
    {
        match f {
            Field::State => self.state,
            Field::Flags => self.flags.bits(),
            Field::SsaOffset => self.ssa_offset,
            Field::SsaIndex => self.ssa_index as u64,
            Field::NrSsaFrames => self.nr_ssa_frames as u64,
            Field::EntryOffset => self.entry_offset,
            Field::ExitAddr => self.exit_addr,
            Field::FsOffset => self.fs_offset,
            Field::GsOffset => self.gs_offset,
            Field::FsLimit => self.fs_limit as u64,
            Field::GsLimit => self.gs_limit as u64,
        }
    }

    /// Writes the bytes of the field `f` into a page that holds `head`, the
    /// bytes of the fields before `f`, and zeros behind them. Gives back the
    /// bytes of the fields up to `f`, which the page then holds.
    fn append(
        &self,
        page: &mut [u8; TCS_SIZE],
        f: Field,
        order: ByteOrder,
        Ghost(head): Ghost<Seq<u8>>,
    ) -> (next: Ghost<Seq<u8>>)
        requires
            head.len() == f.offset(),
            old(page)@ == head + zeros((TCS_SIZE - head.len()) as nat),
        ensures
            next@ == head + self.field_bytes(f, order),
            next@.len() == f.end(),
            final(page)@ == next@ + zeros((TCS_SIZE - next@.len()) as nat),
    {
        store(page, f.offset(), f.size(), self.get(f), order);
        proof {
            lemma_encode_len(self.value(f) as nat, f.size() as nat, order);
            assert(page@ =~= head + self.field_bytes(f, order) + zeros(
                (TCS_SIZE - f.end()) as nat,
            ));
        }
        Ghost(head + self.field_bytes(f, order))
    }

    /// The page of bytes that stands for this structure, with each field in
    /// the given byte order.
    pub fn to_bytes_in(&self, order: ByteOrder) -> (page: [u8; TCS_SIZE])
        ensures
            page@.len() == TCS_SIZE,
            page@ == self.image(order),
    {
        let mut page = [0u8; TCS_SIZE];
        let head = Ghost(Seq::empty());
        assert(page@ =~= head@ + zeros((TCS_SIZE - head@.len()) as nat));
        let head = self.append(&mut page, Field::State, order, head);
        let head = self.append(&mut page, Field::Flags, order, head);
        let head = self.append(&mut page, Field::SsaOffset, order, head);
        let head = self.append(&mut page, Field::SsaIndex, order, head);
        let head = self.append(&mut page, Field::NrSsaFrames, order, head);
        let head = self.append(&mut page, Field::EntryOffset, order, head);
        let head = self.append(&mut page, Field::ExitAddr, order, head);
        let head = self.append(&mut page, Field::FsOffset, order, head);
        let head = self.append(&mut page, Field::GsOffset, order, head);
        let head = self.append(&mut page, Field::FsLimit, order, head);
        let head = self.append(&mut page, Field::GsLimit, order, head);
        assert(head@ + zeros((TCS_SIZE - head@.len()) as nat) == self.image(order));
        page
    }

    /// The page of bytes that stands for this structure in the memory of the
    /// machine that runs this code: each field in that machine's byte order.
    /// The contract cannot name that order, and states that the page is the
    /// image in one of the two.
    pub fn to_bytes(&self) -> (page: [u8; TCS_SIZE])
        ensures
            page@.len() == TCS_SIZE,
            page@ == self.image(ByteOrder::Little) || page@ == self.image(ByteOrder::Big),
    {
        self.to_bytes_in(ByteOrder::native())
    }

    /// Every image is one page long.
    pub proof fn lemma_image_len(t: Tcs, order: ByteOrder)
        ensures
            t.image(order).len() == TCS_SIZE,
    {
        t.lemma_field_bytes_len(order);
    }

    /// In every image the bytes of each field lie at the field's offset.
    pub proof fn lemma_image_field(t: Tcs, order: ByteOrder, f: Field)
        ensures
            t.image(order).subrange(f.offset() as int, f.offset() + f.size()) == t.field_bytes(
                f,
                order,
            ),
    {
        t.lemma_field_bytes_len(order);
        assert(t.image(order).subrange(f.offset() as int, f.offset() + f.size()) =~= t.field_bytes(
            f,
            order,
        ));
    }

    /// In every image the bytes at a field's offset, read as a number in the
    /// byte order of the image, give the value of the field.
    pub proof fn lemma_image_round_trip(t: Tcs, order: ByteOrder, f: Field)
        ensures
            decode(t.image(order).subrange(f.offset() as int, f.offset() + f.size()), order)
                == t.value(f),
    {
        Self::lemma_image_field(t, order, f);
        assert(pow(256, 4) == 0x1_0000_0000 && pow(256, 8) == 0x1_0000_0000_0000_0000) by {
            reveal_with_fuel(pow, 9);
        }
        lemma_decode_encode(t.value(f) as nat, f.size() as nat, order);
    }

    /// In every image the bytes behind the last field are 0.
    pub proof fn lemma_image_padding(t: Tcs, order: ByteOrder, i: int)
        requires
            TCS_FIELDS_END <= i < TCS_SIZE,
        ensures
            t.image(order)[i] == 0,
    {
        t.lemma_field_bytes_len(order);
    }

    /// The bytes of each field are as many as the field's size.
    proof fn lemma_field_bytes_len(&self, order: ByteOrder)
        ensures
            forall|f: Field| #[trigger] self.field_bytes(f, order).len() == f.size(),
    {
        assert forall|f: Field| #[trigger] self.field_bytes(f, order).len() == f.size() by {
            lemma_encode_len(self.value(f) as nat, f.size() as nat, order);
        }
    }
}

} // verus!
