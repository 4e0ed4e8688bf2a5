//! Unsigned integers as bytes, in either byte order.

use vstd::arithmetic::power::pow;
use vstd::prelude::*;

verus! {

/// The order in which the bytes of an integer lie in memory.
#[derive(Debug, Clone, Copy, PartialEq, Eq, Structural)]
pub enum ByteOrder {
    /// The least significant byte comes first.
    Little,
    /// The most significant byte comes first.
    Big,
}

/// The `width` low base-256 digits of `value`, least significant first.
pub open spec fn le_bytes(value: nat, width: nat) -> Seq<u8>
    decreases width,
{
    if width == 0 {
        Seq::empty()
    } else {
        seq![(value % 256) as u8] + le_bytes(value / 256, (width - 1) as nat)
    }
}

/// The `width` low base-256 digits of `value`, most significant first.
pub open spec fn be_bytes(value: nat, width: nat) -> Seq<u8>
    decreases width,
{
    if width == 0 {
        Seq::empty()
    } else {
        be_bytes(value / 256, (width - 1) as nat).push((value % 256) as u8)
    }
}

/// The number whose digits are `bytes`, least significant first.
pub open spec fn le_value(bytes: Seq<u8>) -> nat
    decreases bytes.len(),
{
    if bytes.len() == 0 {
        0
    } else {
        bytes.first() as nat + 256 * le_value(bytes.drop_first())
    }
}

/// The number whose digits are `bytes`, most significant first.
pub open spec fn be_value(bytes: Seq<u8>) -> nat
    decreases bytes.len(),
{
    if bytes.len() == 0 {
        0
    } else {
        bytes.last() as nat + 256 * be_value(bytes.drop_last())
    }
}

/// The `width` bytes that hold `value` in the given order. A value too large
/// for `width` bytes loses its high digits.
pub open spec fn encode(value: nat, width: nat, order: ByteOrder) -> Seq<u8> {
    match order {
        ByteOrder::Little => le_bytes(value, width),
        ByteOrder::Big => be_bytes(value, width),
    }
}

/// The number that `bytes` hold in the given order.
pub open spec fn decode(bytes: Seq<u8>, order: ByteOrder) -> nat {
    match order {
        ByteOrder::Little => le_value(bytes),
        ByteOrder::Big => be_value(bytes),
    }
}

/// An encoding is as long as the width asked for.
pub proof fn lemma_encode_len(value: nat, width: nat, order: ByteOrder)
    ensures
        encode(value, width, order).len() == width,
    decreases width,
{
    if width > 0 {
        lemma_encode_len(value / 256, (width - 1) as nat, order);
    }
}

/// Decoding undoes encoding, for every value that fits the width.
pub proof fn lemma_decode_encode(value: nat, width: nat, order: ByteOrder)
    requires
        value < pow(256, width),
    ensures
        decode(encode(value, width, order), order) == value,
    decreases width,
{
    reveal(pow);
    if width > 0 {
        let rest = (width - 1) as nat;
        assert(pow(256, width) == 256 * pow(256, rest));
        lemma_encode_len(value / 256, rest, order);
        lemma_decode_encode(value / 256, rest, order);
        match order {
            ByteOrder::Little => {
                let s = le_bytes(value, width);
                assert(s.drop_first() =~= le_bytes(value / 256, rest));
            },
            ByteOrder::Big => {
                let s = be_bytes(value, width);
                assert(s.drop_last() =~= be_bytes(value / 256, rest));
            },
        }
    }
}

/// Writes the `width` bytes that hold `value` in the given order into `buf`,
/// from index `offset` on. The bytes before and after them stay as they are.
pub fn store(buf: &mut [u8], offset: usize, width: usize, value: u64, order: ByteOrder)
    requires
        offset + width <= old(buf)@.len(),
    ensures
        final(buf)@ == old(buf)@.subrange(0, offset as int) + encode(
            value as nat,
            width as nat,
            order,
        ) + old(buf)@.subrange(offset + width, old(buf)@.len() as int),
{
    let ghost before = buf@;
    let ghost target = encode(value as nat, width as nat, order);
    let mut rest: u64 = value;
    let mut i: usize = 0;
    proof {
        assert(before.len() == buf.len());
        lemma_encode_len(value as nat, width as nat, order);
    }
    while i < width
        invariant
            i <= width,
            offset + width <= before.len() <= usize::MAX,
            buf@.len() == before.len(),
            target.len() == width,
            forall|j: int|
                0 <= j < before.len() && !(offset <= j < offset + width) ==> buf@[j] == before[j],
            order == ByteOrder::Little ==> target == buf@.subrange(
                offset as int,
                offset + i,
            ) + le_bytes(rest as nat, (width - i) as nat),
            order == ByteOrder::Big ==> target == be_bytes(rest as nat, (width - i) as nat)
                + buf@.subrange(offset + width - i, offset + width),
        decreases width - i,
    {
        let digit = (rest % 256) as u8;
        let at = match order {
            ByteOrder::Little => offset + i,
            ByteOrder::Big => offset + (width - 1 - i),
        };
        let ghost earlier = buf@;
        buf[at] = digit;
        proof {
            let left = (width - i) as nat;
            lemma_encode_len((rest / 256) as nat, (left - 1) as nat, order);
            match order {
                ByteOrder::Little => {
                    assert(buf@.subrange(offset as int, offset + i + 1) + le_bytes(
                        (rest / 256) as nat,
                        (left - 1) as nat,
                    ) =~= earlier.subrange(offset as int, offset + i) + le_bytes(
                        rest as nat,
                        left,
                    ));
                },
                ByteOrder::Big => {
                    assert(be_bytes((rest / 256) as nat, (left - 1) as nat) + buf@.subrange(
                        offset + width - i - 1,
                        offset + width,
                    ) =~= be_bytes(rest as nat, left) + earlier.subrange(
                        offset + width - i,
                        offset + width,
                    ));
                },
            }
        }
        rest = rest / 256;
        i += 1;
    }
    proof {
        assert(buf@ =~= before.subrange(0, offset as int) + target + before.subrange(
            offset + width,
            before.len() as int,
        ));
    }
}

/// The two bytes of `x` as this machine holds them in memory, from
/// `u16::to_ne_bytes`. Nothing is proved of it: the contract takes from the
/// documentation of that function that the bytes are those of `x` in one of
/// the two byte orders.
#[verifier::external_body]
fn native_bytes(x: u16) -> (bytes: [u8; 2])
    ensures
        bytes@ == encode(x as nat, 2, ByteOrder::Little) || bytes@ == encode(
            x as nat,
            2,
            ByteOrder::Big,
        ),
{
    x.to_ne_bytes()
}

/// The number 1 in two bytes, in either order.
pub proof fn lemma_encode_one()
    ensures
        encode(1, 2, ByteOrder::Little) == seq![1u8, 0u8],
        encode(1, 2, ByteOrder::Big) == seq![0u8, 1u8],
{
    reveal_with_fuel(le_bytes, 3);
    reveal_with_fuel(be_bytes, 3);
    assert(le_bytes(1, 2) =~= seq![1u8, 0u8]);
    assert(be_bytes(1, 2) =~= seq![0u8, 1u8]);
}

impl ByteOrder {
    /// The order in which `probe` holds the number 1, if it holds it in
    /// either.
    pub fn of_probe(probe: &[u8; 2]) -> (r: Option<ByteOrder>)
        ensures
            r == Some(ByteOrder::Little) <==> probe@ == encode(1, 2, ByteOrder::Little),
            r == Some(ByteOrder::Big) <==> probe@ == encode(1, 2, ByteOrder::Big),
            r.is_none() <==> probe@ != encode(1, 2, ByteOrder::Little) && probe@ != encode(
                1,
                2,
                ByteOrder::Big,
            ),
    {
        proof {
            lemma_encode_one();
        }
        if probe[0] == 1 && probe[1] == 0 {
            assert(probe@ =~= seq![1u8, 0u8]);
            Some(ByteOrder::Little)
        } else if probe[0] == 0 && probe[1] == 1 {
            assert(probe@ =~= seq![0u8, 1u8]);
            Some(ByteOrder::Big)
        } else {
            None
        }
    }

    /// The byte order of the machine that runs this code: the order in which
    /// it holds the number 1 in two bytes. Which of the two orders that is
    /// differs from machine to machine, so the contract is silent on it.
    pub fn native() -> ByteOrder {
        let probe = native_bytes(1);
        match ByteOrder::of_probe(&probe) {
            Some(order) => order,
            None => vstd::pervasive::unreached(),
        }
    }
}

} // verus!
