//! Little-endian numbers of a given width, as they lie in another process's
//! memory.
use vstd::prelude::*;

verus! {

/// The number of bytes of a pointer on this target.
pub open spec fn pointer_width() -> nat {
    (usize::BITS / 8) as nat
}

/// The number of bytes of a pointer on this target.
pub fn pointer_size() -> (n: usize)
    ensures
        n == pointer_width(),
        n == 4 || n == 8,
{
    (usize::BITS / 8) as usize
}

/// 256 to the power `n`: the number of values that `n` bytes can hold.
pub open spec fn pow256(n: nat) -> nat
    decreases n,
{
    if n == 0 {
        1
    } else {
        256 * pow256((n - 1) as nat)
    }
}

/// The number that `bytes` hold, least significant byte first.
pub open spec fn le_value(bytes: Seq<u8>) -> nat
    decreases bytes.len(),
{
    if bytes.len() == 0 {
        0
    } else {
        bytes[0] as nat + 256 * le_value(bytes.skip(1))
    }
}

/// The `width` bytes that hold `value`, least significant byte first.
pub open spec fn le_bytes(value: nat, width: nat) -> Seq<u8>
    decreases width,
{
    if width == 0 {
        Seq::<u8>::empty()
    } else {
        seq![(value % 256) as u8] + le_bytes(value / 256, (width - 1) as nat)
    }
}

/// The numbers of values that one, two, four and eight bytes can hold.
pub proof fn lemma_pow256_values()
    ensures
        pow256(0) == 1,
        pow256(1) == 0x100,
        pow256(2) == 0x1_0000,
        pow256(4) == 0x1_0000_0000,
        pow256(8) == 0x1_0000_0000_0000_0000,
{
    reveal_with_fuel(pow256, 9);
}

/// A number written in `width` bytes takes `width` bytes.
pub proof fn lemma_le_bytes_len(value: nat, width: nat)
    ensures
        le_bytes(value, width).len() == width,
    decreases width,
{
    if width > 0 {
        lemma_le_bytes_len(value / 256, (width - 1) as nat);
    }
}

/// What bytes hold is below 256 to the power of their count.
pub proof fn lemma_le_value_bound(bytes: Seq<u8>)
    ensures
        le_value(bytes) < pow256(bytes.len()),
    decreases bytes.len(),
{
    if bytes.len() > 0 {
        lemma_le_value_bound(bytes.skip(1));
    }
}

/// Writing a number that fits and reading it back gives the number.
pub proof fn lemma_le_value_of_bytes(value: nat, width: nat)
    requires
        value < pow256(width),
    ensures
        le_value(le_bytes(value, width)) == value,
    decreases width,
{
    if width > 0 {
        let rest = le_bytes(value / 256, (width - 1) as nat);
        let all = le_bytes(value, width);
        assert(all.skip(1) == rest);
        assert(all[0] == (value % 256) as u8);
        lemma_le_value_of_bytes(value / 256, (width - 1) as nat);
    }
}

/// Reading bytes as a number and writing it in as many bytes gives the bytes.
pub proof fn lemma_le_bytes_of_value(bytes: Seq<u8>)
    ensures
        le_bytes(le_value(bytes), bytes.len()) == bytes,
    decreases bytes.len(),
{
    if bytes.len() > 0 {
        let v = le_value(bytes);
        let rest = le_value(bytes.skip(1));
        lemma_le_bytes_of_value(bytes.skip(1));
        assert(v % 256 == bytes[0] as nat && v / 256 == rest) by (nonlinear_arith)
            requires
                v == bytes[0] as nat + 256 * rest,
                bytes[0] < 256,
        ;
        assert(le_bytes(v, bytes.len()) == bytes);
    }
}

/// Appends to `out` the `width` bytes that hold `value`, least significant first.
pub fn push_le(out: &mut Vec<u8>, value: u64, width: usize)
    ensures
        final(out)@ == old(out)@ + le_bytes(value as nat, width as nat),
{
    let mut rest: u64 = value;
    let mut i: usize = 0;
    while i < width
        invariant
            i <= width,
            out@ + le_bytes(rest as nat, (width - i) as nat) == old(out)@ + le_bytes(
                value as nat,
                width as nat,
            ),
        decreases width - i,
    {
        let ghost before = out@;
        out.push((rest % 256) as u8);
        proof {
            let tail = le_bytes(rest as nat / 256, (width - i - 1) as nat);
            assert(le_bytes(rest as nat, (width - i) as nat) == seq![(rest as nat % 256) as u8]
                + tail);
            assert(out@ + tail == before + (seq![(rest as nat % 256) as u8] + tail));
        }
        rest = rest / 256;
        i = i + 1;
    }
    assert(le_bytes(rest as nat, 0) == Seq::<u8>::empty());
    assert(out@ + Seq::<u8>::empty() == out@);
}

/// Reads the number that `bytes[from..from + width]` hold, least significant
/// byte first.
pub fn read_le(bytes: &Vec<u8>, from: usize, width: usize) -> (value: u64)
    requires
        width <= 8,
        from + width <= bytes@.len(),
    ensures
        value == le_value(bytes@.subrange(from as int, from + width)),
{
    let ghost field = bytes@.subrange(from as int, from + width);
    let mut value: u64 = 0;
    let mut i: usize = width;
    proof {
        assert(field.skip(width as int).len() == 0);
    }
    while i > 0
        invariant
            i <= width <= 8,
            from + width <= bytes.len(),
            field == bytes@.subrange(from as int, from + width),
            value == le_value(field.skip(i as int)),
        decreases i,
    {
        i = i - 1;
        proof {
            let lower = field.skip(i as int);
            assert(lower.skip(1) == field.skip(i + 1));
            assert(lower[0] == bytes@[from + i]);
            lemma_le_value_bound(field.skip(i + 1));
            lemma_le_value_bound(lower);
            lemma_pow256_monotonic(lower.len(), 8);
            lemma_pow256_values();
        }
        value = value * 256 + bytes[from + i] as u64;
    }
    assert(field.skip(0) == field);
    value
}

/// More bytes hold at least as many values.
pub proof fn lemma_pow256_monotonic(a: nat, b: nat)
    requires
        a <= b,
    ensures
        pow256(a) <= pow256(b),
    decreases b,
{
    if a < b {
        lemma_pow256_monotonic(a, (b - 1) as nat);
    }
}

} // verus!
