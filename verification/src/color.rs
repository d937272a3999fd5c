//! Colour values handed to the hardware outputs, and their wire form.
use vstd::prelude::*;

verus! {

/// One RGB colour, eight bits per channel.
#[derive(Clone, Copy, Debug, PartialEq, Eq, Structural)]
pub struct RGBPixel {
    pub red: u8,
    pub green: u8,
    pub blue: u8,
}

/// The wire bytes of a pixel sequence: red, green, blue of each pixel in turn.
pub open spec fn rgb_bytes(colors: Seq<RGBPixel>) -> Seq<u8>
    decreases colors.len(),
{
    if colors.len() == 0 {
        Seq::empty()
    } else {
        let p = colors.last();
        rgb_bytes(colors.drop_last()) + seq![p.red, p.green, p.blue]
    }
}

/// Three bytes per pixel.
pub proof fn lemma_rgb_bytes_len(colors: Seq<RGBPixel>)
    ensures
        rgb_bytes(colors).len() == 3 * colors.len(),
    decreases colors.len(),
{
    if colors.len() > 0 {
        lemma_rgb_bytes_len(colors.drop_last());
    }
}

/// The wire form of two concatenated pixel runs is the concatenation of their wire forms.
pub proof fn lemma_rgb_bytes_concat(a: Seq<RGBPixel>, b: Seq<RGBPixel>)
    ensures
        rgb_bytes(a + b) == rgb_bytes(a) + rgb_bytes(b),
    decreases b.len(),
{
    if b.len() == 0 {
        assert(a + b =~= a);
        assert(rgb_bytes(b) =~= Seq::<u8>::empty());
        assert(rgb_bytes(a) + rgb_bytes(b) =~= rgb_bytes(a));
    } else {
        lemma_rgb_bytes_concat(a, b.drop_last());
        assert((a + b).drop_last() =~= a + b.drop_last());
        assert((a + b).last() == b.last());
        assert(rgb_bytes(a + b) =~= rgb_bytes(a) + rgb_bytes(b));
    }
}

/// Byte `k` of the wire form is channel `k % 3` of pixel `k / 3`.
pub proof fn lemma_rgb_bytes_index(colors: Seq<RGBPixel>, k: int)
    requires
        0 <= k < 3 * colors.len(),
    ensures
        rgb_bytes(colors).len() == 3 * colors.len(),
        rgb_bytes(colors)[k] == (if k % 3 == 0 {
            colors[k / 3].red
        } else if k % 3 == 1 {
            colors[k / 3].green
        } else {
            colors[k / 3].blue
        }),
    decreases colors.len(),
{
    lemma_rgb_bytes_len(colors);
    let n = colors.len();
    lemma_rgb_bytes_len(colors.drop_last());
    if k < 3 * (n - 1) {
        lemma_rgb_bytes_index(colors.drop_last(), k);
    }
}

/// Append the wire form of `colors[start..end]` to `buf`.
pub fn push_rgb_range(buf: &mut Vec<u8>, colors: &[RGBPixel], start: usize, end: usize)
    requires
        start <= end <= colors@.len(),
    ensures
        final(buf)@ == old(buf)@ + rgb_bytes(colors@.subrange(start as int, end as int)),
{
    let ghost first = buf@;
    let mut i: usize = start;
    while i < end
        invariant
            start <= i <= end <= colors@.len(),
            buf@ == first + rgb_bytes(colors@.subrange(start as int, i as int)),
        decreases end - i,
    {
        let c = colors[i];
        buf.push(c.red);
        buf.push(c.green);
        buf.push(c.blue);
        i = i + 1;
        assert(colors@.subrange(start as int, i as int).drop_last() =~= colors@.subrange(
            start as int,
            i - 1,
        ));
        assert(buf@ =~= first + rgb_bytes(colors@.subrange(start as int, i as int)));
    }
}

/// Append the wire form of `colors` to `buf`.
pub fn push_rgb_bytes(buf: &mut Vec<u8>, colors: &[RGBPixel])
    ensures
        final(buf)@ == old(buf)@ + rgb_bytes(colors@),
{
    push_rgb_range(buf, colors, 0, colors.len());
    assert(colors@.subrange(0, colors@.len() as int) =~= colors@);
}

} // verus!
