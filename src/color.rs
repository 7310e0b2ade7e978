use vstd::prelude::*;
use crate::bind::GetBytes;

verus! {

/// IEEE-754 binary32 bit pattern of `1.0`, the opaque alpha.
pub const ONE: u32 = 0x3f80_0000;

/// IEEE-754 binary32 bit pattern of `0.0`.
pub const ZERO: u32 = 0;

/// A colour of four channels r, g, b, a. Each channel is held as the bit
/// pattern of an IEEE-754 binary32 float, so the value is exactly what the
/// GPU reads; no range is enforced (HDR values are fine).
#[derive(Clone, Copy, Debug)]
pub struct Color {
    pub channels: [u32; 4],
}

/// The four bytes of a word, least significant first.
pub open spec fn le_word(w: u32) -> Seq<u8> {
    seq![(w & 0xff) as u8, ((w >> 8u32) & 0xff) as u8, ((w >> 16u32) & 0xff) as u8, ((w >> 24u32) & 0xff) as u8]
}

/// The four bytes of a word, most significant first.
pub open spec fn be_word(w: u32) -> Seq<u8> {
    seq![((w >> 24u32) & 0xff) as u8, ((w >> 16u32) & 0xff) as u8, ((w >> 8u32) & 0xff) as u8, (w & 0xff) as u8]
}

/// Four words laid end to end with no padding, each in the given byte order.
pub open spec fn words_layout(w: Seq<u32>, little: bool) -> Seq<u8> {
    if little {
        le_word(w[0]) + le_word(w[1]) + le_word(w[2]) + le_word(w[3])
    } else {
        be_word(w[0]) + be_word(w[1]) + be_word(w[2]) + be_word(w[3])
    }
}

/// The colour built from four channels in the order r, g, b, a.
pub open spec fn color_of(ch: Seq<u32>) -> Color {
    Color { channels: [ch[0], ch[1], ch[2], ch[3]] }
}

impl View for Color {
    type V = Seq<u32>;

    /// The channels in the order r, g, b, a.
    open spec fn view(&self) -> Seq<u32> {
        self.channels@
    }
}

impl Color {
    /// The uniform payload: sixteen bytes, the channels r, g, b, a in turn,
    /// each the little-endian bytes of its binary32 pattern, with no padding.
    /// Little-endian is the native order of the hosts the renderer targets;
    /// the borrowed view of `get_bytes_ref` is given only where the value's
    /// memory has exactly this order.
    pub open spec fn layout(self) -> Seq<u8> {
        words_layout(self.channels@, true)
    }

    /// An opaque colour: alpha is `1.0`.
    pub fn rgb(r: u32, g: u32, b: u32) -> (c: Color)
        ensures
            c@ == seq![r, g, b, ONE],
            c@[3] == ONE,
    {
        Color { channels: [r, g, b, ONE] }
    }

    /// A colour with all four channels given.
    pub fn rgba(r: u32, g: u32, b: u32, a: u32) -> (c: Color)
        ensures
            c@ == seq![r, g, b, a],
    {
        Color { channels: [r, g, b, a] }
    }

    /// Palette entry white.
    pub fn white() -> (c: Color)
        ensures
            c@ == seq![ONE, ONE, ONE, ONE],
    {
        Color { channels: [ONE, ONE, ONE, ONE] }
    }

    /// Palette entry "black". It holds the pattern of green, as the palette
    /// has always had it; true black is `Color::rgb(ZERO, ZERO, ZERO)`.
    pub fn black() -> (c: Color)
        ensures
            c@ == seq![ZERO, ONE, ZERO, ONE],
    {
        Color { channels: [ZERO, ONE, ZERO, ONE] }
    }

    /// Palette entry red.
    pub fn red() -> (c: Color)
        ensures
            c@ == seq![ONE, ZERO, ZERO, ONE],
    {
        Color { channels: [ONE, ZERO, ZERO, ONE] }
    }

    /// Palette entry green.
    pub fn green() -> (c: Color)
        ensures
            c@ == seq![ZERO, ONE, ZERO, ONE],
    {
        Color { channels: [ZERO, ONE, ZERO, ONE] }
    }

    /// Palette entry blue.
    pub fn blue() -> (c: Color)
        ensures
            c@ == seq![ZERO, ZERO, ONE, ONE],
    {
        Color { channels: [ZERO, ZERO, ONE, ONE] }
    }

    pub fn r(&self) -> (v: u32)
        ensures
            v == self@[0],
    {
        self.channels[0]
    }

    pub fn g(&self) -> (v: u32)
        ensures
            v == self@[1],
    {
        self.channels[1]
    }

    pub fn b(&self) -> (v: u32)
        ensures
            v == self@[2],
    {
        self.channels[2]
    }

    pub fn a(&self) -> (v: u32)
        ensures
            v == self@[3],
    {
        self.channels[3]
    }
}

/// Relies on zerocopy's `AsBytes::as_bytes` on `[u32; 4]`: the sixteen bytes
/// of the array's own memory, the words in order with no padding, each in the
/// machine's byte order.
#[verifier::external_body]
fn memory_bytes(w: &[u32; 4]) -> (r: &[u8])
    ensures
        r@ == words_layout(w@, true) || r@ == words_layout(w@, false),
{
    zerocopy::AsBytes::as_bytes(w)
}

/// Appends the little-endian bytes of `w`.
fn push_le_word(out: &mut Vec<u8>, w: u32)
    ensures
        final(out)@ == old(out)@ + le_word(w),
{
    out.push((w & 0xff) as u8);
    out.push(((w >> 8u32) & 0xff) as u8);
    out.push(((w >> 16u32) & 0xff) as u8);
    out.push(((w >> 24u32) & 0xff) as u8);
    assert(final(out)@ =~= old(out)@ + le_word(w));
}

/// Whether the four bytes of `x` from `at` on are the little-endian bytes
/// of `w`.
fn word_matches(x: &[u8], at: usize, w: u32) -> (r: bool)
    requires
        at + 4 <= x@.len(),
    ensures
        r == (x@.subrange(at as int, at + 4) == le_word(w)),
{
    let same = x[at] == (w & 0xff) as u8 && x[at + 1] == ((w >> 8u32) & 0xff) as u8
        && x[at + 2] == ((w >> 16u32) & 0xff) as u8 && x[at + 3] == ((w >> 24u32) & 0xff) as u8;
    proof {
        let part = x@.subrange(at as int, at + 4);
        if same {
            assert(part =~= le_word(w));
        } else {
            assert(part[0] == x@[at as int] && part[1] == x@[at + 1] && part[2] == x@[at + 2]
                && part[3] == x@[at + 3]);
        }
    }
    same
}

/// Whether `x` holds exactly the payload of the channels `ch`, compared in
/// place.
fn matches_layout(x: &[u8], ch: &[u32; 4]) -> (r: bool)
    ensures
        r == (x@ == words_layout(ch@, true)),
{
    if x.len() != 16 {
        return false;
    }
    let same = word_matches(x, 0, ch[0]) && word_matches(x, 4, ch[1]) && word_matches(x, 8, ch[2])
        && word_matches(x, 12, ch[3]);
    proof {
        let l = words_layout(ch@, true);
        assert(l.subrange(0, 4) =~= le_word(ch@[0]));
        assert(l.subrange(4, 8) =~= le_word(ch@[1]));
        assert(l.subrange(8, 12) =~= le_word(ch@[2]));
        assert(l.subrange(12, 16) =~= le_word(ch@[3]));
        if same {
            assert(x@ =~= l) by {
                assert forall|i: int| 0 <= i < 16 implies x@[i] == l[i] by {
                    if i < 4 {
                        assert(x@.subrange(0, 4)[i] == l.subrange(0, 4)[i]);
                    } else if i < 8 {
                        assert(x@.subrange(4, 8)[i - 4] == l.subrange(4, 8)[i - 4]);
                    } else if i < 12 {
                        assert(x@.subrange(8, 12)[i - 8] == l.subrange(8, 12)[i - 8]);
                    } else {
                        assert(x@.subrange(12, 16)[i - 12] == l.subrange(12, 16)[i - 12]);
                    }
                }
            }
        }
    }
    same
}

impl Color {
    /// The channels as an array r, g, b, a.
    pub fn to_array(self) -> (r: [u32; 4])
        ensures
            r@ == self@,
    {
        self.channels
    }
}

impl GetBytes for Color {
    open spec fn payload(&self) -> Seq<u8> {
        self.layout()
    }

    /// The uniform payload as an owned buffer: sixteen bytes, the channels
    /// r, g, b, a in turn, each the little-endian bytes of its pattern.
    fn get_bytes(&self) -> (r: Vec<u8>)
        ensures
            r@ == self.layout(),
            r@.len() == 16,
    {
        let mut out: Vec<u8> = Vec::new();
        push_le_word(&mut out, self.channels[0]);
        push_le_word(&mut out, self.channels[1]);
        push_le_word(&mut out, self.channels[2]);
        push_le_word(&mut out, self.channels[3]);
        assert(out@ =~= self.layout());
        out
    }

    /// The uniform payload borrowed from the colour's own memory, given only
    /// where that memory already holds exactly the bytes of `get_bytes`; a
    /// caller falls back to `get_bytes` on `None`.
    fn get_bytes_ref(&self) -> (r: Option<&[u8]>)
        ensures
            r matches Some(v) ==> v@ == self.layout(),
            r is None ==> words_layout(self.channels@, false) != self.layout(),
    {
        let view = memory_bytes(&self.channels);
        if matches_layout(view, &self.channels) {
            Some(view)
        } else {
            None
        }
    }
}

impl Default for Color {
    /// All four channels zero: transparent black.
    fn default() -> (c: Color)
        ensures
            c@ == seq![ZERO, ZERO, ZERO, ZERO],
    {
        Color { channels: [ZERO, ZERO, ZERO, ZERO] }
    }
}

impl From<[u32; 4]> for Color {
    /// The colour with channels r, g, b, a taken from the array in order.
    fn from(ch: [u32; 4]) -> (c: Color) {
        Color { channels: ch }
    }
}

impl vstd::std_specs::convert::FromSpecImpl<[u32; 4]> for Color {
    open spec fn obeys_from_spec() -> bool {
        true
    }

    open spec fn from_spec(ch: [u32; 4]) -> Color {
        Color { channels: ch }
    }
}

impl From<Color> for [u32; 4] {
    /// The channels of the colour in the order r, g, b, a.
    fn from(c: Color) -> (r: [u32; 4]) {
        c.channels
    }
}

impl vstd::std_specs::convert::FromSpecImpl<Color> for [u32; 4] {
    open spec fn obeys_from_spec() -> bool {
        true
    }

    open spec fn from_spec(c: Color) -> [u32; 4] {
        c.channels
    }
}

/// Round trip: a colour turned into its channel array and back is the same
/// colour, bit for bit; an array turned into a colour and back is the same
/// array; and four channels built into a colour come back unchanged.
pub proof fn lemma_channels_round_trip(c: Color, arr: [u32; 4], ch: Seq<u32>)
    requires
        ch.len() == 4,
    ensures
        <Color as vstd::std_specs::convert::FromSpec<[u32; 4]>>::from_spec(
            <[u32; 4] as vstd::std_specs::convert::FromSpec<Color>>::from_spec(c),
        ) == c,
        <[u32; 4] as vstd::std_specs::convert::FromSpec<Color>>::from_spec(
            <Color as vstd::std_specs::convert::FromSpec<[u32; 4]>>::from_spec(arr),
        ) == arr,
        color_of(c@) == c,
        color_of(ch)@ == ch,
{
    assert(color_of(c@).channels =~= c.channels);
    assert(color_of(ch)@ =~= ch);
}

impl PartialEq for Color {
    /// Bitwise equality of the four channels.
    fn eq(&self, o: &Color) -> (r: bool) {
        let same = self.channels[0] == o.channels[0] && self.channels[1] == o.channels[1]
            && self.channels[2] == o.channels[2] && self.channels[3] == o.channels[3];
        proof {
            if same {
                assert(self.channels@ =~= o.channels@);
            }
        }
        same
    }
}

impl vstd::std_specs::cmp::PartialEqSpecImpl for Color {
    open spec fn obeys_eq_spec() -> bool {
        true
    }

    open spec fn eq_spec(&self, o: &Color) -> bool {
        self.channels@ == o.channels@
    }
}

} // verus!
