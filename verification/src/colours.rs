//! Traits to read the red, green, blue (and alpha) channels of colour
//! vectors, named colour constructors, and the conversions between colour
//! vectors and packed hexadecimal integers.

use vstd::prelude::*;

use crate::vector::Vector;

verus! {

/// Reads the red, green and blue channels of a colour.
///
/// A pure projection over existing storage: the three accessors return the
/// values at indices 0, 1 and 2 of [`RGB::channels`], so the trait may only
/// be implemented where those indices exist.
pub trait RGB {
    /// The stored channel values this colour reads, in order.
    spec fn channels(&self) -> Seq<u8>;

    /// Returns the red channel: the first stored value.
    fn r(&self) -> (v: u8)
        requires
            self.channels().len() >= 3,
        ensures
            v == self.channels()[0],
    ;

    /// Returns the green channel: the second stored value.
    fn g(&self) -> (v: u8)
        requires
            self.channels().len() >= 3,
        ensures
            v == self.channels()[1],
    ;

    /// Returns the blue channel: the third stored value.
    fn b(&self) -> (v: u8)
        requires
            self.channels().len() >= 3,
        ensures
            v == self.channels()[2],
    ;
}

/// Reads the alpha channel of a colour, beyond the red, green and blue
/// channels: a strict superset of accessors over the same storage.
pub trait RGBA: RGB {
    /// Returns the alpha channel: the fourth stored value.
    fn a(&self) -> (v: u8)
        requires
            self.channels().len() >= 4,
        ensures
            v == self.channels()[3],
    ;
}

impl RGB for Vector<u8, 3> {
    open spec fn channels(&self) -> Seq<u8> {
        self@
    }

    fn r(&self) -> u8 {
        self.get(0)
    }

    fn g(&self) -> u8 {
        self.get(1)
    }

    fn b(&self) -> u8 {
        self.get(2)
    }
}

impl RGB for Vector<u8, 4> {
    open spec fn channels(&self) -> Seq<u8> {
        self@
    }

    fn r(&self) -> u8 {
        self.get(0)
    }

    fn g(&self) -> u8 {
        self.get(1)
    }

    fn b(&self) -> u8 {
        self.get(2)
    }
}

impl RGBA for Vector<u8, 4> {
    fn a(&self) -> u8 {
        self.get(3)
    }
}

/// The three channel values packed as `0xRRGGBB`: red in bits 16 to 23,
/// green in bits 8 to 15, blue in bits 0 to 7.
pub open spec fn hex_of_rgb(s: Seq<u8>) -> u32
    recommends
        s.len() >= 3,
{
    ((s[0] as u32) << 16) | ((s[1] as u32) << 8) | (s[2] as u32)
}

/// The three channels unpacked from a `0xRRGGBB` value, in order red,
/// green, blue. Bits 24 to 31 are ignored.
pub open spec fn rgb_of_hex(hex: u32) -> Seq<u8> {
    seq![((hex >> 16) & 0xFF) as u8, ((hex >> 8) & 0xFF) as u8, (hex & 0xFF) as u8]
}

/// The four channel values packed as `0xRRGGBBAA`: red in bits 24 to 31,
/// green in bits 16 to 23, blue in bits 8 to 15, alpha in bits 0 to 7.
pub open spec fn hex_of_rgba(s: Seq<u8>) -> u32
    recommends
        s.len() >= 4,
{
    ((s[0] as u32) << 24) | ((s[1] as u32) << 16) | ((s[2] as u32) << 8) | (s[3] as u32)
}

/// The four channels unpacked from a `0xRRGGBBAA` value, in order red,
/// green, blue, alpha.
pub open spec fn rgba_of_hex(hex: u32) -> Seq<u8> {
    seq![
        ((hex >> 24) & 0xFF) as u8,
        ((hex >> 16) & 0xFF) as u8,
        ((hex >> 8) & 0xFF) as u8,
        (hex & 0xFF) as u8,
    ]
}

impl Vector<u8, 3> {
    /// Creates a colour vector from its red, green and blue channels, in
    /// order.
    pub fn rgb(r: u8, g: u8, b: u8) -> (v: Self)
        ensures
            v@ == seq![r, g, b],
    {
        let v = Vector::new([r, g, b]);
        proof {
            assert(v@ =~= seq![r, g, b]);
        }
        v
    }

    /// Unpacks a `0xRRGGBB` value into its three channels.
    pub fn from_hex(hex: u32) -> (v: Self)
        ensures
            v@ == rgb_of_hex(hex),
    {
        let r = ((hex >> 16) & 0xFF) as u8;
        let g = ((hex >> 8) & 0xFF) as u8;
        let b = (hex & 0xFF) as u8;
        let v = Self::rgb(r, g, b);
        proof {
            assert(v@ =~= rgb_of_hex(hex));
        }
        v
    }

    /// Packs the three channels into a `0xRRGGBB` value.
    pub fn to_hex(&self) -> (hex: u32)
        ensures
            hex == hex_of_rgb(self@),
    {
        ((self.get(0) as u32) << 16) | ((self.get(1) as u32) << 8) | (self.get(2) as u32)
    }
}

impl Vector<u8, 4> {
    /// Creates a colour vector from its red, green, blue and alpha
    /// channels, in order.
    pub fn rgba(r: u8, g: u8, b: u8, a: u8) -> (v: Self)
        ensures
            v@ == seq![r, g, b, a],
    {
        let v = Vector::new([r, g, b, a]);
        proof {
            assert(v@ =~= seq![r, g, b, a]);
        }
        v
    }

    /// Unpacks a `0xRRGGBBAA` value into its four channels.
    pub fn from_hex(hex: u32) -> (v: Self)
        ensures
            v@ == rgba_of_hex(hex),
    {
        let r = ((hex >> 24) & 0xFF) as u8;
        let g = ((hex >> 16) & 0xFF) as u8;
        let b = ((hex >> 8) & 0xFF) as u8;
        let a = (hex & 0xFF) as u8;
        let v = Self::rgba(r, g, b, a);
        proof {
            assert(v@ =~= rgba_of_hex(hex));
        }
        v
    }

    /// Packs the four channels into a `0xRRGGBBAA` value.
    pub fn to_hex(&self) -> (hex: u32)
        ensures
            hex == hex_of_rgba(self@),
    {
        ((self.get(0) as u32) << 24) | ((self.get(1) as u32) << 16) | ((self.get(2) as u32) << 8)
            | (self.get(3) as u32)
    }
}

/// Creates a 3-vector of `u8` from a hexadecimal value as `0xRRGGBB`.
impl From<u32> for Vector<u8, 3> {
    fn from(value: u32) -> (v: Self) {
        let v = Self::from_hex(value);
        proof {
            let target = Vector::<u8, 3> {
                data: [
                    ((value >> 16) & 0xFF) as u8,
                    ((value >> 8) & 0xFF) as u8,
                    (value & 0xFF) as u8,
                ],
            };
            assert(v.data@ =~= target.data@);
            assert(v.data =~= target.data);
        }
        v
    }
}

impl vstd::std_specs::convert::FromSpecImpl<u32> for Vector<u8, 3> {
    open spec fn obeys_from_spec() -> bool {
        true
    }

    open spec fn from_spec(value: u32) -> Self {
        Vector {
            data: [
                ((value >> 16) & 0xFF) as u8,
                ((value >> 8) & 0xFF) as u8,
                (value & 0xFF) as u8,
            ],
        }
    }
}

/// Creates a hexadecimal value as `0xRRGGBB` from a 3-vector of `u8`.
impl From<Vector<u8, 3>> for u32 {
    fn from(value: Vector<u8, 3>) -> (hex: u32) {
        value.to_hex()
    }
}

impl vstd::std_specs::convert::FromSpecImpl<Vector<u8, 3>> for u32 {
    open spec fn obeys_from_spec() -> bool {
        true
    }

    open spec fn from_spec(value: Vector<u8, 3>) -> u32 {
        hex_of_rgb(value@)
    }
}

/// Creates a 4-vector of `u8` from a hexadecimal value as `0xRRGGBBAA`.
impl From<u32> for Vector<u8, 4> {
    fn from(value: u32) -> (v: Self) {
        let v = Self::from_hex(value);
        proof {
            let target = Vector::<u8, 4> {
                data: [
                    ((value >> 24) & 0xFF) as u8,
                    ((value >> 16) & 0xFF) as u8,
                    ((value >> 8) & 0xFF) as u8,
                    (value & 0xFF) as u8,
                ],
            };
            assert(v.data@ =~= target.data@);
            assert(v.data =~= target.data);
        }
        v
    }
}

impl vstd::std_specs::convert::FromSpecImpl<u32> for Vector<u8, 4> {
    open spec fn obeys_from_spec() -> bool {
        true
    }

    open spec fn from_spec(value: u32) -> Self {
        Vector {
            data: [
                ((value >> 24) & 0xFF) as u8,
                ((value >> 16) & 0xFF) as u8,
                ((value >> 8) & 0xFF) as u8,
                (value & 0xFF) as u8,
            ],
        }
    }
}

/// Creates a hexadecimal value as `0xRRGGBBAA` from a 4-vector of `u8`.
impl From<Vector<u8, 4>> for u32 {
    fn from(value: Vector<u8, 4>) -> (hex: u32) {
        value.to_hex()
    }
}

impl vstd::std_specs::convert::FromSpecImpl<Vector<u8, 4>> for u32 {
    open spec fn obeys_from_spec() -> bool {
        true
    }

    open spec fn from_spec(value: Vector<u8, 4>) -> u32 {
        hex_of_rgba(value@)
    }
}

/// Law: packing three channels into a `0xRRGGBB` value and unpacking it
/// again recovers the channels exactly, for every channel triple.
pub proof fn lemma_rgb_hex_round_trip(r: u8, g: u8, b: u8)
    ensures
        rgb_of_hex(hex_of_rgb(seq![r, g, b])) == seq![r, g, b],
{
    let hex = ((r as u32) << 16) | ((g as u32) << 8) | (b as u32);
    assert(((hex >> 16) & 0xFF) as u8 == r && ((hex >> 8) & 0xFF) as u8 == g && (hex & 0xFF) as u8
        == b) by (bit_vector)
        requires
            hex == ((r as u32) << 16) | ((g as u32) << 8) | (b as u32),
    ;
    assert(rgb_of_hex(hex_of_rgb(seq![r, g, b])) =~= seq![r, g, b]);
}

/// Law: packing four channels into a `0xRRGGBBAA` value and unpacking it
/// again recovers the channels exactly, for every channel quadruple.
pub proof fn lemma_rgba_hex_round_trip(r: u8, g: u8, b: u8, a: u8)
    ensures
        rgba_of_hex(hex_of_rgba(seq![r, g, b, a])) == seq![r, g, b, a],
{
    let hex = ((r as u32) << 24) | ((g as u32) << 16) | ((b as u32) << 8) | (a as u32);
    assert(((hex >> 24) & 0xFF) as u8 == r && ((hex >> 16) & 0xFF) as u8 == g && ((hex >> 8)
        & 0xFF) as u8 == b && (hex & 0xFF) as u8 == a) by (bit_vector)
        requires
            hex == ((r as u32) << 24) | ((g as u32) << 16) | ((b as u32) << 8) | (a as u32),
    ;
    assert(rgba_of_hex(hex_of_rgba(seq![r, g, b, a])) =~= seq![r, g, b, a]);
}

/// Law: unpacking a value no wider than 24 bits into three channels and
/// packing them again reproduces the value exactly. Values with any of the
/// top 8 bits set are excluded: the three channels cannot carry them.
pub proof fn lemma_hex_rgb_round_trip(hex: u32)
    requires
        hex <= 0xFFFFFF,
    ensures
        hex_of_rgb(rgb_of_hex(hex)) == hex,
{
    assert(((((hex >> 16) & 0xFF) as u8 as u32) << 16) | ((((hex >> 8) & 0xFF) as u8 as u32) << 8)
        | ((hex & 0xFF) as u8 as u32) == hex) by (bit_vector)
        requires
            hex <= 0xFFFFFF,
    ;
}

/// Law: unpacking any 32-bit value into four channels and packing them
/// again reproduces the value exactly.
pub proof fn lemma_hex_rgba_round_trip(hex: u32)
    ensures
        hex_of_rgba(rgba_of_hex(hex)) == hex,
{
    assert(((((hex >> 24) & 0xFF) as u8 as u32) << 24) | ((((hex >> 16) & 0xFF) as u8 as u32)
        << 16) | ((((hex >> 8) & 0xFF) as u8 as u32) << 8) | ((hex & 0xFF) as u8 as u32)
        == hex) by (bit_vector);
}

} // verus!
