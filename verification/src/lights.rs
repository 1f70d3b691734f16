//! The directional light and its uniform block.
//!
//! Coordinates and colour channels are 32-bit patterns of single-precision
//! numbers.

use vstd::prelude::*;
use crate::binding::{group_matches, uniform_entry, BindGroupLayoutDescriptor};
use crate::camera::UniformBinding;
use crate::vertex::{ONE, ZERO};

verus! {

/// The bit pattern of the single-precision number 10.
pub const TEN: u32 = 0x4120_0000;

/// The bit pattern of the single-precision number nearest to -0.2.
pub const MINUS_ONE_FIFTH: u32 = 0xBE4C_CCCD;

/// The bit pattern of the single-precision number -1.
pub const MINUS_ONE: u32 = 0xBF80_0000;

/// The bit pattern of the single-precision number nearest to -0.3.
pub const MINUS_THREE_TENTHS: u32 = 0xBE99_999A;

/// The uniform block of the light: position, direction and colour, each a
/// vector of three components followed by one word of padding, so that every
/// vector starts at a multiple of 16 bytes.
#[derive(Clone, Copy, Debug, PartialEq, Eq)]
pub struct LightRaw {
    pub position: [u32; 4],
    pub direction: [u32; 4],
    pub color: [u32; 4],
}

/// A vector of three components with a zero word of padding behind it.
pub open spec fn padded(v: [u32; 3]) -> [u32; 4] {
    [v[0], v[1], v[2], ZERO]
}

impl LightRaw {
    /// The size of the block in bytes.
    pub const SIZE: usize = 48;

    /// The twelve words of the block in buffer order.
    pub open spec fn spec_words(self) -> Seq<u32> {
        self.position@ + self.direction@ + self.color@
    }

    /// The words of the block in buffer order: 48 bytes, a whole number of
    /// 16-byte vectors.
    pub fn words(&self) -> (words: Vec<u32>)
        ensures
            words@ == self.spec_words(),
            4 * words@.len() == Self::SIZE,
            Self::SIZE % 16 == 0,
    {
        let words = vec![
            self.position[0],
            self.position[1],
            self.position[2],
            self.position[3],
            self.direction[0],
            self.direction[1],
            self.direction[2],
            self.direction[3],
            self.color[0],
            self.color[1],
            self.color[2],
            self.color[3],
        ];
        assert(words@ =~= self.spec_words());
        words
    }
}

/// In the block's words every vector starts at a multiple of 16 bytes, and the
/// block ends at one: position at byte 0, direction at byte 16, colour at byte
/// 32, end at byte 48.
pub proof fn light_raw_is_aligned(raw: LightRaw)
    ensures
        raw.spec_words().len() * 4 == 48,
        (raw.spec_words().len() * 4) % 16 == 0,
        raw.spec_words().subrange(0, 4) == raw.position@,
        raw.spec_words().subrange(4, 8) == raw.direction@,
        raw.spec_words().subrange(8, 12) == raw.color@,
{
    let w = raw.spec_words();
    assert(w.subrange(0, 4) =~= raw.position@);
    assert(w.subrange(4, 8) =~= raw.direction@);
    assert(w.subrange(8, 12) =~= raw.color@);
}

/// The directional light.
#[derive(Clone, Debug, PartialEq, Eq)]
pub struct Light {
    pub position: [u32; 3],
    pub direction: [u32; 3],
    pub color: [u32; 3],
    pub bind_group_layout: BindGroupLayoutDescriptor,
}

impl Light {
    /// The bind group layout is that of one uniform block at binding 0,
    /// visible to the vertex and the fragment stage.
    pub open spec fn layout_wf(&self) -> bool {
        &&& self.bind_group_layout.label@ == "light_bind_group_layout"@
        &&& self.bind_group_layout.entries@ == seq![uniform_entry()]
        &&& self.bind_group_layout.wf()
    }

    /// The light of the scene: white, at (0, 10, 10), shining along
    /// (-0.2, -1, -0.3).
    pub fn new() -> (light: Light)
        ensures
            light.position@ == seq![ZERO, TEN, TEN],
            light.direction@ == seq![MINUS_ONE_FIFTH, MINUS_ONE, MINUS_THREE_TENTHS],
            light.color@ == seq![ONE, ONE, ONE],
            light.layout_wf(),
    {
        let position: [u32; 3] = [ZERO, TEN, TEN];
        let direction: [u32; 3] = [MINUS_ONE_FIFTH, MINUS_ONE, MINUS_THREE_TENTHS];
        let color: [u32; 3] = [ONE, ONE, ONE];
        assert(position@ =~= seq![ZERO, TEN, TEN]);
        assert(direction@ =~= seq![MINUS_ONE_FIFTH, MINUS_ONE, MINUS_THREE_TENTHS]);
        assert(color@ =~= seq![ONE, ONE, ONE]);
        Light {
            position,
            direction,
            color,
            bind_group_layout: BindGroupLayoutDescriptor::uniform("light_bind_group_layout"),
        }
    }

    /// The uniform block of the light as it stands.
    pub fn to_raw(&self) -> (raw: LightRaw)
        ensures
            raw.position == padded(self.position),
            raw.direction == padded(self.direction),
            raw.color == padded(self.color),
    {
        let position: [u32; 4] = [self.position[0], self.position[1], self.position[2], ZERO];
        let direction: [u32; 4] = [self.direction[0], self.direction[1], self.direction[2], ZERO];
        let color: [u32; 4] = [self.color[0], self.color[1], self.color[2], ZERO];
        assert(position =~= padded(self.position));
        assert(direction =~= padded(self.direction));
        assert(color =~= padded(self.color));
        LightRaw { position, direction, color }
    }

    /// The light's uniform block.
    pub open spec fn spec_raw(&self) -> LightRaw {
        LightRaw {
            position: padded(self.position),
            direction: padded(self.direction),
            color: padded(self.color),
        }
    }

    /// A fresh uniform buffer with the light's uniform block, and the bind
    /// group that binds it for the light's layout.
    pub fn get_bind_group(&self) -> (binding: UniformBinding)
        ensures
            binding.holds(self.spec_raw().spec_words(), "light_buffer", "light_bind_group"),
            self.layout_wf() ==> group_matches(
                self.bind_group_layout.entries@,
                binding.bind_group.entries@,
            ),
    {
        let raw = self.to_raw();
        let words = raw.words();
        UniformBinding::new(&words, "light_buffer", "light_bind_group")
    }
}

} // verus!
