//! What a device reports it can do with one format: whether it can create DMA-BUF backed,
//! modifier-tiled images of it at all, and which tiling modifiers it accepts.
use vstd::prelude::*;

verus! {

/// `VK_FORMAT_FEATURE_DISJOINT_BIT`: the planes of an image may be bound to separate memory.
pub const FORMAT_FEATURE_DISJOINT: u32 = 0x0040_0000;

/// One tiling modifier that the device accepts for a format.
#[derive(Debug, Clone, Copy, PartialEq, Eq, Structural)]
pub struct ModifierProperties {
    pub modifier: u64,
    /// Number of memory planes an image with this modifier has.
    pub plane_count: u32,
    /// `VkFormatFeatureFlags` of images tiled with this modifier.
    pub tiling_features: u32,
}

impl ModifierProperties {
    /// Whether each plane of such an image is backed by a memory allocation of its own.
    pub open spec fn spec_is_disjoint(self) -> bool {
        self.tiling_features & FORMAT_FEATURE_DISJOINT != 0
    }

    pub fn is_disjoint(&self) -> (r: bool)
        ensures
            r == self.spec_is_disjoint(),
    {
        self.tiling_features & FORMAT_FEATURE_DISJOINT != 0
    }
}

/// The answer of the capability query for one format.
#[derive(Debug)]
pub struct FormatCapabilities {
    /// Whether the device can create DMA-BUF backed images of the format with modifier tiling.
    pub image_supported: bool,
    /// The accepted modifiers, in the order the device lists them.
    pub modifiers: Vec<ModifierProperties>,
}

/// The first entry of `mods` that describes modifier `m`.
pub open spec fn find_modifier(mods: Seq<ModifierProperties>, m: u64) -> Option<
    ModifierProperties,
>
    decreases mods.len(),
{
    if mods.len() == 0 {
        None
    } else if mods[0].modifier == m {
        Some(mods[0])
    } else {
        find_modifier(mods.drop_first(), m)
    }
}

impl FormatCapabilities {
    /// The properties of `modifier`, if the device accepts it for this format.
    pub fn modifier_properties(&self, modifier: u64) -> (r: Option<ModifierProperties>)
        ensures
            r == find_modifier(self.modifiers@, modifier),
    {
        let mut i: usize = 0;
        assert(self.modifiers@.subrange(0, self.modifiers@.len() as int) =~= self.modifiers@);
        while i < self.modifiers.len()
            invariant
                i <= self.modifiers@.len(),
                find_modifier(self.modifiers@, modifier) == find_modifier(
                    self.modifiers@.subrange(i as int, self.modifiers@.len() as int),
                    modifier,
                ),
            decreases self.modifiers@.len() - i,
        {
            let ghost rest = self.modifiers@.subrange(i as int, self.modifiers@.len() as int);
            assert(rest.drop_first() =~= self.modifiers@.subrange(
                i + 1,
                self.modifiers@.len() as int,
            ));
            if self.modifiers[i].modifier == modifier {
                return Some(self.modifiers[i]);
            }
            i += 1;
        }
        None
    }
}

} // verus!
