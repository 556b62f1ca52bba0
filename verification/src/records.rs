//! The fixed-layout records that are handed to the operating system.

use vstd::prelude::*;

verus! {

/// Attribute selector under which the composition-attribute call takes an accent policy.
pub const WCA_ACCENT_POLICY: u32 = 19;

/// Accent state that asks for plain blur-behind.
pub const ACCENT_ENABLE_BLURBEHIND: u32 = 3;

/// Accent state that asks for acrylic: blur with a layered tint.
pub const ACCENT_ENABLE_ACRYLICBLURBEHIND: u32 = 4;

/// Tint of the acrylic backdrop, packed as ARGB: alpha `0x7F` over the dark grey `0x1E1E1E`.
pub const ACRYLIC_GRADIENT_COLOR: u32 = 0x7F1E_1E1E;

/// Byte length of an accent policy as the operating system reads it.
pub const ACCENT_POLICY_SIZE: usize = 16;

/// Flag of a blur-behind descriptor that says its `enable` field is set.
pub const DWM_BB_ENABLE: u32 = 1;

/// Which accent effect a window's background gets.
///
/// The operating system reads the record as four consecutive 32-bit words, in
/// the order of the fields, without padding.
#[derive(Clone, Copy, Debug, PartialEq, Eq)]
pub struct AccentPolicy {
    /// The effect mode.
    pub accent_state: u32,
    /// Reserved; zero.
    pub accent_flags: u32,
    /// Tint, packed as ARGB.
    pub gradient_color: u32,
    /// Reserved; zero.
    pub animation_id: u32,
}

impl AccentPolicy {
    /// The policy of the first attempt: acrylic with the fixed dark tint.
    pub open spec fn spec_acrylic() -> AccentPolicy {
        AccentPolicy {
            accent_state: ACCENT_ENABLE_ACRYLICBLURBEHIND,
            accent_flags: 0,
            gradient_color: ACRYLIC_GRADIENT_COLOR,
            animation_id: 0,
        }
    }

    /// This policy with the effect mode replaced by plain blur-behind.
    pub open spec fn spec_plain_blur(self) -> AccentPolicy {
        AccentPolicy { accent_state: ACCENT_ENABLE_BLURBEHIND, ..self }
    }

    /// The alpha channel: the top byte of the packed tint.
    pub open spec fn spec_alpha(&self) -> u8 {
        (self.gradient_color / 0x100_0000) as u8
    }

    /// The record as the operating system reads it, word by word.
    pub open spec fn spec_words(self) -> Seq<u32> {
        seq![self.accent_state, self.accent_flags, self.gradient_color, self.animation_id]
    }

    /// Builds the policy of the first attempt.
    #[verifier::when_used_as_spec(spec_acrylic)]
    pub fn acrylic() -> (policy: AccentPolicy)
        ensures
            policy == AccentPolicy::spec_acrylic(),
    {
        AccentPolicy {
            accent_state: ACCENT_ENABLE_ACRYLICBLURBEHIND,
            accent_flags: 0,
            gradient_color: ACRYLIC_GRADIENT_COLOR,
            animation_id: 0,
        }
    }

    /// Switches the policy, in place, to plain blur-behind. Tint and reserved
    /// fields stay as they are.
    pub fn request_plain_blur(&mut self)
        ensures
            *final(self) == old(self).spec_plain_blur(),
    {
        self.accent_state = ACCENT_ENABLE_BLURBEHIND;
    }

    /// Returns the alpha channel of the tint. Acrylic tinting is only active
    /// where it is not zero.
    #[verifier::when_used_as_spec(spec_alpha)]
    pub fn alpha(&self) -> (alpha: u8)
        ensures
            alpha == self.spec_alpha(),
    {
        let color: u32 = self.gradient_color;
        assert(color >> 24 == color / 0x100_0000) by (bit_vector);
        (color >> 24) as u8
    }

    /// Lays the record out as the four words that the operating system reads.
    pub fn words(&self) -> (words: [u32; 4])
        ensures
            words@ == self.spec_words(),
    {
        let words: [u32; 4] = [self.accent_state, self.accent_flags, self.gradient_color, self.animation_id];
        assert(words@ =~= self.spec_words());
        words
    }
}

/// What is submitted to the composition-attribute call: an attribute selector
/// and the record that it selects.
///
/// On the wire the second field is the address of the record; here it is the
/// record itself, and `size` is the byte length that goes with that address.
#[derive(Clone, Copy, Debug, PartialEq, Eq)]
pub struct CompositionAttributeData {
    /// The attribute selector; always [`WCA_ACCENT_POLICY`].
    pub attribute: u32,
    /// The accent policy that the descriptor points at.
    pub data: AccentPolicy,
    /// Byte length of the accent policy.
    pub size: usize,
}

impl CompositionAttributeData {
    /// The descriptor that submits `policy` as the window's accent policy.
    pub open spec fn spec_for_policy(policy: AccentPolicy) -> CompositionAttributeData {
        CompositionAttributeData { attribute: WCA_ACCENT_POLICY, data: policy, size: ACCENT_POLICY_SIZE }
    }

    /// The selector names the accent policy and the size is that of the
    /// record's four words.
    pub open spec fn well_formed(&self) -> bool {
        &&& self.attribute == WCA_ACCENT_POLICY
        &&& self.size == ACCENT_POLICY_SIZE
        &&& self.size == 4 * self.data.spec_words().len()
    }

    /// Wraps `policy` in the descriptor that submits it.
    #[verifier::when_used_as_spec(spec_for_policy)]
    pub fn for_policy(policy: AccentPolicy) -> (descriptor: CompositionAttributeData)
        ensures
            descriptor == CompositionAttributeData::spec_for_policy(policy),
            descriptor.well_formed(),
    {
        CompositionAttributeData { attribute: WCA_ACCENT_POLICY, data: policy, size: ACCENT_POLICY_SIZE }
    }
}

/// What is submitted to the compositor's blur-behind call.
#[derive(Clone, Copy, Debug, PartialEq, Eq)]
pub struct BlurBehind {
    /// Which of the other fields are set, as a bit mask.
    pub flags: u32,
    /// Whether blur-behind is switched on.
    pub enable: bool,
    /// Raw handle of the region to blur; `None` blurs the whole window.
    pub region: Option<isize>,
    /// Whether the window's colours change as it is maximised.
    pub transition_on_maximized: bool,
}

impl BlurBehind {
    /// Blur-behind switched on for the whole window: only the enable flag is
    /// set, and no region clips the effect.
    pub open spec fn spec_whole_window() -> BlurBehind {
        BlurBehind { flags: DWM_BB_ENABLE, enable: true, region: None, transition_on_maximized: false }
    }

    /// Builds the descriptor that switches blur-behind on for the whole window.
    #[verifier::when_used_as_spec(spec_whole_window)]
    pub fn whole_window() -> (descriptor: BlurBehind)
        ensures
            descriptor == BlurBehind::spec_whole_window(),
    {
        BlurBehind { flags: DWM_BB_ENABLE, enable: true, region: None, transition_on_maximized: false }
    }
}

} // verus!
