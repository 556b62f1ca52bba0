//! Decision logic for giving a window a translucent blur-behind backdrop.
//!
//! The operating system offers two ways to blur what lies behind a window: an
//! undocumented composition attribute that carries an accent policy, and the
//! compositor's documented blur-behind call. This crate decides which request
//! is made next and what the overall answer is; the caller performs each
//! request against the operating system and reports whether it succeeded.

pub mod records;
pub mod probe;
pub mod platform;
pub mod overlay;
pub mod laws;

pub use crate::overlay::apply_overlay_blur;
pub use crate::probe::{Request, Stage, SETTER_SYMBOL, WINDOWING_LIBRARY};
pub use crate::records::{
    AccentPolicy, BlurBehind, CompositionAttributeData, ACCENT_ENABLE_ACRYLICBLURBEHIND,
    ACCENT_ENABLE_BLURBEHIND, ACCENT_POLICY_SIZE, ACRYLIC_GRADIENT_COLOR, DWM_BB_ENABLE,
    WCA_ACCENT_POLICY,
};
