//! The parts of a panel's configuration that the settings page reads and
//! writes, held as plain values, and the theme metrics it derives panel
//! geometry from.

use vstd::prelude::*;

verus! {

/// The screen edge a panel is attached to.
///
/// The variants are listed in the order in which the position drop-down
/// shows them, so a variant's index in that list is its discriminant.
#[derive(Debug, Clone, Copy, PartialEq, Eq, Structural)]
pub enum PanelAnchor {
    Left,
    Right,
    Top,
    Bottom,
}

/// The preset sizes of a panel, or a custom size in pixels.
#[derive(Debug, Clone, Copy, PartialEq, Eq, Structural)]
pub enum PanelSize {
    XS,
    S,
    M,
    L,
    XL,
    Custom(u32),
}

/// The outputs a panel is shown on.
#[derive(Debug)]
pub enum PanelOutput {
    /// Every output.
    All,
    /// The output that currently has focus.
    Active,
    /// The output with the given name.
    Name(String),
}

impl Clone for PanelOutput {
    fn clone(&self) -> (res: Self)
        ensures
            res == *self,
    {
        match self {
            PanelOutput::All => PanelOutput::All,
            PanelOutput::Active => PanelOutput::Active,
            PanelOutput::Name(n) => PanelOutput::Name(n.clone()),
        }
    }
}

/// How a panel's background is painted. A custom color's components are
/// floating-point values and are kept by the caller; here only the choice of
/// a custom color is recorded.
#[derive(Debug, Clone, Copy, PartialEq, Eq, Structural)]
pub enum PanelBackground {
    ThemeDefault,
    Dark,
    Light,
    Color,
}

/// Timing of a panel that hides itself until the pointer reaches its edge.
#[derive(Debug, Clone, Copy, PartialEq, Eq, Structural)]
pub struct AutoHide {
    pub wait_time: u32,
    pub transition_time: u32,
    pub handle_size: u32,
    pub unhide_delay: u32,
}

/// The plain settings of a panel's inner glow: whether it is animated and
/// the animation's length in milliseconds. Its brightness, level and color
/// are floating-point values and stay with the caller.
#[derive(Debug, Clone, Copy, PartialEq, Eq, Structural)]
pub struct InnerGlow {
    pub animation_enabled: bool,
    pub animation_time_ms: u32,
}

/// The fields of a panel configuration that the settings page decides on.
/// Opacity and the floating-point settings of the inner glow stay with the
/// caller.
#[derive(Debug)]
pub struct PanelConfig {
    pub name: String,
    pub anchor: PanelAnchor,
    pub anchor_gap: bool,
    pub expand_to_edges: bool,
    pub exclusive_zone: bool,
    pub autohide: Option<AutoHide>,
    pub output: PanelOutput,
    pub size: PanelSize,
    pub size_center: Option<PanelSize>,
    pub size_wings: Option<(Option<PanelSize>, Option<PanelSize>)>,
    pub background: PanelBackground,
    pub margin: u16,
    pub border_radius: u32,
    pub spacing: u32,
    pub padding: u32,
    pub inner_glow: Option<InnerGlow>,
}

impl Clone for PanelConfig {
    fn clone(&self) -> (res: Self)
        ensures
            res == *self,
    {
        PanelConfig {
            name: self.name.clone(),
            anchor: self.anchor,
            anchor_gap: self.anchor_gap,
            expand_to_edges: self.expand_to_edges,
            exclusive_zone: self.exclusive_zone,
            autohide: self.autohide,
            output: self.output.clone(),
            size: self.size,
            size_center: self.size_center,
            size_wings: self.size_wings,
            background: self.background,
            margin: self.margin,
            border_radius: self.border_radius,
            spacing: self.spacing,
            padding: self.padding,
            inner_glow: self.inner_glow,
        }
    }
}

/// How round the theme draws corners.
#[derive(Debug, Clone, Copy, PartialEq, Eq, Structural)]
pub enum Roundness {
    Round,
    SlightlyRound,
    Square,
}

/// How much space the theme puts between elements.
#[derive(Debug, Clone, Copy, PartialEq, Eq, Structural)]
pub enum Density {
    Compact,
    Spacious,
    Standard,
}

/// What the settings page reads of the system theme: the extra-large corner
/// radius (in whole pixels), the corner roundness and the spacing density.
#[derive(Debug, Clone, Copy, PartialEq, Eq, Structural)]
pub struct ThemeMetrics {
    pub radius_xl: u32,
    pub roundness: Roundness,
    pub density: Density,
}

} // verus!
