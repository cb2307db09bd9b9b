//! The panel settings page: what its controls show for a panel
//! configuration, and how each of its messages changes the page and the
//! configuration.

use std::collections::HashMap;
use vstd::prelude::*;

use crate::panel_config::{
    AutoHide, Density, InnerGlow, PanelAnchor, PanelBackground, PanelConfig, PanelOutput, PanelSize,
    Roundness, ThemeMetrics,
};

verus! {

/// Which windows the app list of a dock shows.
#[derive(Debug, Clone, Copy, PartialEq, Eq, Structural)]
pub enum ToplevelFilter {
    ActiveWorkspace,
    ConfiguredOutput,
}

impl Default for ToplevelFilter {
    fn default() -> (f: Self)
        ensures
            f == ToplevelFilter::ActiveWorkspace,
    {
        ToplevelFilter::ActiveWorkspace
    }
}

/// Whether icon magnification is on when the app list configuration does
/// not say.
pub fn default_magnification_enabled() -> (enabled: bool)
    ensures
        enabled,
{
    true
}

/// A panel anchor as the position drop-down lists it.
#[derive(Debug, Clone, Copy, PartialEq, Eq, Structural)]
pub struct Anchor(pub PanelAnchor);

/// The three backgrounds that the appearance drop-down offers.
#[derive(Debug, Clone, Copy, PartialEq, Eq, Structural)]
pub enum Appearance {
    Match,
    Light,
    Dark,
}

/// The background that an appearance stands for.
pub open spec fn background_of(a: Appearance) -> PanelBackground {
    match a {
        Appearance::Match => PanelBackground::ThemeDefault,
        Appearance::Light => PanelBackground::Light,
        Appearance::Dark => PanelBackground::Dark,
    }
}

/// The appearance that a background stands for; a custom color has none.
pub open spec fn appearance_of(b: PanelBackground) -> Result<Appearance, ()> {
    match b {
        PanelBackground::ThemeDefault => Ok(Appearance::Match),
        PanelBackground::Light => Ok(Appearance::Light),
        PanelBackground::Dark => Ok(Appearance::Dark),
        PanelBackground::Color => Err(()),
    }
}

impl From<Appearance> for PanelBackground {
    fn from(appearance: Appearance) -> (b: Self) {
        match appearance {
            Appearance::Match => PanelBackground::ThemeDefault,
            Appearance::Light => PanelBackground::Light,
            Appearance::Dark => PanelBackground::Dark,
        }
    }
}

impl vstd::std_specs::convert::FromSpecImpl<Appearance> for PanelBackground {
    open spec fn obeys_from_spec() -> bool {
        true
    }

    open spec fn from_spec(v: Appearance) -> PanelBackground {
        background_of(v)
    }
}

impl TryFrom<PanelBackground> for Appearance {
    type Error = ();

    fn try_from(value: PanelBackground) -> (r: Result<Self, Self::Error>) {
        match value {
            PanelBackground::ThemeDefault => Ok(Appearance::Match),
            PanelBackground::Light => Ok(Appearance::Light),
            PanelBackground::Dark => Ok(Appearance::Dark),
            _ => Err(()),
        }
    }
}

impl vstd::std_specs::convert::TryFromSpecImpl<PanelBackground> for Appearance {
    open spec fn obeys_try_from_spec() -> bool {
        true
    }

    open spec fn try_from_spec(v: PanelBackground) -> Result<Appearance, ()> {
        appearance_of(v)
    }
}

} // verus!

verus! {

/// The index of an anchor in the position drop-down.
pub open spec fn anchor_index(a: PanelAnchor) -> usize {
    match a {
        PanelAnchor::Left => 0,
        PanelAnchor::Right => 1,
        PanelAnchor::Top => 2,
        PanelAnchor::Bottom => 3,
    }
}

/// The entry that the position drop-down selects for a panel's anchor.
pub fn anchor_dropdown_index(anchor: PanelAnchor) -> (i: usize)
    ensures
        i == anchor_index(anchor),
{
    match anchor {
        PanelAnchor::Left => 0,
        PanelAnchor::Right => 1,
        PanelAnchor::Top => 2,
        PanelAnchor::Bottom => 3,
    }
}

/// The entry of the appearance drop-down for a background: its appearance's
/// place in the order match, light, dark; none for a custom color.
pub open spec fn background_index(b: PanelBackground) -> Option<usize> {
    match b {
        PanelBackground::ThemeDefault => Some(0),
        PanelBackground::Light => Some(1),
        PanelBackground::Dark => Some(2),
        PanelBackground::Color => None,
    }
}

/// The entry that the appearance drop-down selects for a panel's background.
pub fn background_dropdown_index(background: PanelBackground) -> (i: Option<usize>)
    ensures
        i == background_index(background),
{
    match background {
        PanelBackground::ThemeDefault => Some(0),
        PanelBackground::Light => Some(1),
        PanelBackground::Dark => Some(2),
        PanelBackground::Color => None,
    }
}

/// The position of the size slider for a panel size; a custom size sits in
/// the middle.
pub open spec fn size_position(size: PanelSize) -> i32 {
    match size {
        PanelSize::XS => 0,
        PanelSize::S => 1,
        PanelSize::M => 2,
        PanelSize::L => 3,
        PanelSize::XL => 4,
        PanelSize::Custom(_) => 2,
    }
}

/// The panel size that a position of the size slider picks; every position
/// past the fourth picks the largest preset.
pub open spec fn size_at(v: i32) -> PanelSize {
    if v == 0 {
        PanelSize::XS
    } else if v == 1 {
        PanelSize::S
    } else if v == 2 {
        PanelSize::M
    } else if v == 3 {
        PanelSize::L
    } else {
        PanelSize::XL
    }
}

/// The position of the size slider for a panel size.
pub fn size_slider_value(size: PanelSize) -> (v: i32)
    ensures
        v == size_position(size),
{
    match size {
        PanelSize::XS => 0,
        PanelSize::S => 1,
        PanelSize::M => 2,
        PanelSize::L => 3,
        PanelSize::XL => 4,
        PanelSize::Custom(_) => 2,
    }
}

/// The panel size that a position of the size slider picks.
pub fn panel_size_from_slider(v: i32) -> (size: PanelSize)
    ensures
        size == size_at(v),
{
    if v == 0 {
        PanelSize::XS
    } else if v == 1 {
        PanelSize::S
    } else if v == 2 {
        PanelSize::M
    } else if v == 3 {
        PanelSize::L
    } else {
        PanelSize::XL
    }
}

/// `k` is the first index of `v` that holds the text `name`.
pub open spec fn is_first_match(v: Seq<String>, name: Seq<char>, k: int) -> bool {
    &&& 0 <= k < v.len()
    &&& v[k]@ == name
    &&& forall|j: int| 0 <= j < k ==> v[j]@ != name
}

/// The first index of `v` that holds the text `name`, if any does.
pub open spec fn position_of(v: Seq<String>, name: Seq<char>) -> Option<int> {
    if exists|k: int| is_first_match(v, name, k) {
        Some(choose|k: int| is_first_match(v, name, k))
    } else {
        None
    }
}

/// Two first matches are the same index.
proof fn lemma_first_match_unique(v: Seq<String>, name: Seq<char>, k1: int, k2: int)
    requires
        is_first_match(v, name, k1),
        is_first_match(v, name, k2),
    ensures
        k1 == k2,
{
    if k1 < k2 {
        assert(v[k1]@ != name);
    } else if k2 < k1 {
        assert(v[k2]@ != name);
    }
}

/// A first match is what `position_of` gives.
proof fn lemma_position_of_match(v: Seq<String>, name: Seq<char>, k: int)
    requires
        is_first_match(v, name, k),
    ensures
        position_of(v, name) == Some(k),
{
    let c = choose|j: int| is_first_match(v, name, j);
    lemma_first_match_unique(v, name, c, k);
}

/// Finds the first entry of `v` that holds the same text as `name`.
fn find_position(v: &Vec<String>, name: &String) -> (r: Option<usize>)
    ensures
        match r {
            Some(k) => position_of(v@, name@) == Some(k as int),
            None => position_of(v@, name@) is None,
        },
{
    let mut i: usize = 0;
    while i < v.len()
        invariant
            i <= v.len(),
            forall|j: int| 0 <= j < i ==> v@[j]@ != name@,
        decreases v.len() - i,
    {
        if v[i] == *name {
            proof {
                lemma_position_of_match(v@, name@, i as int);
            }
            return Some(i);
        }
        i = i + 1;
    }
    proof {
        assert forall|k: int| !is_first_match(v@, name@, k) by {
            if 0 <= k < v@.len() {
                assert(v@[k]@ != name@);
            }
        }
    }
    None
}

/// The entry of the display drop-down for a panel's output: the first entry
/// for every output, none for the active output, and for a named output the
/// first entry with its name.
pub open spec fn output_index(output: PanelOutput, outputs: Seq<String>) -> Option<int> {
    match output {
        PanelOutput::All => Some(0),
        PanelOutput::Active => None,
        PanelOutput::Name(n) => position_of(outputs, n@),
    }
}

/// The entry that the display drop-down selects for a panel's output.
pub fn output_dropdown_index(output: &PanelOutput, outputs: &Vec<String>) -> (i: Option<usize>)
    ensures
        match i {
            Some(k) => output_index(*output, outputs@) == Some(k as int),
            None => output_index(*output, outputs@) is None,
        },
{
    match output {
        PanelOutput::All => Some(0),
        PanelOutput::Active => None,
        PanelOutput::Name(n) => find_position(outputs, n),
    }
}

} // verus!

verus! {

/// The labels that the position drop-down shows for the four anchors, in the
/// current language.
#[derive(Debug)]
pub struct AnchorLabels {
    pub left: String,
    pub right: String,
    pub top: String,
    pub bottom: String,
}

/// The labels that the appearance drop-down shows for the three appearances,
/// in the current language.
#[derive(Debug)]
pub struct AppearanceLabels {
    pub match_theme: String,
    pub light: String,
    pub dark: String,
}

/// What the page reads besides its own state when it handles a message: the
/// theme's metrics, the drop-down labels, and the plain settings of the
/// default inner glow, which a panel without a glow starts from.
#[derive(Debug)]
pub struct UpdateContext {
    pub theme: ThemeMetrics,
    pub anchor_labels: AnchorLabels,
    pub appearance_labels: AppearanceLabels,
    pub default_glow: InnerGlow,
}

/// The panel's inner glow after a glow message: the panel's glow, or the
/// default glow when it has none, with only the setting that the message
/// names replaced. Messages that set a floating-point setting leave both
/// plain settings as they were.
pub open spec fn glow_after(current: Option<InnerGlow>, default_glow: InnerGlow, m: Message) -> InnerGlow {
    let base = match current {
        Some(g) => g,
        None => default_glow,
    };
    match m {
        Message::InnerGlowAnimationEnabled(v) => InnerGlow { animation_enabled: v, ..base },
        Message::InnerGlowAnimationTime(t) => InnerGlow { animation_time_ms: t, ..base },
        _ => base,
    }
}

/// The first anchor, in the order left, right, top, bottom, whose label is
/// the text `label`.
pub open spec fn anchor_for_label(labels: AnchorLabels, label: Seq<char>) -> Option<PanelAnchor> {
    if labels.left@ == label {
        Some(PanelAnchor::Left)
    } else if labels.right@ == label {
        Some(PanelAnchor::Right)
    } else if labels.top@ == label {
        Some(PanelAnchor::Top)
    } else if labels.bottom@ == label {
        Some(PanelAnchor::Bottom)
    } else {
        None
    }
}

/// The first appearance, in the order match, light, dark, whose label is the
/// text `label`.
pub open spec fn appearance_for_label(labels: AppearanceLabels, label: Seq<char>) -> Option<
    Appearance,
> {
    if labels.match_theme@ == label {
        Some(Appearance::Match)
    } else if labels.light@ == label {
        Some(Appearance::Light)
    } else if labels.dark@ == label {
        Some(Appearance::Dark)
    } else {
        None
    }
}

/// The corner radius of the system default panel after a reset: the theme's
/// extra-large radius for a panel with a gap to the edge, 12 for a panel
/// that does not reach the screen's edges under a round theme, 0 otherwise.
pub open spec fn reset_border_radius(anchor_gap: bool, expand_to_edges: bool, theme: ThemeMetrics) -> u32 {
    if anchor_gap {
        theme.radius_xl
    } else if theme.roundness == Roundness::Round && !expand_to_edges {
        12
    } else {
        0
    }
}

/// The corner radius of a panel after its gap or its extension to the
/// edges is toggled: the theme's extra-large radius with a gap, at most 12
/// without a gap when the panel does not reach the edges, 0 otherwise.
pub open spec fn gap_border_radius(anchor_gap: bool, expand_to_edges: bool, radius_xl: u32) -> u32 {
    if anchor_gap {
        radius_xl
    } else if !expand_to_edges {
        if radius_xl < 12 {
            radius_xl
        } else {
            12
        }
    } else {
        0
    }
}

/// The spacing between applets that a theme density calls for.
pub open spec fn density_spacing(density: Density) -> u32 {
    match density {
        Density::Compact => 0,
        Density::Standard => 0,
        Density::Spacious => 4,
    }
}

/// The padding of a dock that a theme roundness calls for.
pub open spec fn dock_padding(roundness: Roundness) -> u32 {
    match roundness {
        Roundness::Round => 4,
        Roundness::SlightlyRound => 4,
        Roundness::Square => 0,
    }
}

/// The timing that a panel gets when hiding is turned on.
pub open spec fn autohide_timing() -> AutoHide {
    AutoHide { wait_time: 1000, transition_time: 200, handle_size: 4, unhide_delay: 200 }
}

/// The messages of the panel page. Values that are floating-point numbers
/// (opacity, magnification scale, inner-glow brightness, level and color)
/// and wayland objects stay with the caller; an output is named by its
/// protocol id.
#[derive(Debug)]
pub enum Message {
    AutoHidePanel(bool),
    PanelAnchor(usize),
    Output(usize),
    AnchorGap(bool),
    PanelSize(PanelSize),
    PanelSizeCommit,
    Appearance(usize),
    ExtendToEdge(bool),
    MagnificationEnabled(bool),
    MagnificationScale,
    OpacityRequest,
    OpacityApply,
    InnerGlowBrightness,
    InnerGlowLevel,
    InnerGlowAnimationEnabled(bool),
    InnerGlowAnimationTime(u32),
    InnerGlowColorR,
    InnerGlowColorG,
    InnerGlowColorB,
    OutputAdded(String, u32),
    OutputRemoved(u32),
    PanelConfig(PanelConfig),
    ResetPanel,
    FullReset,
    Surface,
}

/// What the caller carries out after the page has handled a message, in
/// the order given. The `Set..` effects write one field of the panel's
/// configuration, which the page has already changed in its own copy.
#[derive(Debug)]
pub enum PanelEffect {
    /// Give the system default configuration this corner radius, write it
    /// as the panel's configuration, and make it the current one.
    ResetToSystemDefault(u32),
    /// Write the system's container configuration back for every panel.
    WriteSystemContainer,
    /// Bring the corners, spacing and dock padding of every panel in line
    /// with this roundness and density.
    ApplyThemeToPanels(Roundness, Density),
    SetExclusiveZone(bool),
    SetAutohide(Option<AutoHide>),
    SetAnchor(PanelAnchor),
    SetOutput(PanelOutput),
    SetAnchorGap(bool),
    SetMargin(u16),
    SetBorderRadius(u32),
    SetSize(PanelSize),
    ClearSizeCenter,
    ClearSizeWings,
    SetBackground(PanelBackground),
    SetExpandToEdges(bool),
    /// Set magnification in the app list configuration.
    SetMagnificationEnabled(bool),
    /// Store the requested magnification scale in the app list configuration.
    StoreMagnificationScale,
    /// Write the app list configuration.
    WriteAppListConfig,
    /// Store the requested opacity in the panel's configuration.
    StoreOpacity,
    /// Send `OpacityApply` to the page after 125 ms.
    ScheduleOpacityApply,
    /// Write the stored opacity.
    WriteOpacity,
    /// Give the panel the inner glow that the page now holds, starting from
    /// the default glow when the panel has none, and store the message's
    /// floating-point glow setting, if it has one.
    UpdateInnerGlow,
    /// Write the whole panel configuration.
    WritePanelConfig,
    /// Take the configuration carried by the message as the panel's.
    ReplacePanelConfig,
}

/// The state of the panel settings page. Configuration handles are recorded
/// by whether they are present; the app list configuration by its
/// magnification setting, when there is one.
#[derive(Debug)]
pub struct PageInner {
    pub has_config_helper: bool,
    pub panel_config: Option<PanelConfig>,
    pub has_app_list_config_helper: bool,
    pub app_list_magnification: Option<bool>,
    pub opacity_changing: bool,
    pub size: PanelSize,
    pub outputs: Vec<String>,
    pub anchors: Vec<String>,
    pub backgrounds: Vec<String>,
    pub outputs_map: HashMap<u32, String>,
    pub system_default: Option<PanelConfig>,
    pub has_system_container: bool,
}

/// The page state as mathematical values.
pub struct PageInnerView {
    pub has_config_helper: bool,
    pub panel_config: Option<PanelConfig>,
    pub has_app_list_config_helper: bool,
    pub app_list_magnification: Option<bool>,
    pub opacity_changing: bool,
    pub size: PanelSize,
    pub outputs: Seq<String>,
    pub anchors: Seq<String>,
    pub backgrounds: Seq<String>,
    pub outputs_map: Map<u32, String>,
    pub system_default: Option<PanelConfig>,
    pub has_system_container: bool,
}

impl View for PageInner {
    type V = PageInnerView;

    open spec fn view(&self) -> PageInnerView {
        PageInnerView {
            has_config_helper: self.has_config_helper,
            panel_config: self.panel_config,
            has_app_list_config_helper: self.has_app_list_config_helper,
            app_list_magnification: self.app_list_magnification,
            opacity_changing: self.opacity_changing,
            size: self.size,
            outputs: self.outputs@,
            anchors: self.anchors@,
            backgrounds: self.backgrounds@,
            outputs_map: self.outputs_map@,
            system_default: self.system_default,
            has_system_container: self.has_system_container,
        }
    }
}

/// The page as it is before any configuration is loaded.
pub open spec fn initial_page(
    all_displays: String,
    anchor_labels: AnchorLabels,
    appearance_labels: AppearanceLabels,
    has_system_container: bool,
) -> PageInnerView {
    PageInnerView {
        has_config_helper: false,
        panel_config: None,
        has_app_list_config_helper: false,
        app_list_magnification: None,
        opacity_changing: false,
        size: PanelSize::M,
        outputs: seq![all_displays],
        anchors: seq![
            anchor_labels.left,
            anchor_labels.right,
            anchor_labels.top,
            anchor_labels.bottom,
        ],
        backgrounds: seq![
            appearance_labels.match_theme,
            appearance_labels.light,
            appearance_labels.dark,
        ],
        outputs_map: Map::empty(),
        system_default: None,
        has_system_container,
    }
}

/// The page with this panel configuration.
pub open spec fn with_config(s: PageInnerView, c: PanelConfig) -> PageInnerView {
    PageInnerView { panel_config: Some(c), ..s }
}

/// The page after the output with protocol id `id` is gone: the id leaves
/// the map, and the first output entry with its name leaves the list.
pub open spec fn output_removed(s: PageInnerView, id: u32) -> PageInnerView {
    if s.outputs_map.contains_key(id) {
        let name = s.outputs_map[id];
        match position_of(s.outputs, name@) {
            Some(p) => PageInnerView {
                outputs: s.outputs.remove(p),
                outputs_map: s.outputs_map.remove(id),
                ..s
            },
            None => PageInnerView { outputs_map: s.outputs_map.remove(id), ..s },
        }
    } else {
        s
    }
}

/// The effect that writes the app list configuration, when there is a
/// handle to write it with.
pub open spec fn app_list_write(s: PageInnerView) -> Seq<PanelEffect> {
    if s.has_app_list_config_helper {
        seq![PanelEffect::WriteAppListConfig]
    } else {
        seq![]
    }
}

/// What a full or panel reset does before the message reaches the panel's
/// configuration.
pub open spec fn reset_step(s: PageInnerView, m: Message, theme: ThemeMetrics) -> (
    PageInnerView,
    Seq<PanelEffect>,
) {
    match m {
        Message::ResetPanel => match s.system_default {
            Some(d) => {
                let r = reset_border_radius(d.anchor_gap, d.expand_to_edges, theme);
                let d2 = PanelConfig { border_radius: r, ..d };
                (
                    PageInnerView {
                        size: d2.size,
                        system_default: Some(d2),
                        panel_config: Some(d2),
                        ..s
                    },
                    seq![PanelEffect::ResetToSystemDefault(r)],
                )
            },
            None => (s, seq![]),
        },
        Message::FullReset => {
            let apply = PanelEffect::ApplyThemeToPanels(theme.roundness, theme.density);
            if s.has_system_container {
                (s, seq![PanelEffect::WriteSystemContainer, apply])
            } else {
                (s, seq![apply])
            }
        },
        _ => (s, seq![]),
    }
}

/// What a message does to a page whose panel has configuration `c`.
pub open spec fn config_step(s: PageInnerView, c: PanelConfig, m: Message, cx: UpdateContext) -> (
    PageInnerView,
    Seq<PanelEffect>,
) {
    match m {
        Message::AutoHidePanel(enabled) => {
            let autohide = if enabled {
                Some(autohide_timing())
            } else {
                None
            };
            (
                with_config(s, PanelConfig { exclusive_zone: !enabled, autohide, ..c }),
                seq![PanelEffect::SetExclusiveZone(!enabled), PanelEffect::SetAutohide(autohide)],
            )
        },
        Message::PanelAnchor(i) => match anchor_for_label(cx.anchor_labels, s.anchors[i as int]@) {
            Some(a) => (with_config(s, PanelConfig { anchor: a, ..c }), seq![PanelEffect::SetAnchor(a)]),
            None => (s, seq![]),
        },
        Message::Output(i) => {
            let output = if i == 0 {
                PanelOutput::All
            } else {
                PanelOutput::Name(s.outputs[i as int])
            };
            (with_config(s, PanelConfig { output, ..c }), seq![PanelEffect::SetOutput(output)])
        },
        Message::AnchorGap(enabled) => {
            let margin: u16 = if enabled {
                4
            } else {
                0
            };
            let r = gap_border_radius(enabled, c.expand_to_edges, cx.theme.radius_xl);
            (
                with_config(s, PanelConfig { anchor_gap: enabled, margin, border_radius: r, ..c }),
                seq![
                    PanelEffect::SetAnchorGap(enabled),
                    PanelEffect::SetMargin(margin),
                    PanelEffect::SetBorderRadius(r),
                ],
            )
        },
        Message::PanelSize(size) => (PageInnerView { size, ..s }, seq![]),
        Message::PanelSizeCommit => (
            with_config(s, PanelConfig { size: s.size, size_center: None, size_wings: None, ..c }),
            seq![
                PanelEffect::SetSize(s.size),
                PanelEffect::ClearSizeCenter,
                PanelEffect::ClearSizeWings,
            ],
        ),
        Message::Appearance(i) => match appearance_for_label(
            cx.appearance_labels,
            s.backgrounds[i as int]@,
        ) {
            Some(a) => (
                with_config(s, PanelConfig { background: background_of(a), ..c }),
                seq![PanelEffect::SetBackground(background_of(a))],
            ),
            None => (s, seq![]),
        },
        Message::ExtendToEdge(enabled) => {
            let r = gap_border_radius(c.anchor_gap, enabled, cx.theme.radius_xl);
            (
                with_config(s, PanelConfig { expand_to_edges: enabled, border_radius: r, ..c }),
                seq![PanelEffect::SetExpandToEdges(enabled), PanelEffect::SetBorderRadius(r)],
            )
        },
        Message::MagnificationEnabled(enabled) => match s.app_list_magnification {
            Some(_) => (
                PageInnerView { app_list_magnification: Some(enabled), ..s },
                seq![PanelEffect::SetMagnificationEnabled(enabled)] + app_list_write(s),
            ),
            None => (s, seq![]),
        },
        Message::MagnificationScale => match s.app_list_magnification {
            Some(_) => (s, seq![PanelEffect::StoreMagnificationScale] + app_list_write(s)),
            None => (s, seq![]),
        },
        Message::OpacityRequest => if s.opacity_changing {
            (s, seq![PanelEffect::StoreOpacity])
        } else {
            (
                PageInnerView { opacity_changing: true, ..s },
                seq![PanelEffect::StoreOpacity, PanelEffect::ScheduleOpacityApply],
            )
        },
        Message::OpacityApply => (
            PageInnerView { opacity_changing: false, ..s },
            seq![PanelEffect::WriteOpacity],
        ),
        Message::InnerGlowBrightness | Message::InnerGlowLevel | Message::InnerGlowAnimationEnabled(
            _,
        ) | Message::InnerGlowAnimationTime(_) | Message::InnerGlowColorR | Message::InnerGlowColorG
        | Message::InnerGlowColorB => (
            with_config(
                s,
                PanelConfig { inner_glow: Some(glow_after(c.inner_glow, cx.default_glow, m)), ..c },
            ),
            seq![PanelEffect::UpdateInnerGlow, PanelEffect::WritePanelConfig],
        ),
        Message::OutputAdded(name, id) => (
            PageInnerView {
                outputs: s.outputs.push(name),
                outputs_map: s.outputs_map.insert(id, name),
                ..s
            },
            seq![],
        ),
        Message::OutputRemoved(id) => (output_removed(s, id), seq![]),
        Message::PanelConfig(nc) => (
            PageInnerView { size: nc.size, panel_config: Some(nc), ..s },
            seq![PanelEffect::ReplacePanelConfig],
        ),
        _ => (s, seq![]),
    }
}

/// What the page does with a message: nothing without a configuration
/// handle; otherwise a reset step, then, while the panel has a
/// configuration, the message's own step.
pub open spec fn step(s: PageInnerView, m: Message, cx: UpdateContext) -> (
    PageInnerView,
    Seq<PanelEffect>,
) {
    if !s.has_config_helper {
        (s, seq![])
    } else {
        let (s1, e1) = reset_step(s, m, cx.theme);
        match s1.panel_config {
            None => (s1, e1),
            Some(c) => {
                let (s2, e2) = config_step(s1, c, m, cx);
                (s2, e1 + e2)
            },
        }
    }
}

/// The messages that the page takes in a given state: once the page has a
/// configuration handle and a panel configuration, a drop-down index must
/// name an entry of its list, and surface actions are not for this page.
pub open spec fn accepts(s: PageInnerView, m: Message) -> bool {
    (s.has_config_helper && s.panel_config is Some) ==> match m {
        Message::PanelAnchor(i) => i < s.anchors.len(),
        Message::Output(i) => i == 0 || i < s.outputs.len(),
        Message::Appearance(i) => i < s.backgrounds.len(),
        Message::Surface => false,
        _ => true,
    }
}

/// The system default configuration after the theme has changed: its corner
/// radius, spacing and, when the current panel is the dock, its padding.
pub open spec fn defaults_updated(s: PageInnerView, theme: ThemeMetrics) -> PageInnerView {
    match s.system_default {
        None => s,
        Some(d) => {
            let is_dock = match s.panel_config {
                Some(c) => c.name@ == "Dock"@,
                None => false,
            };
            let padding = if is_dock {
                dock_padding(theme.roundness)
            } else {
                d.padding
            };
            PageInnerView {
                system_default: Some(
                    PanelConfig {
                        border_radius: reset_border_radius(d.anchor_gap, d.expand_to_edges, theme),
                        spacing: density_spacing(theme.density),
                        padding,
                        ..d
                    },
                ),
                ..s
            }
        },
    }
}

} // verus!

verus! {

broadcast use vstd::std_specs::hash::group_hash_axioms;

/// The first anchor whose label is the text of `label`.
fn anchor_matching(labels: &AnchorLabels, label: &String) -> (r: Option<PanelAnchor>)
    ensures
        r == anchor_for_label(*labels, label@),
{
    if labels.left == *label {
        Some(PanelAnchor::Left)
    } else if labels.right == *label {
        Some(PanelAnchor::Right)
    } else if labels.top == *label {
        Some(PanelAnchor::Top)
    } else if labels.bottom == *label {
        Some(PanelAnchor::Bottom)
    } else {
        None
    }
}

/// The first appearance whose label is the text of `label`.
fn appearance_matching(labels: &AppearanceLabels, label: &String) -> (r: Option<Appearance>)
    ensures
        r == appearance_for_label(*labels, label@),
{
    if labels.match_theme == *label {
        Some(Appearance::Match)
    } else if labels.light == *label {
        Some(Appearance::Light)
    } else if labels.dark == *label {
        Some(Appearance::Dark)
    } else {
        None
    }
}

fn compute_reset_border_radius(anchor_gap: bool, expand_to_edges: bool, theme: &ThemeMetrics) -> (r: u32)
    ensures
        r == reset_border_radius(anchor_gap, expand_to_edges, *theme),
{
    if anchor_gap {
        theme.radius_xl
    } else if theme.roundness == Roundness::Round && !expand_to_edges {
        12
    } else {
        0
    }
}

fn compute_gap_border_radius(anchor_gap: bool, expand_to_edges: bool, radius_xl: u32) -> (r: u32)
    ensures
        r == gap_border_radius(anchor_gap, expand_to_edges, radius_xl),
{
    if anchor_gap {
        radius_xl
    } else if !expand_to_edges {
        if radius_xl < 12 {
            radius_xl
        } else {
            12
        }
    } else {
        0
    }
}

impl PageInner {
    /// The page before any configuration is loaded: the display list holds
    /// only the entry for all displays, the position and appearance lists
    /// hold the labels of the anchors and appearances, and the size is M.
    pub fn new(
        all_displays: String,
        anchor_labels: &AnchorLabels,
        appearance_labels: &AppearanceLabels,
        has_system_container: bool,
    ) -> (page: Self)
        ensures
            page@ == initial_page(all_displays, *anchor_labels, *appearance_labels, has_system_container),
    {
        let mut outputs: Vec<String> = Vec::new();
        outputs.push(all_displays);
        let mut anchors: Vec<String> = Vec::new();
        anchors.push(anchor_labels.left.clone());
        anchors.push(anchor_labels.right.clone());
        anchors.push(anchor_labels.top.clone());
        anchors.push(anchor_labels.bottom.clone());
        let mut backgrounds: Vec<String> = Vec::new();
        backgrounds.push(appearance_labels.match_theme.clone());
        backgrounds.push(appearance_labels.light.clone());
        backgrounds.push(appearance_labels.dark.clone());
        let page = PageInner {
            has_config_helper: false,
            panel_config: None,
            has_app_list_config_helper: false,
            app_list_magnification: None,
            opacity_changing: false,
            size: PanelSize::M,
            outputs,
            anchors,
            backgrounds,
            outputs_map: HashMap::new(),
            system_default: None,
            has_system_container,
        };
        proof {
            let init = initial_page(all_displays, *anchor_labels, *appearance_labels, has_system_container);
            assert(page@.outputs =~= init.outputs);
            assert(page@.anchors =~= init.anchors);
            assert(page@.backgrounds =~= init.backgrounds);
            assert(page@.outputs_map =~= init.outputs_map);
        }
        page
    }

    /// Brings the system default configuration in line with the theme.
    pub fn update_defaults(&mut self, theme: &ThemeMetrics)
        ensures
            final(self)@ == defaults_updated(old(self)@, *theme),
    {
        if self.system_default.is_none() {
            return;
        }
        let mut d = self.system_default.take().unwrap();
        d.border_radius = compute_reset_border_radius(d.anchor_gap, d.expand_to_edges, theme);
        d.spacing = match theme.density {
            Density::Compact => 0,
            Density::Standard => 0,
            Density::Spacious => 4,
        };
        let is_dock = match &self.panel_config {
            Some(c) => {
                let dock: String = "Dock".to_owned();
                c.name == dock
            },
            None => false,
        };
        if is_dock {
            d.padding = match theme.roundness {
                Roundness::Round => 4,
                Roundness::SlightlyRound => 4,
                Roundness::Square => 0,
            };
        }
        self.system_default = Some(d);
    }

    fn reset_phase(&mut self, message: &Message, theme: &ThemeMetrics, effects: &mut Vec<PanelEffect>)
        ensures
            final(self)@ == reset_step(old(self)@, *message, *theme).0,
            final(effects)@ == old(effects)@ + reset_step(old(self)@, *message, *theme).1,
    {
        match message {
            Message::ResetPanel => {
                if self.system_default.is_some() {
                    let mut d = self.system_default.take().unwrap();
                    let r = compute_reset_border_radius(d.anchor_gap, d.expand_to_edges, theme);
                    d.border_radius = r;
                    effects.push(PanelEffect::ResetToSystemDefault(r));
                    self.size = d.size;
                    self.panel_config = Some(d.clone());
                    self.system_default = Some(d);
                } else {
                    assert(old(effects)@ + seq![] =~= old(effects)@);
                }
            },
            Message::FullReset => {
                if self.has_system_container {
                    effects.push(PanelEffect::WriteSystemContainer);
                }
                effects.push(PanelEffect::ApplyThemeToPanels(theme.roundness, theme.density));
            },
            _ => {
                assert(old(effects)@ + seq![] =~= old(effects)@);
            },
        }
    }

    #[verifier::rlimit(80)]
    fn config_phase(&mut self, message: Message, cx: &UpdateContext, effects: &mut Vec<PanelEffect>)
        requires
            old(self).panel_config is Some,
            old(self).has_config_helper,
            accepts(old(self)@, message),
        ensures
            final(self)@ == config_step(old(self)@, old(self).panel_config.unwrap(), message, *cx).0,
            final(effects)@ == old(effects)@ + config_step(
                old(self)@,
                old(self).panel_config.unwrap(),
                message,
                *cx,
            ).1,
    {
        let ghost s0 = self@;
        let ghost e0 = effects@;
        let mut c = self.panel_config.take().unwrap();
        let ghost c0 = c;
        match message {
            Message::AutoHidePanel(enabled) => {
                let autohide = if enabled {
                    Some(
                        AutoHide {
                            wait_time: 1000,
                            transition_time: 200,
                            handle_size: 4,
                            unhide_delay: 200,
                        },
                    )
                } else {
                    None
                };
                c.exclusive_zone = !enabled;
                c.autohide = autohide;
                effects.push(PanelEffect::SetExclusiveZone(!enabled));
                effects.push(PanelEffect::SetAutohide(autohide));
            },
            Message::PanelAnchor(i) => {
                match anchor_matching(&cx.anchor_labels, &self.anchors[i]) {
                    Some(a) => {
                        c.anchor = a;
                        effects.push(PanelEffect::SetAnchor(a));
                    },
                    None => {
                        assert(e0 + seq![] =~= e0);
                    },
                }
            },
            Message::Output(i) => {
                let output = if i == 0 {
                    PanelOutput::All
                } else {
                    PanelOutput::Name(self.outputs[i].clone())
                };
                c.output = output.clone();
                effects.push(PanelEffect::SetOutput(output));
            },
            Message::AnchorGap(enabled) => {
                let margin: u16 = if enabled {
                    4
                } else {
                    0
                };
                c.anchor_gap = enabled;
                c.margin = margin;
                let r = compute_gap_border_radius(enabled, c.expand_to_edges, cx.theme.radius_xl);
                c.border_radius = r;
                effects.push(PanelEffect::SetAnchorGap(enabled));
                effects.push(PanelEffect::SetMargin(margin));
                effects.push(PanelEffect::SetBorderRadius(r));
            },
            Message::PanelSize(size) => {
                self.size = size;
                assert(e0 + seq![] =~= e0);
            },
            Message::PanelSizeCommit => {
                c.size = self.size;
                c.size_center = None;
                c.size_wings = None;
                effects.push(PanelEffect::SetSize(self.size));
                effects.push(PanelEffect::ClearSizeCenter);
                effects.push(PanelEffect::ClearSizeWings);
            },
            Message::Appearance(i) => {
                match appearance_matching(&cx.appearance_labels, &self.backgrounds[i]) {
                    Some(a) => {
                        let b = PanelBackground::from(a);
                        c.background = b;
                        effects.push(PanelEffect::SetBackground(b));
                    },
                    None => {
                        assert(e0 + seq![] =~= e0);
                    },
                }
            },
            Message::ExtendToEdge(enabled) => {
                c.expand_to_edges = enabled;
                let r = compute_gap_border_radius(c.anchor_gap, enabled, cx.theme.radius_xl);
                c.border_radius = r;
                effects.push(PanelEffect::SetExpandToEdges(enabled));
                effects.push(PanelEffect::SetBorderRadius(r));
            },
            Message::MagnificationEnabled(enabled) => {
                if self.app_list_magnification.is_some() {
                    self.app_list_magnification = Some(enabled);
                    effects.push(PanelEffect::SetMagnificationEnabled(enabled));
                    if self.has_app_list_config_helper {
                        effects.push(PanelEffect::WriteAppListConfig);
                    }
                } else {
                    assert(e0 + seq![] =~= e0);
                }
            },
            Message::MagnificationScale => {
                if self.app_list_magnification.is_some() {
                    effects.push(PanelEffect::StoreMagnificationScale);
                    if self.has_app_list_config_helper {
                        effects.push(PanelEffect::WriteAppListConfig);
                    }
                } else {
                    assert(e0 + seq![] =~= e0);
                }
            },
            Message::OpacityRequest => {
                effects.push(PanelEffect::StoreOpacity);
                if !self.opacity_changing {
                    self.opacity_changing = true;
                    effects.push(PanelEffect::ScheduleOpacityApply);
                }
            },
            Message::OpacityApply => {
                self.opacity_changing = false;
                effects.push(PanelEffect::WriteOpacity);
            },
            Message::InnerGlowBrightness
            | Message::InnerGlowLevel
            | Message::InnerGlowAnimationEnabled(_)
            | Message::InnerGlowAnimationTime(_)
            | Message::InnerGlowColorR
            | Message::InnerGlowColorG
            | Message::InnerGlowColorB => {
                let mut glow = match c.inner_glow {
                    Some(g) => g,
                    None => cx.default_glow,
                };
                match message {
                    Message::InnerGlowAnimationEnabled(v) => {
                        glow.animation_enabled = v;
                    },
                    Message::InnerGlowAnimationTime(t) => {
                        glow.animation_time_ms = t;
                    },
                    _ => {},
                }
                c.inner_glow = Some(glow);
                effects.push(PanelEffect::UpdateInnerGlow);
                effects.push(PanelEffect::WritePanelConfig);
            },
            Message::OutputAdded(name, id) => {
                self.outputs.push(name.clone());
                self.outputs_map.insert(id, name);
                assert(e0 + seq![] =~= e0);
            },
            Message::OutputRemoved(id) => {
                match self.outputs_map.remove(&id) {
                    Some(name) => {
                        match find_position(&self.outputs, &name) {
                            Some(p) => {
                                self.outputs.remove(p);
                            },
                            None => {},
                        }
                    },
                    None => {
                        assert(self.outputs_map@ =~= s0.outputs_map);
                    },
                }
                assert(e0 + seq![] =~= e0);
            },
            Message::PanelConfig(nc) => {
                self.size = nc.size;
                self.panel_config = Some(nc);
                effects.push(PanelEffect::ReplacePanelConfig);
                return;
            },
            Message::ResetPanel | Message::FullReset | Message::Surface => {
                assert(e0 + seq![] =~= e0);
            },
        }
        self.panel_config = Some(c);
    }

    /// Handles a message of the panel page: changes the page and its copy
    /// of the panel's configuration as `step` says, and returns what the
    /// caller has to carry out.
    pub fn update(&mut self, message: Message, cx: &UpdateContext) -> (effects: Vec<PanelEffect>)
        requires
            accepts(old(self)@, message),
        ensures
            final(self)@ == step(old(self)@, message, *cx).0,
            effects@ == step(old(self)@, message, *cx).1,
    {
        let mut effects: Vec<PanelEffect> = Vec::new();
        if !self.has_config_helper {
            return effects;
        }
        let ghost s0 = self@;
        self.reset_phase(&message, &cx.theme, &mut effects);
        if self.panel_config.is_none() {
            assert(effects@ =~= reset_step(s0, message, cx.theme).1);
            return effects;
        }
        let ghost e1 = effects@;
        assert(e1 =~= reset_step(s0, message, cx.theme).1);
        self.config_phase(message, cx, &mut effects);
        effects
    }
}

} // verus!
