use cosmic_settings::panel::{
    anchor_dropdown_index, background_dropdown_index, default_magnification_enabled,
    output_dropdown_index, panel_size_from_slider, size_slider_value, AnchorLabels, Appearance,
    AppearanceLabels, Message, PageInner, PanelEffect, ToplevelFilter, UpdateContext,
};
use cosmic_settings::panel_config::{
    AutoHide, Density, InnerGlow, PanelAnchor, PanelBackground, PanelConfig, PanelOutput, PanelSize,
    Roundness, ThemeMetrics,
};

fn anchor_labels() -> AnchorLabels {
    AnchorLabels {
        left: "Left".to_string(),
        right: "Right".to_string(),
        top: "Top".to_string(),
        bottom: "Bottom".to_string(),
    }
}

fn appearance_labels() -> AppearanceLabels {
    AppearanceLabels {
        match_theme: "Match desktop".to_string(),
        light: "Light".to_string(),
        dark: "Dark".to_string(),
    }
}

fn context(radius_xl: u32, roundness: Roundness) -> UpdateContext {
    UpdateContext {
        theme: ThemeMetrics { radius_xl, roundness, density: Density::Standard },
        anchor_labels: anchor_labels(),
        appearance_labels: appearance_labels(),
        default_glow: InnerGlow { animation_enabled: false, animation_time_ms: 1000 },
    }
}

fn config(name: &str) -> PanelConfig {
    PanelConfig {
        name: name.to_string(),
        anchor: PanelAnchor::Bottom,
        anchor_gap: false,
        expand_to_edges: false,
        exclusive_zone: true,
        autohide: None,
        output: PanelOutput::All,
        size: PanelSize::M,
        size_center: Some(PanelSize::S),
        size_wings: Some((Some(PanelSize::XS), None)),
        background: PanelBackground::ThemeDefault,
        margin: 0,
        border_radius: 8,
        spacing: 2,
        padding: 2,
        inner_glow: None,
    }
}

fn loaded_page() -> PageInner {
    let mut page = PageInner::new(
        "All displays".to_string(),
        &anchor_labels(),
        &appearance_labels(),
        true,
    );
    page.has_config_helper = true;
    page.panel_config = Some(config("Panel"));
    page
}

#[test]
fn magnification_is_enabled_by_default() {
    assert!(default_magnification_enabled());
}

#[test]
fn toplevel_filter_defaults_to_active_workspace() {
    assert_eq!(ToplevelFilter::default(), ToplevelFilter::ActiveWorkspace);
}

#[test]
fn appearance_converts_to_background() {
    assert_eq!(PanelBackground::from(Appearance::Match), PanelBackground::ThemeDefault);
    assert_eq!(PanelBackground::from(Appearance::Light), PanelBackground::Light);
    assert_eq!(PanelBackground::from(Appearance::Dark), PanelBackground::Dark);
}

#[test]
fn background_converts_to_appearance() {
    assert_eq!(Appearance::try_from(PanelBackground::ThemeDefault), Ok(Appearance::Match));
    assert_eq!(Appearance::try_from(PanelBackground::Light), Ok(Appearance::Light));
    assert_eq!(Appearance::try_from(PanelBackground::Dark), Ok(Appearance::Dark));
    assert_eq!(Appearance::try_from(PanelBackground::Color), Err(()));
}

#[test]
fn appearance_round_trip_on_concrete_values() {
    for a in [Appearance::Match, Appearance::Light, Appearance::Dark] {
        assert_eq!(Appearance::try_from(PanelBackground::from(a)), Ok(a));
    }
}

#[test]
fn dropdown_indices() {
    assert_eq!(anchor_dropdown_index(PanelAnchor::Left), 0);
    assert_eq!(anchor_dropdown_index(PanelAnchor::Right), 1);
    assert_eq!(anchor_dropdown_index(PanelAnchor::Top), 2);
    assert_eq!(anchor_dropdown_index(PanelAnchor::Bottom), 3);
    assert_eq!(background_dropdown_index(PanelBackground::ThemeDefault), Some(0));
    assert_eq!(background_dropdown_index(PanelBackground::Light), Some(1));
    assert_eq!(background_dropdown_index(PanelBackground::Dark), Some(2));
    assert_eq!(background_dropdown_index(PanelBackground::Color), None);
}

#[test]
fn output_dropdown_index_finds_first_name() {
    let outputs = vec![
        "All displays".to_string(),
        "DP-1".to_string(),
        "HDMI-A-1".to_string(),
        "DP-1".to_string(),
    ];
    assert_eq!(output_dropdown_index(&PanelOutput::All, &outputs), Some(0));
    assert_eq!(output_dropdown_index(&PanelOutput::Active, &outputs), None);
    assert_eq!(output_dropdown_index(&PanelOutput::Name("DP-1".to_string()), &outputs), Some(1));
    assert_eq!(
        output_dropdown_index(&PanelOutput::Name("HDMI-A-1".to_string()), &outputs),
        Some(2)
    );
    assert_eq!(output_dropdown_index(&PanelOutput::Name("eDP-1".to_string()), &outputs), None);
}

#[test]
fn size_slider_round_trip() {
    for (size, v) in [
        (PanelSize::XS, 0),
        (PanelSize::S, 1),
        (PanelSize::M, 2),
        (PanelSize::L, 3),
        (PanelSize::XL, 4),
    ] {
        assert_eq!(size_slider_value(size), v);
        assert_eq!(panel_size_from_slider(v), size);
    }
    assert_eq!(size_slider_value(PanelSize::Custom(40)), 2);
    assert_eq!(panel_size_from_slider(7), PanelSize::XL);
    assert_eq!(panel_size_from_slider(-1), PanelSize::XL);
}

#[test]
fn new_page_lists_labels() {
    let page = PageInner::new("All displays".to_string(), &anchor_labels(), &appearance_labels(), false);
    assert_eq!(page.outputs, vec!["All displays".to_string()]);
    assert_eq!(page.anchors, vec!["Left", "Right", "Top", "Bottom"]);
    assert_eq!(page.backgrounds, vec!["Match desktop", "Light", "Dark"]);
    assert_eq!(page.size, PanelSize::M);
    assert!(!page.has_config_helper);
    assert!(page.panel_config.is_none());
    assert!(!page.opacity_changing);
    assert!(page.outputs_map.is_empty());
}

#[test]
fn without_helper_nothing_happens() {
    let mut page = loaded_page();
    page.has_config_helper = false;
    let effects = page.update(Message::AutoHidePanel(true), &context(16, Roundness::Round));
    assert!(effects.is_empty());
    assert_eq!(page.panel_config.as_ref().unwrap().autohide, None);
}

#[test]
fn without_panel_config_nothing_happens() {
    let mut page = loaded_page();
    page.panel_config = None;
    let effects = page.update(Message::OutputAdded("DP-1".to_string(), 7), &context(16, Roundness::Round));
    assert!(effects.is_empty());
    assert_eq!(page.outputs.len(), 1);
}

#[test]
fn autohide_on_and_off() {
    let mut page = loaded_page();
    let cx = context(16, Roundness::Round);
    let timing = AutoHide { wait_time: 1000, transition_time: 200, handle_size: 4, unhide_delay: 200 };
    let effects = page.update(Message::AutoHidePanel(true), &cx);
    assert_eq!(effects.len(), 2);
    assert!(matches!(effects[0], PanelEffect::SetExclusiveZone(false)));
    assert!(matches!(effects[1], PanelEffect::SetAutohide(Some(t)) if t == timing));
    let c = page.panel_config.as_ref().unwrap();
    assert!(!c.exclusive_zone);
    assert_eq!(c.autohide, Some(timing));
    let effects = page.update(Message::AutoHidePanel(false), &cx);
    assert!(matches!(effects[0], PanelEffect::SetExclusiveZone(true)));
    assert!(matches!(effects[1], PanelEffect::SetAutohide(None)));
    assert_eq!(page.panel_config.as_ref().unwrap().autohide, None);
}

#[test]
fn anchor_selected_by_label() {
    let mut page = loaded_page();
    let cx = context(16, Roundness::Round);
    let effects = page.update(Message::PanelAnchor(2), &cx);
    assert!(matches!(effects[0], PanelEffect::SetAnchor(PanelAnchor::Top)));
    assert_eq!(page.panel_config.as_ref().unwrap().anchor, PanelAnchor::Top);
}

#[test]
fn anchor_with_unknown_label_is_ignored() {
    let mut page = loaded_page();
    page.anchors[0] = "Links".to_string();
    let effects = page.update(Message::PanelAnchor(0), &context(16, Roundness::Round));
    assert!(effects.is_empty());
    assert_eq!(page.panel_config.as_ref().unwrap().anchor, PanelAnchor::Bottom);
}

#[test]
fn output_selection() {
    let mut page = loaded_page();
    let cx = context(16, Roundness::Round);
    page.update(Message::OutputAdded("DP-1".to_string(), 3), &cx);
    let effects = page.update(Message::Output(1), &cx);
    assert!(matches!(&effects[0], PanelEffect::SetOutput(PanelOutput::Name(n)) if n == "DP-1"));
    assert!(matches!(&page.panel_config.as_ref().unwrap().output, PanelOutput::Name(n) if n == "DP-1"));
    let effects = page.update(Message::Output(0), &cx);
    assert!(matches!(&effects[0], PanelEffect::SetOutput(PanelOutput::All)));
}

#[test]
fn anchor_gap_sets_margin_and_radius() {
    let mut page = loaded_page();
    let cx = context(16, Roundness::Round);
    let effects = page.update(Message::AnchorGap(true), &cx);
    assert!(matches!(effects[0], PanelEffect::SetAnchorGap(true)));
    assert!(matches!(effects[1], PanelEffect::SetMargin(4)));
    assert!(matches!(effects[2], PanelEffect::SetBorderRadius(16)));
    let effects = page.update(Message::AnchorGap(false), &cx);
    assert!(matches!(effects[1], PanelEffect::SetMargin(0)));
    assert!(matches!(effects[2], PanelEffect::SetBorderRadius(12)));
    let c = page.panel_config.as_ref().unwrap();
    assert!(!c.anchor_gap);
    assert_eq!(c.margin, 0);
    assert_eq!(c.border_radius, 12);
}

#[test]
fn small_theme_radius_is_kept_without_gap() {
    let mut page = loaded_page();
    let effects = page.update(Message::AnchorGap(false), &context(6, Roundness::Square));
    assert!(matches!(effects[2], PanelEffect::SetBorderRadius(6)));
}

#[test]
fn extend_to_edges_sets_radius() {
    let mut page = loaded_page();
    let cx = context(16, Roundness::Round);
    let effects = page.update(Message::ExtendToEdge(true), &cx);
    assert!(matches!(effects[0], PanelEffect::SetExpandToEdges(true)));
    assert!(matches!(effects[1], PanelEffect::SetBorderRadius(0)));
    let effects = page.update(Message::ExtendToEdge(false), &cx);
    assert!(matches!(effects[1], PanelEffect::SetBorderRadius(12)));
    page.update(Message::AnchorGap(true), &cx);
    let effects = page.update(Message::ExtendToEdge(true), &cx);
    assert!(matches!(effects[1], PanelEffect::SetBorderRadius(16)));
}

#[test]
fn size_is_pending_until_commit() {
    let mut page = loaded_page();
    let cx = context(16, Roundness::Round);
    let effects = page.update(Message::PanelSize(PanelSize::XL), &cx);
    assert!(effects.is_empty());
    assert_eq!(page.size, PanelSize::XL);
    assert_eq!(page.panel_config.as_ref().unwrap().size, PanelSize::M);
    let effects = page.update(Message::PanelSizeCommit, &cx);
    assert_eq!(effects.len(), 3);
    assert!(matches!(effects[0], PanelEffect::SetSize(PanelSize::XL)));
    assert!(matches!(effects[1], PanelEffect::ClearSizeCenter));
    assert!(matches!(effects[2], PanelEffect::ClearSizeWings));
    let c = page.panel_config.as_ref().unwrap();
    assert_eq!(c.size, PanelSize::XL);
    assert_eq!(c.size_center, None);
    assert_eq!(c.size_wings, None);
}

#[test]
fn appearance_selected_by_label() {
    let mut page = loaded_page();
    let cx = context(16, Roundness::Round);
    let effects = page.update(Message::Appearance(2), &cx);
    assert!(matches!(effects[0], PanelEffect::SetBackground(PanelBackground::Dark)));
    assert_eq!(page.panel_config.as_ref().unwrap().background, PanelBackground::Dark);
}

#[test]
fn magnification_needs_app_list_config() {
    let mut page = loaded_page();
    let cx = context(16, Roundness::Round);
    assert!(page.update(Message::MagnificationEnabled(false), &cx).is_empty());
    page.app_list_magnification = Some(true);
    let effects = page.update(Message::MagnificationEnabled(false), &cx);
    assert_eq!(effects.len(), 1);
    assert!(matches!(effects[0], PanelEffect::SetMagnificationEnabled(false)));
    assert_eq!(page.app_list_magnification, Some(false));
    page.has_app_list_config_helper = true;
    let effects = page.update(Message::MagnificationScale, &cx);
    assert_eq!(effects.len(), 2);
    assert!(matches!(effects[0], PanelEffect::StoreMagnificationScale));
    assert!(matches!(effects[1], PanelEffect::WriteAppListConfig));
}

#[test]
fn opacity_requests_are_debounced() {
    let mut page = loaded_page();
    let cx = context(16, Roundness::Round);
    let e1 = page.update(Message::OpacityRequest, &cx);
    assert_eq!(e1.len(), 2);
    assert!(matches!(e1[0], PanelEffect::StoreOpacity));
    assert!(matches!(e1[1], PanelEffect::ScheduleOpacityApply));
    let e2 = page.update(Message::OpacityRequest, &cx);
    assert_eq!(e2.len(), 1);
    assert!(matches!(e2[0], PanelEffect::StoreOpacity));
    assert!(page.opacity_changing);
    let e3 = page.update(Message::OpacityApply, &cx);
    assert_eq!(e3.len(), 1);
    assert!(matches!(e3[0], PanelEffect::WriteOpacity));
    assert!(!page.opacity_changing);
}

#[test]
fn inner_glow_messages_write_config() {
    let mut page = loaded_page();
    let cx = context(16, Roundness::Round);
    for m in [
        Message::InnerGlowBrightness,
        Message::InnerGlowLevel,
        Message::InnerGlowAnimationEnabled(true),
        Message::InnerGlowAnimationTime(500),
        Message::InnerGlowColorR,
        Message::InnerGlowColorG,
        Message::InnerGlowColorB,
    ] {
        let effects = page.update(m, &cx);
        assert_eq!(effects.len(), 2);
        assert!(matches!(effects[0], PanelEffect::UpdateInnerGlow));
        assert!(matches!(effects[1], PanelEffect::WritePanelConfig));
    }
    assert_eq!(
        page.panel_config.as_ref().unwrap().inner_glow,
        Some(InnerGlow { animation_enabled: true, animation_time_ms: 500 })
    );
}

#[test]
fn inner_glow_starts_from_default_and_sets_one_field() {
    let mut page = loaded_page();
    let cx = context(16, Roundness::Round);
    page.update(Message::InnerGlowAnimationTime(2500), &cx);
    assert_eq!(
        page.panel_config.as_ref().unwrap().inner_glow,
        Some(InnerGlow { animation_enabled: false, animation_time_ms: 2500 })
    );
    page.update(Message::InnerGlowAnimationEnabled(true), &cx);
    assert_eq!(
        page.panel_config.as_ref().unwrap().inner_glow,
        Some(InnerGlow { animation_enabled: true, animation_time_ms: 2500 })
    );
    page.update(Message::InnerGlowColorG, &cx);
    assert_eq!(
        page.panel_config.as_ref().unwrap().inner_glow,
        Some(InnerGlow { animation_enabled: true, animation_time_ms: 2500 })
    );
    assert_eq!(page.panel_config.as_ref().unwrap().border_radius, 8);
}

#[test]
fn outputs_added_and_removed() {
    let mut page = loaded_page();
    let cx = context(16, Roundness::Round);
    page.update(Message::OutputAdded("DP-1".to_string(), 10), &cx);
    page.update(Message::OutputAdded("HDMI-A-1".to_string(), 11), &cx);
    assert_eq!(page.outputs, vec!["All displays", "DP-1", "HDMI-A-1"]);
    assert_eq!(page.outputs_map.get(&10).map(String::as_str), Some("DP-1"));
    page.update(Message::OutputRemoved(10), &cx);
    assert_eq!(page.outputs, vec!["All displays", "HDMI-A-1"]);
    assert!(!page.outputs_map.contains_key(&10));
    page.update(Message::OutputRemoved(99), &cx);
    assert_eq!(page.outputs, vec!["All displays", "HDMI-A-1"]);
    assert_eq!(page.outputs_map.len(), 1);
}

#[test]
fn removing_an_output_removes_first_entry_with_its_name() {
    let mut page = loaded_page();
    let cx = context(16, Roundness::Round);
    page.update(Message::OutputAdded("DP-1".to_string(), 1), &cx);
    page.update(Message::OutputAdded("HDMI-A-1".to_string(), 2), &cx);
    page.update(Message::OutputAdded("DP-1".to_string(), 3), &cx);
    page.update(Message::OutputRemoved(3), &cx);
    assert_eq!(page.outputs, vec!["All displays", "HDMI-A-1", "DP-1"]);
}

#[test]
fn panel_config_message_replaces_config() {
    let mut page = loaded_page();
    let cx = context(16, Roundness::Round);
    let mut other = config("Dock");
    other.size = PanelSize::L;
    let effects = page.update(Message::PanelConfig(other), &cx);
    assert!(matches!(effects[0], PanelEffect::ReplacePanelConfig));
    assert_eq!(page.size, PanelSize::L);
    assert_eq!(page.panel_config.as_ref().unwrap().name, "Dock");
}

#[test]
fn reset_panel_restores_default() {
    let mut page = loaded_page();
    let cx = context(16, Roundness::Round);
    let mut default = config("Panel");
    default.size = PanelSize::S;
    default.anchor = PanelAnchor::Top;
    page.system_default = Some(default);
    let effects = page.update(Message::ResetPanel, &cx);
    assert_eq!(effects.len(), 1);
    assert!(matches!(effects[0], PanelEffect::ResetToSystemDefault(12)));
    let c = page.panel_config.as_ref().unwrap();
    assert_eq!(c.anchor, PanelAnchor::Top);
    assert_eq!(c.border_radius, 12);
    assert_eq!(page.size, PanelSize::S);
    assert_eq!(page.system_default.as_ref().unwrap().border_radius, 12);
}

#[test]
fn reset_panel_without_default_does_nothing() {
    let mut page = loaded_page();
    let effects = page.update(Message::ResetPanel, &context(16, Roundness::Square));
    assert!(effects.is_empty());
    assert_eq!(page.panel_config.as_ref().unwrap().border_radius, 8);
}

#[test]
fn full_reset_writes_container_and_applies_theme() {
    let mut page = loaded_page();
    let effects = page.update(Message::FullReset, &context(16, Roundness::SlightlyRound));
    assert_eq!(effects.len(), 2);
    assert!(matches!(effects[0], PanelEffect::WriteSystemContainer));
    assert!(matches!(
        effects[1],
        PanelEffect::ApplyThemeToPanels(Roundness::SlightlyRound, Density::Standard)
    ));
    page.has_system_container = false;
    let effects = page.update(Message::FullReset, &context(16, Roundness::Round));
    assert_eq!(effects.len(), 1);
}

#[test]
fn defaults_follow_theme() {
    let mut page = loaded_page();
    page.system_default = Some(config("Dock"));
    page.panel_config = Some(config("Dock"));
    page.update_defaults(&ThemeMetrics { radius_xl: 16, roundness: Roundness::Square, density: Density::Spacious });
    let d = page.system_default.as_ref().unwrap();
    assert_eq!(d.border_radius, 0);
    assert_eq!(d.spacing, 4);
    assert_eq!(d.padding, 0);
    page.panel_config = Some(config("Panel"));
    page.update_defaults(&ThemeMetrics { radius_xl: 16, roundness: Roundness::Round, density: Density::Compact });
    let d = page.system_default.as_ref().unwrap();
    assert_eq!(d.border_radius, 12);
    assert_eq!(d.spacing, 0);
    assert_eq!(d.padding, 0);
}

#[test]
fn defaults_without_system_default_unchanged() {
    let mut page = loaded_page();
    page.update_defaults(&ThemeMetrics { radius_xl: 16, roundness: Roundness::Square, density: Density::Spacious });
    assert!(page.system_default.is_none());
}

#[test]
fn long_opacity_burst_writes_once() {
    let mut page = loaded_page();
    let cx = context(16, Roundness::Round);
    let first = page.update(Message::OpacityRequest, &cx);
    assert!(matches!(first[1], PanelEffect::ScheduleOpacityApply));
    for _ in 0..5 {
        let later = page.update(Message::OpacityRequest, &cx);
        assert_eq!(later.len(), 1);
        assert!(matches!(later[0], PanelEffect::StoreOpacity));
        assert!(page.opacity_changing);
    }
    let apply = page.update(Message::OpacityApply, &cx);
    assert_eq!(apply.len(), 1);
    assert!(matches!(apply[0], PanelEffect::WriteOpacity));
    assert!(!page.opacity_changing);
}
