//! Properties of the panel settings page that span its functions or several
//! of its messages.

use vstd::prelude::*;
use vstd::set_lib::lemma_len_subset;

use crate::panel::{
    anchor_index, appearance_of, background_index, defaults_updated, background_of, initial_page, is_first_match,
    position_of, reset_border_radius, reset_step, size_at, size_position, step, AnchorLabels,
    Appearance, AppearanceLabels, Message, PageInnerView, PanelEffect, UpdateContext,
};
use crate::panel_config::{
    InnerGlow, PanelAnchor, PanelBackground, PanelConfig, PanelOutput, PanelSize, Roundness,
    ThemeMetrics,
};

verus! {

/// An appearance turned into a background and back is the same appearance.
pub proof fn law_appearance_round_trip(a: Appearance)
    ensures
        appearance_of(background_of(a)) == Ok::<Appearance, ()>(a),
{
}

/// Every background other than a custom color comes back unchanged from its
/// appearance; a custom color has no appearance.
pub proof fn law_background_round_trip(b: PanelBackground)
    ensures
        b != PanelBackground::Color ==> (appearance_of(b) matches Ok(a) && background_of(a) == b),
        b == PanelBackground::Color ==> appearance_of(b) is Err,
{
}

/// A preset size shown on the size slider is the size that the slider's
/// position picks.
pub proof fn law_size_slider_round_trip(size: PanelSize)
    ensures
        !(size is Custom) ==> size_at(size_position(size)) == size,
        size is Custom ==> size_at(size_position(size)) == PanelSize::M,
{
}

/// Each of the five slider positions shows the size it picks.
pub proof fn law_slider_position_round_trip(v: i32)
    requires
        0 <= v <= 4,
    ensures
        size_position(size_at(v)) == v,
{
}

/// A page without a configuration handle ignores every message.
pub proof fn law_no_helper_no_change(s: PageInnerView, m: Message, cx: UpdateContext)
    requires
        !s.has_config_helper,
    ensures
        step(s, m, cx).0 == s,
        step(s, m, cx).1 == Seq::<PanelEffect>::empty(),
{
}

/// Removing an output that the page does not track changes nothing.
pub proof fn law_remove_unknown_output(s: PageInnerView, id: u32, cx: UpdateContext)
    requires
        !s.outputs_map.contains_key(id),
    ensures
        step(s, Message::OutputRemoved(id), cx).0 == s,
        step(s, Message::OutputRemoved(id), cx).1 == Seq::<PanelEffect>::empty(),
{
    assert(seq![] + seq![] =~= Seq::<PanelEffect>::empty());
}

/// Adding an output under a new id and then removing that id gives back
/// the outputs map, and, when no listed output had the new output's name,
/// the list of outputs too.
pub proof fn law_add_then_remove_output(s: PageInnerView, name: String, id: u32, cx: UpdateContext)
    requires
        s.has_config_helper,
        s.panel_config is Some,
        !s.outputs_map.contains_key(id),
    ensures
        ({
            let s1 = step(s, Message::OutputAdded(name, id), cx).0;
            let s2 = step(s1, Message::OutputRemoved(id), cx).0;
            &&& s2.outputs_map == s.outputs_map
            &&& (forall|k: int| 0 <= k < s.outputs.len() ==> s.outputs[k]@ != name@) ==> s2 == s
        }),
{
    let s1 = step(s, Message::OutputAdded(name, id), cx).0;
    assert(s1.outputs == s.outputs.push(name));
    assert(s1.outputs_map == s.outputs_map.insert(id, name));
    assert(s1.outputs_map.contains_key(id));
    assert(s1.outputs_map[id] == name);
    assert(s1.outputs_map.remove(id) =~= s.outputs_map);
    if forall|k: int| 0 <= k < s.outputs.len() ==> s.outputs[k]@ != name@ {
        let n = s.outputs.len() as int;
        assert(is_first_match(s1.outputs, name@, n));
        let c = choose|j: int| is_first_match(s1.outputs, name@, j);
        assert(is_first_match(s1.outputs, name@, c));
        if c < n {
            assert(s1.outputs[c] == s.outputs[c]);
        }
        assert(c == n);
        assert(position_of(s1.outputs, name@) == Some(n));
        assert(s1.outputs.remove(n) =~= s.outputs);
    }
}

/// Moving the size slider changes only the pending size; committing writes
/// it as the panel's size and drops any center and wing sizes.
pub proof fn law_size_commit(s: PageInnerView, size: PanelSize, cx: UpdateContext)
    requires
        s.has_config_helper,
        s.panel_config is Some,
    ensures
        ({
            let (s1, e1) = step(s, Message::PanelSize(size), cx);
            let (s2, e2) = step(s1, Message::PanelSizeCommit, cx);
            &&& s1.panel_config == s.panel_config
            &&& e1 == Seq::<PanelEffect>::empty()
            &&& (s2.panel_config matches Some(c) && c.size == size && c.size_center is None
                && c.size_wings is None)
            &&& e2 == seq![
                PanelEffect::SetSize(size),
                PanelEffect::ClearSizeCenter,
                PanelEffect::ClearSizeWings,
            ]
        }),
{
    let (s1, e1) = step(s, Message::PanelSize(size), cx);
    let (s2, e2) = step(s1, Message::PanelSizeCommit, cx);
    assert(e1 =~= Seq::<PanelEffect>::empty());
    assert(e2 =~= seq![
        PanelEffect::SetSize(size),
        PanelEffect::ClearSizeCenter,
        PanelEffect::ClearSizeWings,
    ]);
}

/// Resetting a panel that has a system default makes the default, with the
/// corner radius the theme calls for, the panel's configuration and its
/// size the page's size.
pub proof fn law_reset_panel(s: PageInnerView, cx: UpdateContext)
    requires
        s.has_config_helper,
        s.system_default is Some,
    ensures
        ({
            let d = s.system_default.unwrap();
            let s1 = step(s, Message::ResetPanel, cx).0;
            &&& s1.panel_config == s1.system_default
            &&& s1.system_default == Some(
                PanelConfig {
                    border_radius: reset_border_radius(d.anchor_gap, d.expand_to_edges, cx.theme),
                    ..d
                },
            )
            &&& s1.size == d.size
        }),
{
}

/// On a page whose position list holds the anchors' labels in drop-down
/// order, all different, choosing the entry that the drop-down shows for an
/// anchor sets that anchor.
pub proof fn law_anchor_selection(s: PageInnerView, a: PanelAnchor, cx: UpdateContext)
    requires
        s.has_config_helper,
        s.panel_config is Some,
        s.anchors == seq![
            cx.anchor_labels.left,
            cx.anchor_labels.right,
            cx.anchor_labels.top,
            cx.anchor_labels.bottom,
        ],
        cx.anchor_labels.left@ != cx.anchor_labels.right@,
        cx.anchor_labels.left@ != cx.anchor_labels.top@,
        cx.anchor_labels.left@ != cx.anchor_labels.bottom@,
        cx.anchor_labels.right@ != cx.anchor_labels.top@,
        cx.anchor_labels.right@ != cx.anchor_labels.bottom@,
        cx.anchor_labels.top@ != cx.anchor_labels.bottom@,
    ensures
        ({
            let (s1, e1) = step(s, Message::PanelAnchor(anchor_index(a)), cx);
            &&& (s1.panel_config matches Some(c) && c.anchor == a)
            &&& e1 == seq![PanelEffect::SetAnchor(a)]
        }),
{
    let (s1, e1) = step(s, Message::PanelAnchor(anchor_index(a)), cx);
    assert(e1 =~= seq![PanelEffect::SetAnchor(a)]);
}

/// On a page whose appearance list holds the appearances' labels in
/// drop-down order, all different, choosing the entry that the drop-down
/// shows for a background other than a custom color sets that background.
pub proof fn law_background_selection(s: PageInnerView, b: PanelBackground, cx: UpdateContext)
    requires
        s.has_config_helper,
        s.panel_config is Some,
        b != PanelBackground::Color,
        s.backgrounds == seq![
            cx.appearance_labels.match_theme,
            cx.appearance_labels.light,
            cx.appearance_labels.dark,
        ],
        cx.appearance_labels.match_theme@ != cx.appearance_labels.light@,
        cx.appearance_labels.match_theme@ != cx.appearance_labels.dark@,
        cx.appearance_labels.light@ != cx.appearance_labels.dark@,
    ensures
        background_index(b) is Some,
        ({
            let (s1, e1) = step(s, Message::Appearance(background_index(b).unwrap()), cx);
            &&& (s1.panel_config matches Some(c) && c.background == b)
            &&& e1 == seq![PanelEffect::SetBackground(b)]
        }),
{
    let (s1, e1) = step(s, Message::Appearance(background_index(b).unwrap()), cx);
    assert(e1 =~= seq![PanelEffect::SetBackground(b)]);
}

/// How many entries of `v` hold the text `name`.
pub open spec fn name_count(v: Seq<String>, name: Seq<char>) -> nat
    decreases v.len(),
{
    if v.len() == 0 {
        0
    } else {
        name_count(v.drop_last(), name) + if v.last()@ == name {
            1nat
        } else {
            0nat
        }
    }
}

/// The output ids that `m` maps to the text `name`.
pub open spec fn ids_named(m: Map<u32, String>, name: Seq<char>) -> Set<u32> {
    m.dom().filter(|id: u32| m[id]@ == name)
}

/// Every tracked output has an entry of its own in the display list: for
/// each name, at least as many entries hold it as output ids are mapped to
/// it.
pub open spec fn outputs_tracked(s: PageInnerView) -> bool {
    &&& s.outputs_map.dom().finite()
    &&& forall|name: Seq<char>| #[trigger]
        ids_named(s.outputs_map, name).len() <= name_count(s.outputs, name)
}

proof fn lemma_count_push(v: Seq<String>, x: String, name: Seq<char>)
    ensures
        name_count(v.push(x), name) == name_count(v, name) + if x@ == name {
            1nat
        } else {
            0nat
        },
{
    assert(v.push(x).drop_last() =~= v);
}

proof fn lemma_count_remove(v: Seq<String>, p: int, name: Seq<char>)
    requires
        0 <= p < v.len(),
    ensures
        name_count(v.remove(p), name) + (if v[p]@ == name {
            1nat
        } else {
            0nat
        }) == name_count(v, name),
    decreases v.len(),
{
    if p == v.len() - 1 {
        assert(v.remove(p) =~= v.drop_last());
    } else {
        let w = v.drop_last();
        lemma_count_remove(w, p, name);
        assert(v.remove(p) =~= w.remove(p).push(v.last()));
        lemma_count_push(w.remove(p), v.last(), name);
        assert(w[p] == v[p]);
    }
}

proof fn lemma_ids_finite(m: Map<u32, String>, name: Seq<char>)
    requires
        m.dom().finite(),
    ensures
        ids_named(m, name).finite(),
        ids_named(m, name).len() <= m.dom().len(),
{
    lemma_len_subset(ids_named(m, name), m.dom());
}

proof fn lemma_ids_insert(m: Map<u32, String>, id: u32, x: String, name: Seq<char>)
    requires
        m.dom().finite(),
    ensures
        ids_named(m.insert(id, x), name).len() <= ids_named(m, name).len() + if x@ == name {
            1nat
        } else {
            0nat
        },
{
    let a = ids_named(m.insert(id, x), name);
    let b = ids_named(m, name);
    lemma_ids_finite(m, name);
    if x@ == name {
        assert(a.subset_of(b.insert(id)));
        lemma_len_subset(a, b.insert(id));
    } else {
        assert(a.subset_of(b));
        lemma_len_subset(a, b);
    }
}

proof fn lemma_ids_remove(m: Map<u32, String>, id: u32, name: Seq<char>)
    requires
        m.dom().finite(),
        m.contains_key(id),
    ensures
        ids_named(m.remove(id), name).len() + (if m[id]@ == name {
            1nat
        } else {
            0nat
        }) == ids_named(m, name).len(),
{
    let a = ids_named(m.remove(id), name);
    let b = ids_named(m, name);
    lemma_ids_finite(m, name);
    if m[id]@ == name {
        assert(a =~= b.remove(id));
    } else {
        assert(a =~= b);
    }
}

/// A new page tracks no outputs.
pub proof fn law_initial_outputs_tracked(
    all_displays: String,
    anchor_labels: AnchorLabels,
    appearance_labels: AppearanceLabels,
    has_system_container: bool,
)
    ensures
        outputs_tracked(
            initial_page(all_displays, anchor_labels, appearance_labels, has_system_container),
        ),
{
    let s = initial_page(all_displays, anchor_labels, appearance_labels, has_system_container);
    assert forall|name: Seq<char>| #[trigger]
        ids_named(s.outputs_map, name).len() <= name_count(s.outputs, name) by {
        assert(ids_named(s.outputs_map, name) =~= Set::empty());
    }
}

/// Every message keeps each tracked output's entry in the display list.
pub proof fn law_outputs_tracked_kept(s: PageInnerView, m: Message, cx: UpdateContext)
    requires
        outputs_tracked(s),
    ensures
        outputs_tracked(step(s, m, cx).0),
{
    let s2 = step(s, m, cx).0;
    let gated = s.has_config_helper && reset_step(s, m, cx.theme).0.panel_config is Some;
    if gated {
        match m {
            Message::OutputAdded(x, id) => {
                assert(s2.outputs == s.outputs.push(x));
                assert(s2.outputs_map == s.outputs_map.insert(id, x));
                assert forall|name: Seq<char>| #[trigger]
                    ids_named(s2.outputs_map, name).len() <= name_count(s2.outputs, name) by {
                    lemma_count_push(s.outputs, x, name);
                    lemma_ids_insert(s.outputs_map, id, x, name);
                }
            },
            Message::OutputRemoved(id) => {
                if s.outputs_map.contains_key(id) {
                    let x = s.outputs_map[id];
                    assert(s2.outputs_map == s.outputs_map.remove(id));
                    assert forall|name: Seq<char>| #[trigger]
                        ids_named(s2.outputs_map, name).len() <= name_count(s2.outputs, name) by {
                        lemma_ids_remove(s.outputs_map, id, name);
                        match position_of(s.outputs, x@) {
                            Some(p) => {
                                let c = choose|k: int| is_first_match(s.outputs, x@, k);
                                assert(is_first_match(s.outputs, x@, c));
                                assert(s2.outputs == s.outputs.remove(p));
                                lemma_count_remove(s.outputs, p, name);
                            },
                            None => {
                                assert(s2.outputs == s.outputs);
                            },
                        }
                    }
                } else {
                    assert(s2 == s);
                }
            },
            _ => {
                assert(s2.outputs == s.outputs);
                assert(s2.outputs_map == s.outputs_map);
            },
        }
    } else {
        assert(s2.outputs == s.outputs);
        assert(s2.outputs_map == s.outputs_map);
    }
}

/// The page after `n` opacity requests in a row.
pub open spec fn after_opacity_requests(s: PageInnerView, n: nat, cx: UpdateContext) -> PageInnerView
    decreases n,
{
    if n == 0 {
        s
    } else {
        step(after_opacity_requests(s, (n - 1) as nat, cx), Message::OpacityRequest, cx).0
    }
}

proof fn lemma_requests_mark_changing(s: PageInnerView, n: nat, cx: UpdateContext)
    requires
        s.has_config_helper,
        s.panel_config is Some,
        !s.opacity_changing,
        n >= 1,
    ensures
        after_opacity_requests(s, n, cx) == (PageInnerView { opacity_changing: true, ..s }),
    decreases n,
{
    let prev = after_opacity_requests(s, (n - 1) as nat, cx);
    if n > 1 {
        lemma_requests_mark_changing(s, (n - 1) as nat, cx);
    } else {
        assert(prev == s);
    }
    assert(after_opacity_requests(s, n, cx) == step(prev, Message::OpacityRequest, cx).0);
    assert(reset_step(prev, Message::OpacityRequest, cx.theme).0 == prev);
    assert(step(prev, Message::OpacityRequest, cx).0 == (PageInnerView { opacity_changing: true, ..s }));
}

/// Opacity is written once per burst of requests of any length: the first
/// request of a burst stores the value and schedules the write, every
/// later request only stores its value, and applying writes once and ends
/// the burst, leaving the page as it was before the burst.
pub proof fn law_opacity_burst(s: PageInnerView, n: nat, cx: UpdateContext)
    requires
        s.has_config_helper,
        s.panel_config is Some,
        !s.opacity_changing,
        n >= 1,
    ensures
        step(s, Message::OpacityRequest, cx).1 == seq![
            PanelEffect::StoreOpacity,
            PanelEffect::ScheduleOpacityApply,
        ],
        forall|k: nat|
            1 <= k < n ==> #[trigger] step(after_opacity_requests(s, k, cx), Message::OpacityRequest, cx).1
                == seq![PanelEffect::StoreOpacity],
        after_opacity_requests(s, n, cx).opacity_changing,
        step(after_opacity_requests(s, n, cx), Message::OpacityApply, cx).0 == s,
        step(after_opacity_requests(s, n, cx), Message::OpacityApply, cx).1 == seq![
            PanelEffect::WriteOpacity,
        ],
{
    assert(step(s, Message::OpacityRequest, cx).1 =~= seq![
        PanelEffect::StoreOpacity,
        PanelEffect::ScheduleOpacityApply,
    ]);
    assert forall|k: nat|
        1 <= k < n implies #[trigger] step(after_opacity_requests(s, k, cx), Message::OpacityRequest, cx).1
            == seq![PanelEffect::StoreOpacity] by {
        lemma_requests_mark_changing(s, k, cx);
        assert(step(after_opacity_requests(s, k, cx), Message::OpacityRequest, cx).1 =~= seq![
            PanelEffect::StoreOpacity,
        ]);
    }
    lemma_requests_mark_changing(s, n, cx);
    let t = after_opacity_requests(s, n, cx);
    assert(step(t, Message::OpacityApply, cx).1 =~= seq![PanelEffect::WriteOpacity]);
    assert(step(t, Message::OpacityApply, cx).0 == s);
}

/// A glow message replaces only the glow setting it names, starting from
/// the default glow when the panel has none, leaves every other field of
/// the panel's configuration as it was, and writes the configuration.
pub proof fn law_inner_glow_update(s: PageInnerView, enabled: bool, time_ms: u32, cx: UpdateContext)
    requires
        s.has_config_helper,
        s.panel_config is Some,
    ensures
        ({
            let c = s.panel_config.unwrap();
            let base = match c.inner_glow {
                Some(g) => g,
                None => cx.default_glow,
            };
            let (s1, e1) = step(s, Message::InnerGlowAnimationEnabled(enabled), cx);
            let (s2, e2) = step(s, Message::InnerGlowAnimationTime(time_ms), cx);
            let (s3, e3) = step(s, Message::InnerGlowLevel, cx);
            &&& s1.panel_config == Some(
                PanelConfig {
                    inner_glow: Some(InnerGlow { animation_enabled: enabled, ..base }),
                    ..c
                },
            )
            &&& s2.panel_config == Some(
                PanelConfig {
                    inner_glow: Some(InnerGlow { animation_time_ms: time_ms, ..base }),
                    ..c
                },
            )
            &&& s3.panel_config == Some(PanelConfig { inner_glow: Some(base), ..c })
            &&& e1 == seq![PanelEffect::UpdateInnerGlow, PanelEffect::WritePanelConfig]
            &&& e2 == e1
            &&& e3 == e1
        }),
{
    let (s1, e1) = step(s, Message::InnerGlowAnimationEnabled(enabled), cx);
    let (s2, e2) = step(s, Message::InnerGlowAnimationTime(time_ms), cx);
    let (s3, e3) = step(s, Message::InnerGlowLevel, cx);
    assert(e1 =~= seq![PanelEffect::UpdateInnerGlow, PanelEffect::WritePanelConfig]);
    assert(e2 =~= seq![PanelEffect::UpdateInnerGlow, PanelEffect::WritePanelConfig]);
    assert(e3 =~= seq![PanelEffect::UpdateInnerGlow, PanelEffect::WritePanelConfig]);
}

/// The corner radius a reset gives the system default panel: the theme's
/// extra-large radius whenever the panel has a gap to the edge, whether or
/// not it is extended to the edges; without a gap, 12 under a round theme
/// for a panel that does not reach the edges, and square corners otherwise.
/// The reset makes that configuration the panel's and reports the radius.
pub proof fn law_reset_radius(s: PageInnerView, cx: UpdateContext)
    requires
        s.has_config_helper,
        s.system_default is Some,
    ensures
        ({
            let d = s.system_default.unwrap();
            let expected: u32 = if d.anchor_gap {
                cx.theme.radius_xl
            } else if cx.theme.roundness == Roundness::Round && !d.expand_to_edges {
                12
            } else {
                0
            };
            let (s1, e1) = step(s, Message::ResetPanel, cx);
            &&& s1.panel_config matches Some(c) && c.border_radius == expected
            &&& s1.system_default matches Some(c) && c.border_radius == expected
            &&& e1 == seq![PanelEffect::ResetToSystemDefault(expected)]
            &&& d.anchor_gap ==> expected == cx.theme.radius_xl
        }),
{
    let (s1, e1) = step(s, Message::ResetPanel, cx);
    let d = s.system_default.unwrap();
    let expected: u32 = if d.anchor_gap {
        cx.theme.radius_xl
    } else if cx.theme.roundness == Roundness::Round && !d.expand_to_edges {
        12
    } else {
        0
    };
    assert(e1 =~= seq![PanelEffect::ResetToSystemDefault(expected)]);
}

/// Bringing the defaults in line with the theme gives the system default
/// panel the same corner radius a reset gives: the theme's extra-large
/// radius with a gap, whatever its extension to the edges; 12 under a round
/// theme for a panel without a gap that does not reach the edges; 0
/// otherwise. Its spacing follows the density: 4 when spacious, else 0.
pub proof fn law_defaults_radius(s: PageInnerView, theme: ThemeMetrics)
    requires
        s.system_default is Some,
    ensures
        ({
            let d = s.system_default.unwrap();
            let d2 = defaults_updated(s, theme).system_default.unwrap();
            &&& d.anchor_gap ==> d2.border_radius == theme.radius_xl
            &&& (!d.anchor_gap && theme.roundness == Roundness::Round && !d.expand_to_edges)
                ==> d2.border_radius == 12
            &&& (!d.anchor_gap && !(theme.roundness == Roundness::Round && !d.expand_to_edges))
                ==> d2.border_radius == 0
            &&& d2.spacing == (if theme.density == crate::panel_config::Density::Spacious {
                4u32
            } else {
                0u32
            })
            &&& d2.anchor == d.anchor && d2.size == d.size && d2.anchor_gap == d.anchor_gap
        }),
{
}

/// Choosing entry `i` of the display drop-down sets the panel's output to
/// every display for the first entry, and otherwise to the display named by
/// entry `i`; choosing the entry that the drop-down shows for a named
/// output gives that entry back.
pub proof fn law_output_selection(s: PageInnerView, i: usize, cx: UpdateContext)
    requires
        s.has_config_helper,
        s.panel_config is Some,
        i < s.outputs.len(),
    ensures
        ({
            let (s1, e1) = step(s, Message::Output(i), cx);
            let chosen = if i == 0 {
                PanelOutput::All
            } else {
                PanelOutput::Name(s.outputs[i as int])
            };
            &&& s1.panel_config == Some(PanelConfig { output: chosen, ..s.panel_config.unwrap() })
            &&& e1 == seq![PanelEffect::SetOutput(chosen)]
            &&& (0 < i && is_first_match(s.outputs, s.outputs[i as int]@, i as int))
                ==> position_of(s.outputs, s.outputs[i as int]@) == Some(i as int)
        }),
{
    let (s1, e1) = step(s, Message::Output(i), cx);
    let chosen = if i == 0 {
        PanelOutput::All
    } else {
        PanelOutput::Name(s.outputs[i as int])
    };
    assert(e1 =~= seq![PanelEffect::SetOutput(chosen)]);
    if 0 < i && is_first_match(s.outputs, s.outputs[i as int]@, i as int) {
        let name = s.outputs[i as int]@;
        let c = choose|k: int| is_first_match(s.outputs, name, k);
        assert(is_first_match(s.outputs, name, c));
        if c < i {
            assert(s.outputs[c]@ != name);
        }
        if i < c {
            assert(s.outputs[i as int]@ != name);
        }
    }
}

/// Toggling dock magnification sets the app list configuration's setting
/// and, whenever there is a handle to write that configuration, writes it;
/// a page without an app list configuration ignores the toggle. Changing
/// the magnification scale is written in the same way.
pub proof fn law_magnification_written(s: PageInnerView, enabled: bool, cx: UpdateContext)
    requires
        s.has_config_helper,
        s.panel_config is Some,
    ensures
        ({
            let (s1, e1) = step(s, Message::MagnificationEnabled(enabled), cx);
            let (s2, e2) = step(s, Message::MagnificationScale, cx);
            &&& (s.app_list_magnification is Some && s.has_app_list_config_helper) ==> (
                s1.app_list_magnification == Some(enabled)
                && e1 == seq![PanelEffect::SetMagnificationEnabled(enabled), PanelEffect::WriteAppListConfig]
                && e2 == seq![PanelEffect::StoreMagnificationScale, PanelEffect::WriteAppListConfig])
            &&& (s.app_list_magnification is Some && !s.has_app_list_config_helper) ==> (
                s1.app_list_magnification == Some(enabled)
                && e1 == seq![PanelEffect::SetMagnificationEnabled(enabled)]
                && e2 == seq![PanelEffect::StoreMagnificationScale])
            &&& s.app_list_magnification is None ==> (s1 == s && e1 == Seq::<PanelEffect>::empty()
                && e2 == Seq::<PanelEffect>::empty())
        }),
{
    let (s1, e1) = step(s, Message::MagnificationEnabled(enabled), cx);
    let (s2, e2) = step(s, Message::MagnificationScale, cx);
    if s.app_list_magnification is Some && s.has_app_list_config_helper {
        assert(e1 =~= seq![PanelEffect::SetMagnificationEnabled(enabled), PanelEffect::WriteAppListConfig]);
        assert(e2 =~= seq![PanelEffect::StoreMagnificationScale, PanelEffect::WriteAppListConfig]);
    } else if s.app_list_magnification is Some {
        assert(e1 =~= seq![PanelEffect::SetMagnificationEnabled(enabled)]);
        assert(e2 =~= seq![PanelEffect::StoreMagnificationScale]);
    } else {
        assert(e1 =~= Seq::<PanelEffect>::empty());
        assert(e2 =~= Seq::<PanelEffect>::empty());
    }
}

} // verus!
