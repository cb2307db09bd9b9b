//! Properties of the sound settings page.

use vstd::prelude::*;

use crate::sound::{
    all_sounds, entered, sound_filename, sound_label, step, Message, Page, SoundEffect, SystemSound,
};

verus! {

/// The list of sounds holds every sound exactly once.
pub proof fn law_all_sounds_complete(s: SystemSound)
    ensures
        all_sounds().len() == 7,
        all_sounds().contains(s),
        all_sounds().no_duplicates(),
{
    let all = all_sounds();
    let k: int = match s {
        SystemSound::VolumeChange => 0,
        SystemSound::MessageNew => 1,
        SystemSound::ScreenCapture => 2,
        SystemSound::PowerPlug => 3,
        SystemSound::PowerUnplug => 4,
        SystemSound::AlarmClock => 5,
        SystemSound::TrashEmpty => 6,
    };
    assert(all[k] == s);
}

/// Different sounds are stored in different files, so replacing one never
/// replaces another.
pub proof fn law_filenames_distinct(a: SystemSound, b: SystemSound)
    requires
        a != b,
    ensures
        sound_filename(a) != sound_filename(b),
{
    reveal_strlit("audio-volume-change.oga");
    reveal_strlit("message-new-instant.oga");
    reveal_strlit("screen-capture.oga");
    reveal_strlit("power-plug.oga");
    reveal_strlit("power-unplug.oga");
    reveal_strlit("alarm-clock-elapsed.oga");
    reveal_strlit("trash-empty.oga");
    if sound_filename(a) == sound_filename(b) {
        let fa = sound_filename(a);
        let fb = sound_filename(b);
        assert(fa[0] == fb[0]);
        assert(fa[1] == fb[1]);
        assert(fa[6] == fb[6]);
    }
}

/// Different sounds are listed under different names.
pub proof fn law_labels_distinct(a: SystemSound, b: SystemSound)
    requires
        a != b,
    ensures
        sound_label(a) != sound_label(b),
{
    reveal_strlit("Volume Ubah");
    reveal_strlit("Notifikasi Pesan Baru");
    reveal_strlit("Tangkapan Layar / Screenshot");
    reveal_strlit("Pengisi Daya Dicolok");
    reveal_strlit("Pengisi Daya Dicabut");
    reveal_strlit("Baterai Lemah / Alarm");
    reveal_strlit("Tempat Sampah Dikosongkan");
    if sound_label(a) == sound_label(b) {
        let la = sound_label(a);
        let lb = sound_label(b);
        assert(la[0] == lb[0]);
        assert(la[19] == lb[19]);
    }
}

/// A file chosen after a sound was picked from the list replaces that
/// sound.
pub proof fn law_pick_then_install(p: Page, idx: usize)
    requires
        idx < all_sounds().len(),
    ensures
        ({
            let p1 = step(p, Message::TargetSoundSelected(idx)).0;
            step(p1, Message::CustomSoundFileSelected(true)).1 == SoundEffect::InstallCustomSound(
                all_sounds()[idx as int],
            )
        }),
{
}

/// Each over-amplification toggle sets the output's (sink's) setting,
/// leaves the input's setting alone, and is saved as the output setting
/// exactly when the configuration could be opened.
pub proof fn law_amplification_saved(p: Page, enabled: bool)
    ensures
        step(p, Message::ToggleOverAmplificationSink(enabled)).0 == (Page {
            amplification_sink: enabled,
            ..p
        }),
        (step(p, Message::ToggleOverAmplificationSink(enabled)).1 == SoundEffect::SaveAmplificationSink(
            enabled,
        )) == p.has_sound_config,
        step(p, Message::ToggleOverAmplificationSource(enabled)).0 == (Page {
            amplification_sink: enabled,
            ..p
        }),
        (step(p, Message::ToggleOverAmplificationSource(enabled)).1
            == SoundEffect::SaveAmplificationSink(enabled)) == p.has_sound_config,
{
}

/// Each sound is stored in the freedesktop sound-theme file of its own
/// event, and listed under its own name.
pub proof fn law_sound_files()
    ensures
        sound_filename(SystemSound::VolumeChange) == "audio-volume-change.oga"@,
        sound_filename(SystemSound::MessageNew) == "message-new-instant.oga"@,
        sound_filename(SystemSound::ScreenCapture) == "screen-capture.oga"@,
        sound_filename(SystemSound::PowerPlug) == "power-plug.oga"@,
        sound_filename(SystemSound::PowerUnplug) == "power-unplug.oga"@,
        sound_filename(SystemSound::AlarmClock) == "alarm-clock-elapsed.oga"@,
        sound_filename(SystemSound::TrashEmpty) == "trash-empty.oga"@,
        sound_label(SystemSound::VolumeChange) == "Volume Ubah"@,
        sound_label(SystemSound::MessageNew) == "Notifikasi Pesan Baru"@,
        sound_label(SystemSound::ScreenCapture) == "Tangkapan Layar / Screenshot"@,
        sound_label(SystemSound::PowerPlug) == "Pengisi Daya Dicolok"@,
        sound_label(SystemSound::PowerUnplug) == "Pengisi Daya Dicabut"@,
        sound_label(SystemSound::AlarmClock) == "Baterai Lemah / Alarm"@,
        sound_label(SystemSound::TrashEmpty) == "Tempat Sampah Dikosongkan"@,
{
}

/// Entering the page reads the two over-amplification settings
/// independently: a stored setting is taken as it is, a missing output
/// setting counts as on and a missing input setting as off; when the
/// configuration cannot be opened, output is on and input off. Nothing else
/// of the page changes, except that an opened configuration is recorded.
pub proof fn law_enter_reads_settings(p: Page, sink: Option<bool>, source: Option<bool>)
    ensures
        ({
            let q = entered(p, Some((sink, source)));
            &&& forall|b: bool| sink == Some(b) ==> q.amplification_sink == b
            &&& sink is None ==> q.amplification_sink
            &&& forall|b: bool| source == Some(b) ==> q.amplification_source == b
            &&& source is None ==> !q.amplification_source
            &&& q.has_sound_config
            &&& q.selected_target_sound_idx == p.selected_target_sound_idx
        }),
        ({
            let q = entered(p, None);
            &&& q.amplification_sink && !q.amplification_source
            &&& q.has_sound_config == p.has_sound_config
            &&& q.selected_target_sound_idx == p.selected_target_sound_idx
        }),
{
}

} // verus!
