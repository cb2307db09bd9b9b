//! The sound settings page: the system sounds that can be replaced, and how
//! the page's messages change its state.

use vstd::prelude::*;

verus! {

/// The system sounds that the page lets the user replace.
#[derive(Debug, Clone, Copy, PartialEq, Eq, Structural)]
pub enum SystemSound {
    VolumeChange,
    MessageNew,
    ScreenCapture,
    PowerPlug,
    PowerUnplug,
    AlarmClock,
    TrashEmpty,
}

/// Every system sound, in the order the page lists them.
pub open spec fn all_sounds() -> Seq<SystemSound> {
    seq![
        SystemSound::VolumeChange,
        SystemSound::MessageNew,
        SystemSound::ScreenCapture,
        SystemSound::PowerPlug,
        SystemSound::PowerUnplug,
        SystemSound::AlarmClock,
        SystemSound::TrashEmpty,
    ]
}

impl SystemSound {
    /// Every system sound, in the order the page lists them.
    pub fn all() -> (sounds: &'static [Self])
        ensures
            sounds@ == all_sounds(),
    {
        let sounds: &'static [Self] = &[
            Self::VolumeChange,
            Self::MessageNew,
            Self::ScreenCapture,
            Self::PowerPlug,
            Self::PowerUnplug,
            Self::AlarmClock,
            Self::TrashEmpty,
        ];
        sounds
    }

    /// The name under which the page lists the sound.
    pub fn label(&self) -> (l: &'static str)
        ensures
            l@ == sound_label(*self),
    {
        match self {
            Self::VolumeChange => "Volume Ubah",
            Self::MessageNew => "Notifikasi Pesan Baru",
            Self::ScreenCapture => "Tangkapan Layar / Screenshot",
            Self::PowerPlug => "Pengisi Daya Dicolok",
            Self::PowerUnplug => "Pengisi Daya Dicabut",
            Self::AlarmClock => "Baterai Lemah / Alarm",
            Self::TrashEmpty => "Tempat Sampah Dikosongkan",
        }
    }

    /// The file of the freedesktop sound theme that holds the sound.
    pub fn filename(&self) -> (f: &'static str)
        ensures
            f@ == sound_filename(*self),
    {
        match self {
            Self::VolumeChange => "audio-volume-change.oga",
            Self::MessageNew => "message-new-instant.oga",
            Self::ScreenCapture => "screen-capture.oga",
            Self::PowerPlug => "power-plug.oga",
            Self::PowerUnplug => "power-unplug.oga",
            Self::AlarmClock => "alarm-clock-elapsed.oga",
            Self::TrashEmpty => "trash-empty.oga",
        }
    }
}

/// The name under which the page lists a sound.
pub open spec fn sound_label(s: SystemSound) -> Seq<char> {
    match s {
        SystemSound::VolumeChange => "Volume Ubah"@,
        SystemSound::MessageNew => "Notifikasi Pesan Baru"@,
        SystemSound::ScreenCapture => "Tangkapan Layar / Screenshot"@,
        SystemSound::PowerPlug => "Pengisi Daya Dicolok"@,
        SystemSound::PowerUnplug => "Pengisi Daya Dicabut"@,
        SystemSound::AlarmClock => "Baterai Lemah / Alarm"@,
        SystemSound::TrashEmpty => "Tempat Sampah Dikosongkan"@,
    }
}

/// The sound-theme file that holds a sound.
pub open spec fn sound_filename(s: SystemSound) -> Seq<char> {
    match s {
        SystemSound::VolumeChange => "audio-volume-change.oga"@,
        SystemSound::MessageNew => "message-new-instant.oga"@,
        SystemSound::ScreenCapture => "screen-capture.oga"@,
        SystemSound::PowerPlug => "power-plug.oga"@,
        SystemSound::PowerUnplug => "power-unplug.oga"@,
        SystemSound::AlarmClock => "alarm-clock-elapsed.oga"@,
        SystemSound::TrashEmpty => "trash-empty.oga"@,
    }
}

/// The labels of the replaceable sounds, in the order of the drop-down that
/// picks one.
pub fn sound_options() -> (options: Vec<String>)
    ensures
        options@.len() == all_sounds().len(),
        forall|i: int| 0 <= i < options@.len() ==> options@[i]@ == sound_label(#[trigger] all_sounds()[i]),
{
    let sounds = SystemSound::all();
    let mut options: Vec<String> = Vec::new();
    let mut i: usize = 0;
    while i < sounds.len()
        invariant
            sounds@ == all_sounds(),
            i <= sounds@.len(),
            options@.len() == i,
            forall|j: int| 0 <= j < i ==> options@[j]@ == sound_label(#[trigger] all_sounds()[j]),
        decreases sounds@.len() - i,
    {
        let label: String = sounds[i].label().to_owned();
        options.push(label);
        i = i + 1;
    }
    options
}

/// The highest volume, in percent, that a volume slider offers: 150 with
/// over-amplification, 100 without.
pub open spec fn max_volume(amplified: bool) -> u32 {
    if amplified {
        150
    } else {
        100
    }
}

/// The highest volume, in percent, that a volume slider offers.
pub fn volume_slider_max(amplified: bool) -> (max: u32)
    ensures
        max == max_volume(amplified),
{
    if amplified {
        150
    } else {
        100
    }
}

/// The icon of the output mute button.
pub fn sink_mute_icon(muted: bool) -> (icon: &'static str)
    ensures
        muted ==> icon@ == "audio-volume-muted-symbolic"@,
        !muted ==> icon@ == "audio-volume-high-symbolic"@,
{
    if muted {
        "audio-volume-muted-symbolic"
    } else {
        "audio-volume-high-symbolic"
    }
}

/// The icon of the input mute button.
pub fn source_mute_icon(muted: bool) -> (icon: &'static str)
    ensures
        muted ==> icon@ == "microphone-sensitivity-muted-symbolic"@,
        !muted ==> icon@ == "audio-input-microphone-symbolic"@,
{
    if muted {
        "microphone-sensitivity-muted-symbolic"
    } else {
        "audio-input-microphone-symbolic"
    }
}

/// The messages of the sound page. Values of outside types (messages of
/// the sound service, surface actions, file paths) stay with the caller; a
/// chosen file is recorded by whether one was chosen.
#[derive(Debug, Clone, Copy, PartialEq, Eq, Structural)]
pub enum Message {
    Reload,
    SetDefaultSink(usize),
    SetDefaultSource(usize),
    SetProfile(u32, u32),
    SetSinkBalance(u32),
    SetSinkVolume(u32),
    SetSourceVolume(u32),
    Subscription,
    Surface,
    ToggleSinkMute,
    ToggleSourceMute,
    /// Toggle amplification for the output (sink).
    ToggleOverAmplificationSink(bool),
    /// Toggle amplification for the output (sink).
    ToggleOverAmplificationSource(bool),
    TargetSoundSelected(usize),
    CustomSoundUploadPressed,
    CustomSoundFileSelected(bool),
    CustomSoundUploadFinished,
}

/// What the caller carries out after the page has handled a message.
#[derive(Debug, Clone, Copy, PartialEq, Eq, Structural)]
pub enum SoundEffect {
    /// Nothing.
    Nothing,
    /// Hand the message's surface action to the application.
    ForwardSurface,
    /// Hand the message to the sound service model.
    UpdateModel,
    SetSinkBalance(u32),
    SetDefaultSink(usize),
    SetDefaultSource(usize),
    ToggleSinkMute,
    ToggleSourceMute,
    SetSinkVolume(u32),
    SetSourceVolume(u32),
    /// Save the over-amplification setting of the output.
    SaveAmplificationSink(bool),
    /// Select profile `.1` for the device with object id `.0`.
    SetProfile(u32, u32),
    /// Start over with a fresh sound service model that keeps its texts.
    ResetModel,
    /// Ask the user for an audio file.
    PickCustomSound,
    /// Convert the chosen file into the sound-theme file of this sound.
    InstallCustomSound(SystemSound),
}

/// The state of the sound page: whether its configuration could be opened,
/// the over-amplification settings, and the sound picked for replacement.
#[derive(Debug, Clone, Copy, PartialEq, Eq, Structural)]
pub struct Page {
    pub has_sound_config: bool,
    pub amplification_sink: bool,
    pub amplification_source: bool,
    pub selected_target_sound_idx: usize,
}

/// The page before it is entered.
pub open spec fn initial_page() -> Page {
    Page {
        has_sound_config: false,
        amplification_sink: false,
        amplification_source: false,
        selected_target_sound_idx: 0,
    }
}

impl Default for Page {
    fn default() -> (page: Self)
        ensures
            page == initial_page(),
    {
        Page {
            has_sound_config: false,
            amplification_sink: false,
            amplification_source: false,
            selected_target_sound_idx: 0,
        }
    }
}

/// The page after it is entered. `loaded` holds, when the configuration
/// could be opened, the two stored over-amplification settings, each absent
/// when it could not be read. Output over-amplification is on unless stored
/// as off; input over-amplification is off unless stored as on.
pub open spec fn entered(p: Page, loaded: Option<(Option<bool>, Option<bool>)>) -> Page {
    match loaded {
        Some((sink, source)) => Page {
            has_sound_config: true,
            amplification_sink: match sink {
                Some(b) => b,
                None => true,
            },
            amplification_source: match source {
                Some(b) => b,
                None => false,
            },
            ..p
        },
        None => Page { amplification_sink: true, amplification_source: false, ..p },
    }
}

/// The messages that the page takes: a chosen file needs a picked sound
/// that exists.
pub open spec fn accepts(p: Page, m: Message) -> bool {
    m == Message::CustomSoundFileSelected(true) ==> p.selected_target_sound_idx < all_sounds().len()
}

/// What a message does to the page, and what the caller has to carry out.
pub open spec fn step(p: Page, m: Message) -> (Page, SoundEffect) {
    match m {
        Message::Surface => (p, SoundEffect::ForwardSurface),
        Message::Subscription => (p, SoundEffect::UpdateModel),
        Message::SetSinkBalance(b) => (p, SoundEffect::SetSinkBalance(b)),
        Message::SetDefaultSink(i) => (p, SoundEffect::SetDefaultSink(i)),
        Message::SetDefaultSource(i) => (p, SoundEffect::SetDefaultSource(i)),
        Message::ToggleSinkMute => (p, SoundEffect::ToggleSinkMute),
        Message::ToggleSourceMute => (p, SoundEffect::ToggleSourceMute),
        Message::SetSinkVolume(v) => (p, SoundEffect::SetSinkVolume(v)),
        Message::SetSourceVolume(v) => (p, SoundEffect::SetSourceVolume(v)),
        Message::ToggleOverAmplificationSink(enabled) => (
            Page { amplification_sink: enabled, ..p },
            if p.has_sound_config {
                SoundEffect::SaveAmplificationSink(enabled)
            } else {
                SoundEffect::Nothing
            },
        ),
        Message::ToggleOverAmplificationSource(enabled) => (
            Page { amplification_sink: enabled, ..p },
            if p.has_sound_config {
                SoundEffect::SaveAmplificationSink(enabled)
            } else {
                SoundEffect::Nothing
            },
        ),
        Message::SetProfile(object_id, index) => (p, SoundEffect::SetProfile(object_id, index)),
        Message::Reload => (p, SoundEffect::ResetModel),
        Message::TargetSoundSelected(idx) => (
            Page { selected_target_sound_idx: idx, ..p },
            SoundEffect::Nothing,
        ),
        Message::CustomSoundUploadPressed => (p, SoundEffect::PickCustomSound),
        Message::CustomSoundFileSelected(chosen) => if chosen {
            (p, SoundEffect::InstallCustomSound(all_sounds()[p.selected_target_sound_idx as int]))
        } else {
            (p, SoundEffect::Nothing)
        },
        Message::CustomSoundUploadFinished => (p, SoundEffect::Nothing),
    }
}

impl Page {
    /// Reads the over-amplification settings when the page is entered.
    pub fn on_enter(&mut self, loaded: Option<(Option<bool>, Option<bool>)>)
        ensures
            *final(self) == entered(*old(self), loaded),
    {
        match loaded {
            Some((sink, source)) => {
                self.amplification_sink = match sink {
                    Some(b) => b,
                    None => true,
                };
                self.amplification_source = match source {
                    Some(b) => b,
                    None => false,
                };
                self.has_sound_config = true;
            },
            None => {
                self.amplification_sink = true;
                self.amplification_source = false;
            },
        }
    }

    /// Forgets the page's state when the page is left.
    pub fn on_leave(&mut self)
        ensures
            *final(self) == initial_page(),
    {
        *self = Page::default();
    }

    /// Handles a message of the sound page.
    pub fn update(&mut self, message: Message) -> (effect: SoundEffect)
        requires
            accepts(*old(self), message),
        ensures
            *final(self) == step(*old(self), message).0,
            effect == step(*old(self), message).1,
    {
        match message {
            Message::Surface => SoundEffect::ForwardSurface,
            Message::Subscription => SoundEffect::UpdateModel,
            Message::SetSinkBalance(balance) => SoundEffect::SetSinkBalance(balance),
            Message::SetDefaultSink(pos) => SoundEffect::SetDefaultSink(pos),
            Message::SetDefaultSource(pos) => SoundEffect::SetDefaultSource(pos),
            Message::ToggleSinkMute => SoundEffect::ToggleSinkMute,
            Message::ToggleSourceMute => SoundEffect::ToggleSourceMute,
            Message::SetSinkVolume(volume) => SoundEffect::SetSinkVolume(volume),
            Message::SetSourceVolume(volume) => SoundEffect::SetSourceVolume(volume),
            Message::ToggleOverAmplificationSink(enabled) => {
                self.amplification_sink = enabled;
                if self.has_sound_config {
                    SoundEffect::SaveAmplificationSink(enabled)
                } else {
                    SoundEffect::Nothing
                }
            },
            Message::ToggleOverAmplificationSource(enabled) => {
                self.amplification_sink = enabled;
                if self.has_sound_config {
                    SoundEffect::SaveAmplificationSink(enabled)
                } else {
                    SoundEffect::Nothing
                }
            },
            Message::SetProfile(object_id, index) => SoundEffect::SetProfile(object_id, index),
            Message::Reload => SoundEffect::ResetModel,
            Message::TargetSoundSelected(idx) => {
                self.selected_target_sound_idx = idx;
                SoundEffect::Nothing
            },
            Message::CustomSoundUploadPressed => SoundEffect::PickCustomSound,
            Message::CustomSoundFileSelected(chosen) => {
                if chosen {
                    let target_sound = SystemSound::all()[self.selected_target_sound_idx];
                    SoundEffect::InstallCustomSound(target_sound)
                } else {
                    SoundEffect::Nothing
                }
            },
            Message::CustomSoundUploadFinished => SoundEffect::Nothing,
        }
    }
}

} // verus!
