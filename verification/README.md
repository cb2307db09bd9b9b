# cosmic_settings

The decisions behind two pages of the COSMIC desktop settings, verified with
Verus: the panel page (position, display, size, appearance, auto-hide,
opacity, outputs, resets) and the sound page (over-amplification, the
replaceable system sounds).

- `src/panel_config.rs`: the fields of a panel configuration and of the theme
  that the pages read, as plain values.
- `src/panel.rs`: what the panel page's controls show for a configuration,
  and `PageInner::update`, which turns a message into the page's next state
  and the list of effects (configuration writes, timers) for the caller.
- `src/panel_laws.rs`: properties that span messages (round trips of the
  drop-downs and the size slider, opacity debouncing, resets, output
  tracking).
- `src/sound.rs`, `src/sound_laws.rs`: the sound page and its properties.
- `app/`: the libcosmic views and the configuration, theme, wayland, file
  dialog and `ffmpeg` work around the verified logic.
