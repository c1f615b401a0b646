use glue::audio::{AudioSettings, SpeakerState};
use glue::battery::BatteryStatus;
use glue::coffee::{coffeinate, DaemonState, IdleState};
use glue::configuration::Configuration;
use glue::error::{BatteryError, ParseError};
use glue::metadata::{Metadata, MetadataEntry, MetadataError, MetadataType};
use glue::start::CommandBuilder;
use glue::traits::ToggleKey;
use glue::wayland::{RegistryEvent, WaylandIdle};

#[test]
fn command_line_converts_from_text() {
    let builder = CommandBuilder::try_from("echo Hello").unwrap();
    assert_eq!(builder.name(), "echo");
    assert_eq!(builder.arguments(), vec!["Hello"]);
    let builder: Result<CommandBuilder, ParseError> = "".try_into();
    assert_eq!(builder.unwrap_err(), ParseError::Command(String::new()));
}

#[test]
fn battery_status_converts_from_text() {
    assert_eq!(BatteryStatus::try_from("Not charging"), Ok(BatteryStatus::NotCharging));
    assert_eq!(
        BatteryStatus::try_from("NotCharging"),
        Err(BatteryError::UnknownState("NotCharging".to_string()))
    );
}

#[test]
fn facts_and_tracks_convert() {
    assert_eq!(MetadataType::try_from(("url", "u")), Ok(MetadataType::Url("u".to_string())));
    assert_eq!(
        MetadataType::try_from(("genre", "u")),
        Err(MetadataError::UnknownMetadataType("genre".to_string()))
    );
    let entries = vec![MetadataEntry {
        source: "vlc".to_string(),
        value: MetadataType::Album("a".to_string()),
    }];
    let track = Metadata::try_from(entries.as_slice()).unwrap();
    assert_eq!(track.player, "vlc");
    assert_eq!(track.album, Some("a".to_string()));
    let none: &[MetadataEntry] = &[];
    assert_eq!(Metadata::try_from(none), Err(MetadataError::NoPlayer));
}

#[test]
fn mute_key_toggles_the_speakers() {
    let mut audio = AudioSettings::from_volume(60, SpeakerState::Active);
    assert!(audio.toggle().is_ok());
    assert_eq!(audio.mute, SpeakerState::Mute);
    assert_eq!(audio.icon, '\u{eee8}');
    assert!(audio.toggle().is_ok());
    assert_eq!(audio.mute, SpeakerState::Active);
    assert_eq!(audio.icon, '\u{f028}');
}

#[test]
fn idle_state_converts_from_what_reports_it() {
    assert_eq!(IdleState::from(&WaylandIdle { inhibited: true }), IdleState { inhibited: true });
    let mut state = DaemonState::new(&Configuration::default());
    assert_eq!(IdleState::from(&state), IdleState { inhibited: false });
    state.registry_event(&RegistryEvent::Global {
        name: 1,
        interface: "wl_compositor".to_string(),
        version: 4,
    });
    state.registry_event(&RegistryEvent::Global {
        name: 2,
        interface: "zwp_idle_inhibit_manager_v1".to_string(),
        version: 1,
    });
    coffeinate(&mut state, |_| Ok(())).unwrap();
    assert_eq!(IdleState::from(&state), IdleState { inhibited: true });
}
