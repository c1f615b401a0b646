use glue::audio::{is_muted, volume_field, AudioSettings, SpeakerState};
use glue::brightness::{BrightnessCtl, Device};
use glue::cli::CoffeeCommand;
use glue::commands::{Coffee, Command, Notification};
use glue::config::Config;
use glue::configuration::{log_level, Configuration, LevelFilter};
use glue::daemon::{daemon_id, log_file};
use glue::error::{AudioError, BrightnessError, CommandError, GlueError};
use glue::eww::{eww_update, open, EwwVariable, WindowName};
use glue::coffee::CoffeeResponse;
use glue::mic::MicState;
use glue::text::{bin_name, same_text, trim_end, words};
use glue::traits::Change;
use std::cell::RefCell;

#[test]
fn defaults_of_the_configuration() {
    let config = Configuration::load();
    assert!(config.autostart.is_empty());
    assert_eq!(
        config.battery.charging_states,
        vec!['\u{f244}', '\u{f243}', '\u{f242}', '\u{f241}', '\u{f240}']
    );
    assert_eq!(config.battery.full, '\u{f1425}');
    assert_eq!(config.battery.charging, '\u{f0084}');
    assert_eq!(config.battery.empty, '\u{f244}');
    assert_eq!(config.coffee.coffee, '\u{ec15}');
    assert_eq!(config.coffee.relax, '\u{f04b2}');
    assert_eq!(config.coffee.notification, None);
    assert_eq!(config.general.log_level, LevelFilter::Info);
    assert_eq!(config.general.eww_config, None);
    assert_eq!(config.hyprland.default_spaces, 5);
    assert!(config.event.is_none());
    let icons = Config::load();
    assert_eq!(icons.battery.charging_states, config.battery.charging_states);
    assert_eq!(icons.battery.full, '\u{f1425}');
    assert_eq!(icons.battery.charging, '\u{f0084}');
    assert_eq!(icons.battery.empty, '\u{f244}');
}

#[test]
fn debug_flags_choose_the_log_level() {
    assert_eq!(log_level(0), LevelFilter::Off);
    assert_eq!(log_level(1), LevelFilter::Error);
    assert_eq!(log_level(2), LevelFilter::Info);
    assert_eq!(log_level(3), LevelFilter::Debug);
    assert_eq!(log_level(4), LevelFilter::Trace);
    assert_eq!(log_level(255), LevelFilter::Trace);
}

#[test]
fn cli_commands_become_requests() {
    assert_eq!(Coffee::from(CoffeeCommand::Drink), Coffee::Drink);
    assert_eq!(Coffee::from(CoffeeCommand::Relax), Coffee::Relax);
    assert_eq!(Coffee::from(CoffeeCommand::Toggle), Coffee::Toggle);
    assert_eq!(Coffee::from(CoffeeCommand::Get), Coffee::Get);
    assert_eq!(Command::from(Coffee::Get), Command::Coffee(Coffee::Get));
    assert_eq!(
        Command::from(Notification::Test("x".to_string())),
        Command::Notification(Notification::Test("x".to_string()))
    );
}

#[test]
fn speaker_icon_by_state_and_volume() {
    assert_eq!(AudioSettings::icon(50, false, SpeakerState::Mute), '\u{eee8}');
    assert_eq!(AudioSettings::icon(50, true, SpeakerState::Mute), '\u{eee8}');
    assert_eq!(AudioSettings::icon(50, true, SpeakerState::Active), '\u{f58f}');
    assert_eq!(AudioSettings::icon(0, false, SpeakerState::Active), '\u{f026}');
    assert_eq!(AudioSettings::icon(1, false, SpeakerState::Active), '\u{f027}');
    assert_eq!(AudioSettings::icon(33, false, SpeakerState::Active), '\u{f027}');
    assert_eq!(AudioSettings::icon(34, false, SpeakerState::Active), '\u{f028}');
    assert_eq!(AudioSettings::icon(100, false, SpeakerState::Active), '\u{f028}');
    assert_eq!(AudioSettings::icon(101, false, SpeakerState::Active), '\u{f06a}');
    assert!(!AudioSettings::headphones());
}

#[test]
fn speaker_state_conversions() {
    assert_eq!(SpeakerState::from(true), SpeakerState::Mute);
    assert_eq!(SpeakerState::from(false), SpeakerState::Active);
    assert_eq!(SpeakerState::Mute.text(), "1");
    assert_eq!(SpeakerState::Active.text(), "0");
    assert!(SpeakerState::Mute.muted());
    assert!(!SpeakerState::Active.muted());
    assert_eq!(SpeakerState::Mute.toggled(), SpeakerState::Active);
    assert_eq!(SpeakerState::Active.toggled(), SpeakerState::Mute);
}

#[test]
fn volume_changes_stay_within_a_hundred() {
    let mut audio = AudioSettings::from_volume(40, SpeakerState::Active);
    assert_eq!(audio, AudioSettings { volume: 40, mute: SpeakerState::Active, icon: '\u{f028}' });
    audio.change(Change::Add(5));
    assert_eq!(audio.volume, 45);
    audio.change(Change::Sub(45));
    assert_eq!(audio.volume, 0);
    audio.change(Change::Add(100));
    audio.change(Change::Add(5));
    assert_eq!(audio.volume, 100);
    audio.change(Change::Absolute(250));
    assert_eq!(audio.volume, 100);
    audio.change(Change::Absolute(7));
    assert_eq!(audio.volume, 7);
    assert_eq!(audio.icon, '\u{f028}');
}

#[test]
fn mute_toggles_and_takes_its_icon() {
    let mut audio = AudioSettings::from_volume(20, SpeakerState::Active);
    audio.toggle_mute();
    assert_eq!(audio, AudioSettings { volume: 20, mute: SpeakerState::Mute, icon: '\u{eee8}' });
    audio.toggle_mute();
    assert_eq!(audio, AudioSettings { volume: 20, mute: SpeakerState::Active, icon: '\u{f027}' });
}

#[test]
fn volume_fraction_is_what_two_decimals_of_a_float_give() {
    for volume in 0..=255u8 {
        let audio = AudioSettings::from_volume(volume, SpeakerState::Active);
        assert_eq!(audio.fraction(), format!("{:.2}", volume as f32 / 100.0));
    }
    assert_eq!(AudioSettings::from_volume(45, SpeakerState::Active).fraction(), "0.45");
    assert_eq!(AudioSettings::from_volume(100, SpeakerState::Active).fraction(), "1.00");
}

#[test]
fn reading_of_the_volume_is_handed_on() {
    assert_eq!(
        AudioSettings::try_new(Ok((12, SpeakerState::Mute))),
        Ok(AudioSettings { volume: 12, mute: SpeakerState::Mute, icon: '\u{eee8}' })
    );
    assert_eq!(
        AudioSettings::try_new(Err(AudioError::WirePlumber("no text".to_string()))),
        Err(AudioError::WirePlumber("no text".to_string()))
    );
}

#[test]
fn mixer_report_is_taken_apart() {
    assert_eq!(volume_field("Volume: 0.45\n"), Some("0.45".to_string()));
    assert_eq!(volume_field("Volume: 1.00 [MUTED]\n"), Some("1.00".to_string()));
    assert_eq!(volume_field("Volume:"), None);
    assert_eq!(volume_field(""), None);
    assert!(is_muted("Volume: 1.00 [MUTED]\n"));
    assert!(!is_muted("Volume: 1.00\n"));
    assert!(!is_muted("Volume: 1.00 [muted]\n"));
    assert!(!is_muted("MUTE"));
}

#[test]
fn mic_state_toggles() {
    assert_eq!(MicState::Muted.toggle(), MicState::Unmuted);
    assert_eq!(MicState::Unmuted.toggle(), MicState::Muted);
    assert_eq!(MicState::Muted.icon(), '\u{f131}');
    assert_eq!(MicState::Unmuted.icon(), '\u{f130}');
    assert_eq!(MicState::Muted.argument(), "1");
    assert_eq!(MicState::Unmuted.argument(), "0");
    assert_eq!(MicState::of_report(true), MicState::Muted);
    assert_eq!(MicState::of_report(false), MicState::Unmuted);
}

fn screens() -> BrightnessCtl {
    BrightnessCtl::new(vec![
        Device { name: "intel_backlight".to_string(), brightness: 40 },
        Device { name: "external".to_string(), brightness: 98 },
    ])
}

#[test]
fn brightness_changes_stay_within_a_hundred() {
    let asked = RefCell::new(Vec::new());
    let apply = |name: String, value: u32| {
        asked.borrow_mut().push((name, value));
        Ok(())
    };
    let control = screens();
    assert_eq!(control.change(Change::Add(5), &apply), Ok(()));
    assert_eq!(control.change(Change::Sub(50), &apply), Ok(()));
    assert_eq!(control.set(70, &apply), Ok(()));
    assert_eq!(control.set(170, &apply), Ok(()));
    let expected: Vec<(String, u32)> = [45, 100, 0, 48, 70, 70, 100, 100]
        .iter()
        .enumerate()
        .map(|(i, value)| {
            (if i % 2 == 0 { "intel_backlight" } else { "external" }.to_string(), *value)
        })
        .collect();
    assert_eq!(*asked.borrow(), expected);
    let shown = control.settings();
    assert_eq!(shown.devices.len(), 2);
    assert_eq!(shown.devices[0].name, "intel_backlight");
    assert_eq!(shown.devices[0].brightness, 40);
    assert_eq!(shown.devices[1].brightness, 98);
}

#[test]
fn brightness_stops_at_the_screen_that_refuses() {
    let asked = RefCell::new(Vec::new());
    let apply = |name: String, _value: u32| {
        asked.borrow_mut().push(name);
        Err("read-only".to_string())
    };
    assert_eq!(
        screens().set(10, &apply),
        Err(GlueError::Brightness(BrightnessError::Brightness("read-only".to_string())))
    );
    assert_eq!(*asked.borrow(), vec!["intel_backlight".to_string()]);
}

#[test]
fn widget_shell_arguments() {
    let coffee = EwwVariable::Coffee(CoffeeResponse { inhibited: true, icon: 'c' });
    assert_eq!(coffee.name(), "coffee");
    assert_eq!(
        eww_update(&coffee, "{\"inhibited\":true,\"icon\":\"c\"}"),
        vec!["update", "coffee={\"inhibited\":true,\"icon\":\"c\"}"]
    );
    assert_eq!(EwwVariable::Workspace("3".to_string()).name(), "workspace");
    assert_eq!(EwwVariable::Mic(MicState::Muted).name(), "mic");
    assert_eq!(
        EwwVariable::Audio(AudioSettings::from_volume(1, SpeakerState::Active)).name(),
        "audio"
    );
    assert_eq!(EwwVariable::Brightness(screens().settings()).name(), "bright");
    assert_eq!(WindowName::Bar.name(), "bar");
    assert_eq!(open(&WindowName::Bar, None), vec!["open", "--force-wayland", "--restart", "bar"]);
    assert_eq!(
        open(&WindowName::Bar, Some("cfg".to_string())),
        vec!["open", "--config=cfg", "--force-wayland", "--restart", "bar"]
    );
}

#[test]
fn daemon_names_are_twelve_letters_and_digits() {
    let first = daemon_id();
    let second = daemon_id();
    for id in [&first, &second] {
        assert_eq!(id.chars().count(), 12);
        assert!(id.chars().all(|c| c.is_ascii_alphanumeric()));
    }
    assert_ne!(first, second);
    assert_eq!(log_file("abc123DEF456"), "/tmp/glue/glue-abc123DEF456.log");
}

#[test]
fn texts_are_cut_and_trimmed() {
    assert_eq!(words("  a  bc\td\n"), vec!["a", "bc", "d"]);
    assert_eq!(words("one\u{a0}two\u{3000}three"), vec!["one", "two", "three"]);
    assert_eq!(words(" \n "), Vec::<String>::new());
    assert_eq!(words(""), Vec::<String>::new());
    for text in ["", " ", "a b \n\t", " x", "\u{2003}y\u{2003}", "gr\u{fc}n \u{85}"] {
        assert_eq!(trim_end(text), text.trim_end());
        let expected: Vec<&str> = text.split_whitespace().collect();
        assert_eq!(words(text), expected);
    }
    assert!(same_text("abc", "abc"));
    assert!(!same_text("abc", "abd"));
    assert!(!same_text("abc", "ab"));
}

#[test]
fn program_name_is_the_last_part_of_the_path() {
    assert_eq!(bin_name("/usr/bin/glue"), "glue");
    assert_eq!(bin_name("glue"), "glue");
    assert_eq!(bin_name("./target/debug/glue"), "glue");
    assert_eq!(bin_name("dir/"), "");
    assert_eq!(bin_name(""), "");
}

#[test]
fn errors_compare_by_their_parts() {
    assert_ne!(
        GlueError::Command(CommandError::Pidof),
        GlueError::Command(CommandError::AlreadyRunning)
    );
}
