use glue::battery::{Battery, BatteryStatus};
use glue::configuration::{Battery as BatteryConfiguration, BatteryEvent, Configuration, Events};
use glue::error::BatteryError;
use glue::monitor::{Battery as BatteryMonitor, BatteryState};

fn setup_test_environment() -> (String, String, Configuration) {
    let status_file = "Charging\n".to_string();
    let capacity_file = "75\n".to_string();
    let config = Configuration {
        battery: BatteryConfiguration {
            charging: '\u{26a1}',
            empty: '\u{1f480}',
            full: '\u{1f50b}',
            charging_states: vec!['\u{2581}', '\u{2582}', '\u{2583}', '\u{2584}', '\u{2585}'],
            path: "/sys/class/power_supply/BAT0".to_string(),
        },
        ..Default::default()
    };
    (status_file, capacity_file, config)
}

#[test]
fn test_get_battery() {
    let (status_file, capacity_file, config) = setup_test_environment();
    let result = Battery::try_new(&config, &status_file, &capacity_file);
    assert!(result.is_ok());
    let output = result.unwrap();
    assert_eq!(output.state.name(), "Charging");
    assert_eq!(output.capacity, 75);
    assert_eq!(output.icon.to_string(), "\u{26a1}");
}

#[test]
fn test_battery_notification() {
    let config = Configuration {
        event: Some(Events {
            battery: vec![BatteryEvent {
                charge: 20,
                state: BatteryStatus::Discharging,
                notify: None,
                shell: None,
                hooks: None,
            }],
        }),
        ..Default::default()
    };
    let mut battery = BatteryMonitor::new(&config);
    let (capacity, status) = BatteryMonitor::read_state("21\n", "Discharging\n").unwrap();
    let result = battery.update(capacity, status);
    assert!(result.is_some());
    assert!(result.unwrap().notices.is_empty());
    let (capacity, status) = BatteryMonitor::read_state("20", "Discharging\n").unwrap();
    let result = battery.update(capacity, status);
    assert!(result.is_some());
    assert!(result.unwrap().notices.is_empty());
}

#[test]
fn status_names_are_read_and_written() {
    let all = [
        (BatteryStatus::Charging, "Charging"),
        (BatteryStatus::Discharging, "Discharging"),
        (BatteryStatus::Empty, "Empty"),
        (BatteryStatus::Full, "Full"),
        (BatteryStatus::NotCharging, "Not charging"),
    ];
    for (status, name) in all {
        assert_eq!(status.name(), name);
        assert_eq!(BatteryStatus::parse(name), Ok(status));
    }
    assert_eq!(
        BatteryStatus::parse("charging"),
        Err(BatteryError::UnknownState("charging".to_string()))
    );
    assert_eq!(BatteryStatus::parse(""), Err(BatteryError::UnknownState(String::new())));
}

#[test]
fn files_are_read_without_the_white_space_at_their_end() {
    assert_eq!(Battery::read_state("Not charging\n"), Ok(BatteryStatus::NotCharging));
    assert_eq!(Battery::read_state("Full \n\n"), Ok(BatteryStatus::Full));
    assert_eq!(
        Battery::read_state(" Full\n"),
        Err(BatteryError::UnknownState(" Full".to_string()))
    );
    assert_eq!(Battery::read_capacity("100\n"), Ok(100));
    assert_eq!(Battery::read_capacity("0"), Ok(0));
    assert_eq!(Battery::read_capacity("+7\n"), Ok(7));
    assert_eq!(Battery::read_capacity("255"), Ok(255));
    assert!(matches!(Battery::read_capacity("256"), Err(BatteryError::ParseCapacity(_))));
    assert!(matches!(Battery::read_capacity("\n"), Err(BatteryError::ParseCapacity(_))));
    assert!(matches!(Battery::read_capacity("-1"), Err(BatteryError::ParseCapacity(_))));
    assert!(matches!(Battery::read_capacity("7 5"), Err(BatteryError::ParseCapacity(_))));
}

#[test]
fn bad_state_goes_before_bad_capacity() {
    let (_, _, config) = setup_test_environment();
    assert_eq!(
        Battery::try_new(&config, "Broken\n", "x"),
        Err(BatteryError::UnknownState("Broken".to_string()))
    );
    assert!(matches!(
        Battery::try_new(&config, "Full\n", "x"),
        Err(BatteryError::ParseCapacity(_))
    ));
    assert!(matches!(
        BatteryMonitor::read_state("x", "Broken"),
        Err(BatteryError::ParseCapacity(_))
    ));
    assert_eq!(
        BatteryMonitor::read_state("5", "Broken\n"),
        Err(BatteryError::UnknownState("Broken".to_string()))
    );
}

#[test]
fn icon_of_each_state() {
    let (_, _, config) = setup_test_environment();
    assert_eq!(Battery::icon(&BatteryStatus::Charging, 10, &config), '\u{26a1}');
    assert_eq!(Battery::icon(&BatteryStatus::Empty, 10, &config), '\u{1f480}');
    assert_eq!(Battery::icon(&BatteryStatus::Full, 10, &config), '\u{1f50b}');
    assert_eq!(Battery::icon(&BatteryStatus::NotCharging, 10, &config), '\u{1f50b}');
}

#[test]
fn icon_of_a_discharging_battery_follows_the_charge() {
    let (_, _, config) = setup_test_environment();
    let icon = |capacity: u8| Battery::icon(&BatteryStatus::Discharging, capacity, &config);
    assert_eq!(icon(0), '\u{2581}');
    assert_eq!(icon(19), '\u{2581}');
    assert_eq!(icon(20), '\u{2582}');
    assert_eq!(icon(59), '\u{2583}');
    assert_eq!(icon(99), '\u{2585}');
    assert_eq!(icon(100), '\u{2585}');
    assert_eq!(icon(255), '\u{2585}');
    let mut three = Configuration::default();
    three.battery.charging_states = vec!['a', 'b', 'c'];
    let icon = |capacity: u8| Battery::icon(&BatteryStatus::Discharging, capacity, &three);
    assert_eq!(icon(32), 'a');
    assert_eq!(icon(33), 'b');
    assert_eq!(icon(66), 'c');
    assert_eq!(icon(99), 'c');
    assert_eq!(icon(100), 'c');
}

#[test]
fn monitor_reports_changes_only() {
    let (_, _, config) = setup_test_environment();
    let mut battery = BatteryMonitor::new(&config);
    assert_eq!(battery.path(), "/sys/class/power_supply/BAT0");
    assert!(battery.update(0, BatteryStatus::Empty).is_none());
    let change = battery.update(50, BatteryStatus::Discharging).unwrap();
    assert_eq!(
        change.state,
        BatteryState { status: BatteryStatus::Discharging, capacity: 50, icon: '\u{2583}' }
    );
    assert_eq!(battery.icon(), '\u{2583}');
    assert!(battery.update(50, BatteryStatus::Discharging).is_none());
    let change = battery.update(50, BatteryStatus::Charging).unwrap();
    assert_eq!(change.state.icon, '\u{26a1}');
}

#[test]
fn monitor_shows_the_notices_that_are_due() {
    let event = |charge: u8, state: BatteryStatus, notify: Option<&str>| BatteryEvent {
        charge,
        state,
        notify: notify.map(|text| text.to_string()),
        shell: None,
        hooks: None,
    };
    let config = Configuration {
        event: Some(Events {
            battery: vec![
                event(20, BatteryStatus::Discharging, Some("Battery low")),
                event(20, BatteryStatus::Discharging, None),
                event(20, BatteryStatus::Charging, Some("Charging again")),
                event(5, BatteryStatus::Discharging, Some("Battery empty")),
                event(20, BatteryStatus::Discharging, Some("Plug in")),
            ],
        }),
        ..Default::default()
    };
    let mut battery = BatteryMonitor::new(&config);
    let change = battery.update(21, BatteryStatus::Discharging).unwrap();
    assert!(change.notices.is_empty());
    let change = battery.update(20, BatteryStatus::Discharging).unwrap();
    assert_eq!(change.notices, vec!["Battery low".to_string(), "Plug in".to_string()]);
    assert_eq!(battery.event(), vec!["Battery low".to_string(), "Plug in".to_string()]);
    let change = battery.update(20, BatteryStatus::Charging).unwrap();
    assert_eq!(change.notices, vec!["Charging again".to_string()]);
}
