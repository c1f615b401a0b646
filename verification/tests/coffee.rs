use glue::coffee::{
    client, coffeinate, decoffeinate, toggle, CoffeeResponse, DaemonState, IdleState,
};
use glue::commands::{Coffee, Command, Notification};
use glue::configuration::Configuration;
use glue::daemon::{dispatch, Notice};
use glue::error::{ClientError, CoffeeError};
use glue::wayland::{Binding, RegistryEvent, Request, WaylandClientError, WaylandIdle};
use std::cell::RefCell;
use std::sync::{Arc, Mutex};
use std::time::Duration;

fn config_with_reminder(delay: Option<Duration>) -> Configuration {
    let mut config = Configuration::default();
    config.coffee.notification = delay;
    config
}

fn announce(state: &mut DaemonState) {
    let compositor = RegistryEvent::Global {
        name: 1,
        interface: "wl_compositor".to_string(),
        version: 4,
    };
    let manager = RegistryEvent::Global {
        name: 2,
        interface: "zwp_idle_inhibit_manager_v1".to_string(),
        version: 1,
    };
    assert_eq!(state.registry_event(&compositor), Binding::Compositor { name: 1, version: 4 });
    assert_eq!(state.registry_event(&manager), Binding::IdleManager { name: 2, version: 1 });
}

fn ready_state(delay: Option<Duration>) -> DaemonState {
    let mut state = DaemonState::new(&config_with_reminder(delay));
    announce(&mut state);
    state
}

fn count(calls: &RefCell<Vec<Request>>, request: Request) -> usize {
    calls.borrow().iter().filter(|seen| **seen == request).count()
}

#[test]
fn relax_when_not_inhibited_succeeds() {
    let mut state = ready_state(None);
    let calls = RefCell::new(Vec::new());
    let result = decoffeinate(&mut state, |request| {
        calls.borrow_mut().push(request);
        Ok(())
    });
    assert!(result.is_ok());
    assert!(calls.borrow().is_empty());
    assert_eq!(state.idle_state(), IdleState { inhibited: false });
    let again = decoffeinate(&mut state, |_| Err(WaylandClientError::RoundTripError("gone".into())));
    assert!(again.is_ok());
    assert_eq!(state.idle_state(), IdleState { inhibited: false });
}

#[test]
fn toggle_switches_and_switches_back() {
    let mut state = ready_state(None);
    assert!(toggle(&mut state, |_| Ok(())).is_ok());
    assert_eq!(state.idle_state(), IdleState { inhibited: true });
    assert!(toggle(&mut state, |_| Ok(())).is_ok());
    assert_eq!(state.idle_state(), IdleState { inhibited: false });
}

#[test]
fn toggle_sends_the_request_of_the_state() {
    let mut state = ready_state(None);
    let calls = RefCell::new(Vec::new());
    for _ in 0..3 {
        let result = toggle(&mut state, |request| {
            calls.borrow_mut().push(request);
            Ok(())
        });
        assert!(result.is_ok());
    }
    assert_eq!(
        *calls.borrow(),
        vec![Request::CreateInhibitor, Request::DestroyInhibitor, Request::CreateInhibitor]
    );
}

#[test]
fn toggles_in_any_number_end_by_parity() {
    for n in 0..9usize {
        let mut state = ready_state(None);
        let calls = RefCell::new(Vec::new());
        for _ in 0..n {
            let result = toggle(&mut state, |request| {
                calls.borrow_mut().push(request);
                Ok(())
            });
            assert!(result.is_ok());
        }
        assert_eq!(state.idle_state().inhibited, n % 2 == 1);
        assert_eq!(count(&calls, Request::CreateInhibitor), (n + 1) / 2);
        assert_eq!(count(&calls, Request::DestroyInhibitor), n / 2);
    }
}

#[test]
fn toggles_behind_one_lock_end_by_parity() {
    let config = Arc::new(config_with_reminder(None));
    for n in [1usize, 2, 7, 16] {
        let state = Arc::new(Mutex::new(ready_state(None)));
        let calls = Arc::new(Mutex::new(Vec::new()));
        let handlers: Vec<Box<dyn FnOnce() + Send>> = (0..n)
            .map(|_| {
                let state = state.clone();
                let calls = calls.clone();
                let config = config.clone();
                let run: Box<dyn FnOnce() + Send> = Box::new(move || {
                    let mut guard = state.lock().unwrap();
                    let reply = dispatch(Command::Coffee(Coffee::Toggle), &mut guard, &config, |r| {
                        calls.lock().unwrap().push(r);
                        Ok(())
                    });
                    assert!(reply.outcome.is_ok());
                });
                run
            })
            .collect();
        for handler in handlers.into_iter().rev() {
            handler();
        }
        let calls = calls.lock().unwrap();
        let created = calls.iter().filter(|r| **r == Request::CreateInhibitor).count();
        let destroyed = calls.iter().filter(|r| **r == Request::DestroyInhibitor).count();
        assert_eq!(state.lock().unwrap().idle_state().inhibited, n % 2 == 1);
        assert_eq!(created, (n + 1) / 2);
        assert_eq!(destroyed, n / 2);
    }
}

#[test]
fn drink_inhibits_and_arms_the_reminder() {
    let delay = Duration::from_secs(300);
    let mut state = ready_state(Some(delay));
    let change = coffeinate(&mut state, |_| Ok(())).unwrap();
    assert_eq!(change.canceled, None);
    let task = change.started.unwrap();
    assert_eq!(task.id, 0);
    assert_eq!(task.duration, delay);
    assert_eq!(state.idle_state(), IdleState { inhibited: true });
}

#[test]
fn drink_twice_arms_one_timer() {
    let mut state = ready_state(Some(Duration::from_secs(60)));
    let calls = RefCell::new(Vec::new());
    let first = coffeinate(&mut state, |request| {
        calls.borrow_mut().push(request);
        Ok(())
    })
    .unwrap();
    assert!(first.started.is_some());
    let second = coffeinate(&mut state, |request| {
        calls.borrow_mut().push(request);
        Ok(())
    })
    .unwrap();
    assert!(second.started.is_none());
    assert!(second.canceled.is_none());
    assert_eq!(*calls.borrow(), vec![Request::CreateInhibitor]);
    assert_eq!(state.timer_elapsed(0), Some(Duration::from_secs(60)));
    assert_eq!(state.timer_elapsed(0), None);
}

#[test]
fn drink_without_reminder_arms_nothing() {
    let mut state = ready_state(None);
    let change = coffeinate(&mut state, |_| Ok(())).unwrap();
    assert!(change.started.is_none());
    assert!(change.canceled.is_none());
    assert_eq!(state.timer_elapsed(0), None);
}

#[test]
fn relax_cancels_the_reminder() {
    let mut state = ready_state(Some(Duration::from_secs(60)));
    let armed = coffeinate(&mut state, |_| Ok(())).unwrap();
    let id = armed.started.unwrap().id;
    let change = decoffeinate(&mut state, |_| Ok(())).unwrap();
    assert_eq!(change.canceled, Some(id));
    assert!(change.started.is_none());
    assert_eq!(state.timer_elapsed(id), None);
    assert_eq!(state.idle_state(), IdleState { inhibited: false });
}

#[test]
fn a_new_inhibit_gets_a_new_timer() {
    let mut state = ready_state(Some(Duration::from_secs(5)));
    let first = coffeinate(&mut state, |_| Ok(())).unwrap().started.unwrap().id;
    decoffeinate(&mut state, |_| Ok(())).unwrap();
    let second = coffeinate(&mut state, |_| Ok(())).unwrap().started.unwrap().id;
    assert_ne!(first, second);
    assert_eq!(state.timer_elapsed(first), None);
    assert_eq!(state.timer_elapsed(second), Some(Duration::from_secs(5)));
}

#[test]
fn failed_round_trip_is_an_error_and_arms_nothing() {
    let mut state = ready_state(Some(Duration::from_secs(60)));
    let result = coffeinate(&mut state, |_| {
        Err(WaylandClientError::RoundTripError("connection lost".to_string()))
    });
    assert_eq!(
        result.unwrap_err(),
        CoffeeError::WaylandError(WaylandClientError::RoundTripError("connection lost".to_string()))
    );
    assert_eq!(state.idle_state(), IdleState { inhibited: false });
    assert_eq!(state.timer_elapsed(0), None);
    let change = coffeinate(&mut state, |_| Ok(())).unwrap();
    assert_eq!(change.started.unwrap().id, 0);
    assert_eq!(state.idle_state(), IdleState { inhibited: true });
}

#[test]
fn failed_release_keeps_the_timer() {
    let mut state = ready_state(Some(Duration::from_secs(60)));
    coffeinate(&mut state, |_| Ok(())).unwrap();
    let result = decoffeinate(&mut state, |_| {
        Err(WaylandClientError::RoundTripError("connection lost".to_string()))
    });
    assert!(matches!(result, Err(CoffeeError::WaylandError(_))));
    assert_eq!(state.idle_state(), IdleState { inhibited: true });
    assert_eq!(state.timer_elapsed(0), Some(Duration::from_secs(60)));
}

#[test]
fn without_idle_manager_nothing_is_inhibited() {
    let mut state = DaemonState::new(&config_with_reminder(Some(Duration::from_secs(60))));
    let calls = RefCell::new(Vec::new());
    let change = coffeinate(&mut state, |request| {
        calls.borrow_mut().push(request);
        Ok(())
    })
    .unwrap();
    assert!(calls.borrow().is_empty());
    assert!(change.started.is_none());
    assert_eq!(state.idle_state(), IdleState { inhibited: false });
    assert!(toggle(&mut state, |_| Ok(())).is_ok());
    assert_eq!(state.idle_state(), IdleState { inhibited: false });
}

#[test]
fn drink_is_answered_with_inhibited_and_get_changes_nothing() {
    let config = config_with_reminder(None);
    let mut state = ready_state(None);
    let calls = RefCell::new(Vec::new());
    let reply = dispatch(Command::Coffee(Coffee::Drink), &mut state, &config, |request| {
        calls.borrow_mut().push(request);
        Ok(())
    });
    assert_eq!(reply.status, IdleState { inhibited: true });
    assert_eq!(reply.response, CoffeeResponse { inhibited: true, icon: config.coffee.coffee });
    assert_eq!(reply.notice, None);
    assert!(reply.outcome.is_ok());
    assert_eq!(*calls.borrow(), vec![Request::CreateInhibitor]);

    let reply = dispatch(Command::Coffee(Coffee::Get), &mut state, &config, |request| {
        calls.borrow_mut().push(request);
        Ok(())
    });
    assert_eq!(reply.status, IdleState { inhibited: true });
    assert_eq!(reply.response, CoffeeResponse { inhibited: true, icon: config.coffee.coffee });
    assert_eq!(*calls.borrow(), vec![Request::CreateInhibitor]);
}

#[test]
fn relax_is_answered_with_the_relax_icon() {
    let config = config_with_reminder(None);
    let mut state = ready_state(None);
    dispatch(Command::Coffee(Coffee::Drink), &mut state, &config, |_| Ok(()));
    let reply = dispatch(Command::Coffee(Coffee::Relax), &mut state, &config, |_| Ok(()));
    assert_eq!(reply.status, IdleState { inhibited: false });
    assert_eq!(reply.response, CoffeeResponse { inhibited: false, icon: '\u{f04b2}' });
}

#[test]
fn test_notification_is_shown_and_answered_with_the_status() {
    let config = config_with_reminder(None);
    let mut state = ready_state(None);
    let command = Command::Notification(Notification::Test("ping".to_string()));
    let reply = dispatch(command, &mut state, &config, |_| {
        Err(WaylandClientError::RoundTripError("not to be called".to_string()))
    });
    assert_eq!(
        reply.notice,
        Some(Notice { summary: "Glue Test".to_string(), body: "ping".to_string() })
    );
    assert_eq!(reply.status, IdleState { inhibited: false });
    assert!(reply.outcome.is_ok());
}

#[test]
fn failed_command_is_still_answered() {
    let config = config_with_reminder(None);
    let mut state = ready_state(None);
    let reply = dispatch(Command::Coffee(Coffee::Toggle), &mut state, &config, |_| {
        Err(WaylandClientError::RoundTripError("connection lost".to_string()))
    });
    assert!(matches!(reply.outcome, Err(CoffeeError::WaylandError(_))));
    assert_eq!(reply.status, IdleState { inhibited: false });
    assert_eq!(reply.response, CoffeeResponse { inhibited: false, icon: config.coffee.relax });
    let reply = dispatch(Command::Coffee(Coffee::Drink), &mut state, &config, |_| {
        Err(WaylandClientError::RoundTripError("connection lost".to_string()))
    });
    assert!(matches!(reply.outcome, Err(CoffeeError::WaylandError(_))));
    assert_eq!(reply.status, IdleState { inhibited: false });
    dispatch(Command::Coffee(Coffee::Drink), &mut state, &config, |_| Ok(()));
    let reply = dispatch(Command::Coffee(Coffee::Relax), &mut state, &config, |_| {
        Err(WaylandClientError::RoundTripError("connection lost".to_string()))
    });
    assert!(matches!(reply.outcome, Err(CoffeeError::WaylandError(_))));
    assert_eq!(reply.status, IdleState { inhibited: true });
    assert_eq!(reply.response, CoffeeResponse { inhibited: true, icon: config.coffee.coffee });
}

#[test]
fn response_takes_the_icon_of_the_state() {
    let config = Configuration::default();
    assert_eq!(
        CoffeeResponse::new(&config, &IdleState { inhibited: true }),
        CoffeeResponse { inhibited: true, icon: '\u{ec15}' }
    );
    assert_eq!(
        CoffeeResponse::new(&config, &IdleState { inhibited: false }),
        CoffeeResponse { inhibited: false, icon: '\u{f04b2}' }
    );
    assert_eq!(IdleState::from(WaylandIdle { inhibited: true }), IdleState { inhibited: true });
}

#[test]
fn client_shows_the_default_when_the_daemon_is_down() {
    let config = Configuration::default();
    let down = CoffeeError::IPCError(ClientError::SocketNotFound("/tmp/glue.sock".to_string()));
    let (shown, result) = client(&config, Err(down));
    assert_eq!(shown, Some(CoffeeResponse { inhibited: false, icon: config.coffee.relax }));
    assert_eq!(
        result,
        Err(CoffeeError::IPCError(ClientError::SocketNotFound("/tmp/glue.sock".to_string())))
    );
}

#[test]
fn client_shows_the_answer_of_the_daemon() {
    let config = Configuration::default();
    let (shown, result) = client(&config, Ok(Some(WaylandIdle { inhibited: true })));
    assert_eq!(shown, Some(CoffeeResponse { inhibited: true, icon: config.coffee.coffee }));
    assert_eq!(result, Ok(()));
    let (shown, result) = client(&config, Ok(None));
    assert_eq!(shown, None);
    assert_eq!(result, Ok(()));
}
