use glue::wayland::{Binding, RegistryEvent, Request, WaylandClient, WaylandClientError, WaylandIdle};
use std::cell::RefCell;

fn global(name: u32, interface: &str, version: u32) -> RegistryEvent {
    RegistryEvent::Global { name, interface: interface.to_string(), version }
}

fn ready() -> WaylandClient {
    let mut client = WaylandClient::new();
    client.event(&global(1, "wl_compositor", 4));
    client.event(&global(2, "zwp_idle_inhibit_manager_v1", 1));
    client
}

#[test]
fn registry_binds_each_global_once() {
    let mut client = WaylandClient::new();
    assert_eq!(client.event(&global(7, "wl_shm", 1)), Binding::Nothing);
    assert_eq!(
        client.event(&global(1, "wl_compositor", 4)),
        Binding::Compositor { name: 1, version: 4 }
    );
    assert_eq!(client.event(&global(3, "wl_compositor", 5)), Binding::Nothing);
    assert_eq!(
        client.event(&global(2, "zwp_idle_inhibit_manager_v1", 1)),
        Binding::IdleManager { name: 2, version: 1 }
    );
    assert_eq!(client.event(&global(4, "zwp_idle_inhibit_manager_v1", 1)), Binding::Nothing);
    assert_eq!(client.event(&RegistryEvent::Other), Binding::Nothing);
}

#[test]
fn inhibit_needs_manager_and_surface() {
    let calls = RefCell::new(0);
    let mut client = WaylandClient::new();
    assert_eq!(client.inhibit(|_| { *calls.borrow_mut() += 1; Ok(()) }), Ok(()));
    assert_eq!(client.get(), Ok(WaylandIdle { inhibited: false }));
    client.event(&global(2, "zwp_idle_inhibit_manager_v1", 1));
    assert_eq!(client.inhibit(|_| { *calls.borrow_mut() += 1; Ok(()) }), Ok(()));
    assert_eq!(client.get(), Ok(WaylandIdle { inhibited: false }));
    client.event(&global(1, "wl_compositor", 4));
    assert_eq!(client.inhibit(|_| { *calls.borrow_mut() += 1; Ok(()) }), Ok(()));
    assert_eq!(client.get(), Ok(WaylandIdle { inhibited: true }));
    assert_eq!(*calls.borrow(), 1);
}

#[test]
fn inhibit_and_release_send_one_request_each() {
    let calls = RefCell::new(Vec::new());
    let mut client = ready();
    for _ in 0..2 {
        let result = client.inhibit(|request| {
            calls.borrow_mut().push(request);
            Ok(())
        });
        assert_eq!(result, Ok(()));
    }
    for _ in 0..2 {
        let result = client.release(|request| {
            calls.borrow_mut().push(request);
            Ok(())
        });
        assert_eq!(result, Ok(()));
    }
    assert_eq!(*calls.borrow(), vec![Request::CreateInhibitor, Request::DestroyInhibitor]);
    assert_eq!(client.get(), Ok(WaylandIdle { inhibited: false }));
}

#[test]
fn failed_round_trip_comes_back_and_changes_nothing() {
    let mut client = ready();
    let lost = || WaylandClientError::RoundTripError("lost".to_string());
    assert_eq!(client.inhibit(|_| Err(lost())), Err(lost()));
    assert_eq!(client.get(), Ok(WaylandIdle { inhibited: false }));
    assert_eq!(client.toggle(|_| Err(lost())), Err(lost()));
    assert_eq!(client.get(), Ok(WaylandIdle { inhibited: false }));
    assert_eq!(client.inhibit(|_| Ok(())), Ok(()));
    assert_eq!(client.get(), Ok(WaylandIdle { inhibited: true }));
    assert_eq!(client.release(|_| Err(lost())), Err(lost()));
    assert_eq!(client.get(), Ok(WaylandIdle { inhibited: true }));
    assert_eq!(client.toggle(|_| Err(lost())), Err(lost()));
    assert_eq!(client.get(), Ok(WaylandIdle { inhibited: true }));
    assert_eq!(client.release(|_| Ok(())), Ok(()));
    assert_eq!(client.get(), Ok(WaylandIdle { inhibited: false }));
}

#[test]
fn failed_request_is_sent_again_on_the_next_call() {
    let calls = RefCell::new(Vec::new());
    let mut client = ready();
    let lost = || WaylandClientError::RoundTripError("lost".to_string());
    let failed = client.inhibit(|request| {
        calls.borrow_mut().push(request);
        Err(lost())
    });
    assert_eq!(failed, Err(lost()));
    let done = client.inhibit(|request| {
        calls.borrow_mut().push(request);
        Ok(())
    });
    assert_eq!(done, Ok(()));
    assert_eq!(*calls.borrow(), vec![Request::CreateInhibitor, Request::CreateInhibitor]);
}

#[test]
fn removed_global_can_be_bound_again() {
    let mut client = ready();
    assert_eq!(client.event(&RegistryEvent::GlobalRemove { name: 9 }), Binding::Nothing);
    assert_eq!(client.event(&RegistryEvent::GlobalRemove { name: 1 }), Binding::Nothing);
    assert_eq!(client.inhibit(|_| Ok(())), Ok(()));
    assert_eq!(client.get(), Ok(WaylandIdle { inhibited: false }));
    assert_eq!(
        client.event(&global(5, "wl_compositor", 4)),
        Binding::Compositor { name: 5, version: 4 }
    );
    assert_eq!(client.event(&RegistryEvent::GlobalRemove { name: 2 }), Binding::Nothing);
    assert_eq!(
        client.event(&global(6, "zwp_idle_inhibit_manager_v1", 1)),
        Binding::IdleManager { name: 6, version: 1 }
    );
    assert_eq!(client.inhibit(|_| Ok(())), Ok(()));
    assert_eq!(client.get(), Ok(WaylandIdle { inhibited: true }));
}

#[test]
fn toggle_follows_the_state() {
    let calls = RefCell::new(Vec::new());
    let mut client = ready();
    for _ in 0..4 {
        let result = client.toggle(|request| {
            calls.borrow_mut().push(request);
            Ok(())
        });
        assert_eq!(result, Ok(()));
    }
    assert_eq!(
        *calls.borrow(),
        vec![
            Request::CreateInhibitor,
            Request::DestroyInhibitor,
            Request::CreateInhibitor,
            Request::DestroyInhibitor
        ]
    );
    assert_eq!(client.get(), Ok(WaylandIdle { inhibited: false }));
}
