//! What the daemon knows of the display server's idle inhibitor, and what it
//! decides from that.
//!
//! [`WaylandClient`] holds no connection. It keeps the facts that the registry
//! announced and decides which request goes out on the wire; the caller sends
//! the request and reports how the round trip went.

use crate::text::same_text;
use vstd::prelude::*;
use vstd::string::StringExecFns;

verus! {

/// Whether the system is kept from idling.
#[derive(Debug, Clone, Copy, PartialEq, Eq, Structural)]
pub struct WaylandIdle {
    pub inhibited: bool,
}

/// Why the display server could not be used.
#[derive(Debug, PartialEq, Eq)]
pub enum WaylandClientError {
    /// No connection to the display server.
    ConnectionError(String),
    /// A round trip to the display server failed.
    RoundTripError(String),
}

impl WaylandClientError {
    /// What the error says.
    pub open spec fn text(self) -> Seq<char> {
        match self {
            WaylandClientError::ConnectionError(cause) =>
                "Unable to establish a Connection to the Wayland Server: "@ + cause@,
            WaylandClientError::RoundTripError(cause) => "Roundtrip faild: "@ + cause@,
        }
    }

    /// What the error says.
    pub fn message(&self) -> (message: String)
        ensures
            message@ == self.text(),
    {
        match self {
            WaylandClientError::ConnectionError(cause) => {
                let mut message = "Unable to establish a Connection to the Wayland Server: "
                    .to_string();
                message.append(cause.as_str());
                message
            },
            WaylandClientError::RoundTripError(cause) => {
                let mut message = "Roundtrip faild: ".to_string();
                message.append(cause.as_str());
                message
            },
        }
    }
}

/// What the registry of the display server announces.
#[derive(Debug, PartialEq, Eq)]
pub enum RegistryEvent {
    /// A global object appeared.
    Global { name: u32, interface: String, version: u32 },
    /// A global object went away.
    GlobalRemove { name: u32 },
    /// Any other event.
    Other,
}

/// What the caller binds after a registry event.
#[derive(Debug, Clone, Copy, PartialEq, Eq, Structural)]
pub enum Binding {
    /// Bind the compositor and create a surface on it.
    Compositor { name: u32, version: u32 },
    /// Bind the idle inhibit manager.
    IdleManager { name: u32, version: u32 },
    /// Bind nothing.
    Nothing,
}

/// A request that changes the idle inhibitor on the display server.
#[derive(Debug, Clone, Copy, PartialEq, Eq, Structural)]
pub enum Request {
    /// Create an inhibitor on the surface, then make a round trip.
    CreateInhibitor,
    /// Destroy the inhibitor, then make a round trip.
    DestroyInhibitor,
}

/// The daemon's side of the idle inhibit protocol.
pub struct WaylandClient {
    /// The global name of the bound compositor.
    compositor: Option<u32>,
    /// Whether a surface exists.
    surface: bool,
    /// The global name of the bound idle inhibit manager.
    idle_manager: Option<u32>,
    /// Whether an inhibitor exists.
    idle_inhibitor: bool,
}

/// A [`WaylandClient`] as contracts see it.
pub ghost struct WaylandClientView {
    pub compositor: Option<u32>,
    pub surface: bool,
    pub idle_manager: Option<u32>,
    pub idle_inhibitor: bool,
}

/// A [`RegistryEvent`] as contracts see it.
pub ghost enum RegistryEventView {
    Global { name: u32, interface: Seq<char>, version: u32 },
    GlobalRemove { name: u32 },
    Other,
}

impl View for RegistryEvent {
    type V = RegistryEventView;

    open spec fn view(&self) -> RegistryEventView {
        match self {
            RegistryEvent::Global { name, interface, version } => RegistryEventView::Global {
                name: *name,
                interface: interface@,
                version: *version,
            },
            RegistryEvent::GlobalRemove { name } => RegistryEventView::GlobalRemove { name: *name },
            RegistryEvent::Other => RegistryEventView::Other,
        }
    }
}

/// The interface name under which the display server announces its
/// compositor.
pub open spec fn compositor_interface() -> Seq<char> {
    "wl_compositor"@
}

/// The interface name under which the display server announces its idle
/// inhibit manager.
pub open spec fn idle_inhibit_interface() -> Seq<char> {
    "zwp_idle_inhibit_manager_v1"@
}

impl WaylandClientView {
    /// What the client binds when `event` arrives.
    pub open spec fn binding(self, event: RegistryEventView) -> Binding {
        match event {
            RegistryEventView::Global { name, interface, version } => {
                if interface == compositor_interface() && self.compositor is None {
                    Binding::Compositor { name, version }
                } else if interface == idle_inhibit_interface() && self.idle_manager is None {
                    Binding::IdleManager { name, version }
                } else {
                    Binding::Nothing
                }
            },
            _ => Binding::Nothing,
        }
    }

    /// The state after `event`: an announced global that is bound is noted
    /// under its name, and a removed global is forgotten, the surface with
    /// the compositor.
    pub open spec fn event(self, event: RegistryEventView) -> Self {
        match event {
            RegistryEventView::Global { name, interface, version } => {
                match self.binding(event) {
                    Binding::Compositor { .. } => WaylandClientView {
                        compositor: Some(name),
                        surface: true,
                        ..self
                    },
                    Binding::IdleManager { .. } => WaylandClientView {
                        idle_manager: Some(name),
                        ..self
                    },
                    Binding::Nothing => self,
                }
            },
            RegistryEventView::GlobalRemove { name } => WaylandClientView {
                compositor: if self.compositor == Some(name) {
                    None
                } else {
                    self.compositor
                },
                surface: if self.compositor == Some(name) {
                    false
                } else {
                    self.surface
                },
                idle_manager: if self.idle_manager == Some(name) {
                    None
                } else {
                    self.idle_manager
                },
                idle_inhibitor: self.idle_inhibitor,
            },
            RegistryEventView::Other => self,
        }
    }

    /// A surface exists exactly while a compositor is bound.
    pub open spec fn wf(self) -> bool {
        self.surface == (self.compositor is Some)
    }

    /// Whether an inhibitor can be created: the manager is bound and a surface
    /// exists.
    pub open spec fn ready(self) -> bool {
        self.idle_manager is Some && self.surface
    }

    /// Whether `inhibit` sends a request: none exists yet, and one can be
    /// created.
    pub open spec fn inhibit_sends(self) -> bool {
        self.ready() && !self.idle_inhibitor
    }

    /// The state after an `inhibit` that went through.
    pub open spec fn inhibit(self) -> Self {
        if self.inhibit_sends() {
            WaylandClientView { idle_inhibitor: true, ..self }
        } else {
            self
        }
    }

    /// The request that `toggle` sends, if it sends one: it releases where an
    /// inhibitor exists and inhibits where none does.
    pub open spec fn toggle_request(self) -> Option<Request> {
        if self.idle_inhibitor {
            Some(Request::DestroyInhibitor)
        } else if self.inhibit_sends() {
            Some(Request::CreateInhibitor)
        } else {
            None
        }
    }

    /// The state after a `toggle` that went through.
    pub open spec fn toggle(self) -> Self {
        if self.idle_inhibitor {
            self.release()
        } else {
            self.inhibit()
        }
    }

    /// The state after `count` toggles that went through.
    pub open spec fn toggle_times(self, count: nat) -> Self
        decreases count,
    {
        if count == 0 {
            self
        } else {
            self.toggle().toggle_times((count - 1) as nat)
        }
    }

    /// The requests that `count` toggles send, in order.
    pub open spec fn toggle_requests(self, count: nat) -> Seq<Request>
        decreases count,
    {
        if count == 0 {
            Seq::empty()
        } else {
            (match self.toggle_request() {
                Some(request) => seq![request],
                None => Seq::empty(),
            }) + self.toggle().toggle_requests((count - 1) as nat)
        }
    }

    /// Whether `release` sends a request.
    pub open spec fn release_sends(self) -> bool {
        self.idle_inhibitor
    }

    /// The state after a `release` that went through.
    pub open spec fn release(self) -> Self {
        WaylandClientView { idle_inhibitor: false, ..self }
    }
}

/// How often `request` occurs in `requests`.
pub open spec fn count_requests(requests: Seq<Request>, request: Request) -> nat
    decreases requests.len(),
{
    if requests.len() == 0 {
        0
    } else {
        (if requests[0] == request {
            1nat
        } else {
            0nat
        }) + count_requests(requests.drop_first(), request)
    }
}

/// Idempotent release: releasing where nothing is inhibited sends nothing and
/// leaves the state as it is, not inhibited.
pub proof fn lemma_release_is_idempotent(client: WaylandClientView)
    ensures
        !client.release().idle_inhibitor,
        !client.release().release_sends(),
        client.release().release() == client.release(),
        !client.idle_inhibitor ==> client.release() == client,
{
}

/// Inhibiting where an inhibitor exists sends nothing and changes nothing:
/// no second inhibitor is created.
pub proof fn lemma_inhibit_is_idempotent(client: WaylandClientView)
    ensures
        !client.inhibit().inhibit_sends(),
        client.inhibit().inhibit() == client.inhibit(),
        client.ready() ==> client.inhibit().idle_inhibitor,
{
}

/// Toggle symmetry: where an inhibitor can be created, a toggle that goes
/// through turns the state into the other one, and a second one restores it.
pub proof fn lemma_toggle_symmetry(client: WaylandClientView)
    requires
        client.ready(),
    ensures
        client.toggle().idle_inhibitor == !client.idle_inhibitor,
        client.toggle().ready(),
        client.toggle().toggle() == client,
{
}

/// Toggles one after the other, in whatever order concurrent requests were
/// served, each of which goes through: from a state that is not inhibited
/// and in which an inhibitor can be created, `count` toggles leave the system
/// inhibited exactly when `count` is odd; every second request creates an
/// inhibitor and every other destroys one, so that the two balance up to the
/// last one.
pub proof fn lemma_toggles_are_serial(client: WaylandClientView, count: nat)
    requires
        client.ready(),
        !client.idle_inhibitor,
    ensures
        client.toggle_times(count).idle_inhibitor == (count % 2 == 1),
        client.toggle_requests(count).len() == count,
        count_requests(client.toggle_requests(count), Request::CreateInhibitor) == (count + 1) / 2,
        count_requests(client.toggle_requests(count), Request::DestroyInhibitor) == count / 2,
    decreases count,
{
    if count == 0 {
    } else if count == 1 {
        let after = client.toggle();
        assert(after.toggle_times(0) == after);
        assert(after.toggle_requests(0) =~= Seq::<Request>::empty());
        let requests = client.toggle_requests(1);
        assert(requests =~= seq![Request::CreateInhibitor]);
        assert(requests.drop_first() =~= Seq::<Request>::empty());
        assert(count_requests(requests.drop_first(), Request::CreateInhibitor) == 0);
        assert(count_requests(requests.drop_first(), Request::DestroyInhibitor) == 0);
    } else {
        let first = client.toggle();
        let second = first.toggle();
        assert(second == client);
        lemma_toggles_are_serial(client, (count - 2) as nat);
        let tail = client.toggle_requests((count - 2) as nat);
        let requests = client.toggle_requests(count);
        assert(first.toggle_requests((count - 1) as nat) =~= seq![Request::DestroyInhibitor]
            + tail);
        assert(requests =~= seq![Request::CreateInhibitor] + (seq![Request::DestroyInhibitor]
            + tail));
        assert(requests.drop_first() =~= seq![Request::DestroyInhibitor] + tail);
        assert(requests.drop_first().drop_first() =~= tail);
        assert(requests[0] == Request::CreateInhibitor);
        assert(requests.drop_first()[0] == Request::DestroyInhibitor);
        assert(count_requests(requests, Request::CreateInhibitor) == 1 + count_requests(
            requests.drop_first(),
            Request::CreateInhibitor,
        ));
        assert(count_requests(requests.drop_first(), Request::CreateInhibitor) == count_requests(
            tail,
            Request::CreateInhibitor,
        ));
        assert(count_requests(requests, Request::DestroyInhibitor) == count_requests(
            requests.drop_first(),
            Request::DestroyInhibitor,
        ));
        assert(count_requests(requests.drop_first(), Request::DestroyInhibitor) == 1
            + count_requests(tail, Request::DestroyInhibitor));
        assert(client.toggle_times(count) == first.toggle_times((count - 1) as nat));
        assert(first.toggle_times((count - 1) as nat) == second.toggle_times((count - 2) as nat));
    }
}

impl View for WaylandClient {
    type V = WaylandClientView;

    closed spec fn view(&self) -> WaylandClientView {
        WaylandClientView {
            compositor: self.compositor,
            surface: self.surface,
            idle_manager: self.idle_manager,
            idle_inhibitor: self.idle_inhibitor,
        }
    }
}

impl WaylandClient {
    /// A client to which the registry has announced nothing yet.
    pub fn new() -> (client: Self)
        ensures
            client@ == (WaylandClientView {
                compositor: None,
                surface: false,
                idle_manager: None,
                idle_inhibitor: false,
            }),
            client@.wf(),
    {
        WaylandClient { compositor: None, surface: false, idle_manager: None, idle_inhibitor: false }
    }

    /// Takes note of a registry event and says what is to be bound.
    pub fn event(&mut self, event: &RegistryEvent) -> (binding: Binding)
        ensures
            binding == old(self)@.binding(event@),
            final(self)@ == old(self)@.event(event@),
            old(self)@.wf() ==> final(self)@.wf(),
    {
        match event {
            RegistryEvent::Global { name, interface, version } => {
                if same_text(interface.as_str(), "wl_compositor") && self.compositor.is_none() {
                    self.compositor = Some(*name);
                    self.surface = true;
                    Binding::Compositor { name: *name, version: *version }
                } else if same_text(interface.as_str(), "zwp_idle_inhibit_manager_v1")
                    && self.idle_manager.is_none() {
                    self.idle_manager = Some(*name);
                    Binding::IdleManager { name: *name, version: *version }
                } else {
                    Binding::Nothing
                }
            },
            RegistryEvent::GlobalRemove { name } => {
                if let Some(compositor) = self.compositor {
                    if compositor == *name {
                        self.compositor = None;
                        self.surface = false;
                    }
                }
                if let Some(idle_manager) = self.idle_manager {
                    if idle_manager == *name {
                        self.idle_manager = None;
                    }
                }
                Binding::Nothing
            },
            RegistryEvent::Other => Binding::Nothing,
        }
    }

    /// Keeps the system from idling. Where the manager or the surface is
    /// missing, or an inhibitor exists already, nothing is sent and the call
    /// succeeds. Otherwise `wire` is called once with
    /// [`Request::CreateInhibitor`], and its result is the result: only when
    /// it succeeds is the inhibitor noted as created. A request that fails
    /// leaves the state as it was.
    ///
    /// `wire` needs to accept the request only where one is sent.
    pub fn inhibit<F>(&mut self, wire: F) -> (result: Result<(), WaylandClientError>)
        where F: FnOnce(Request) -> Result<(), WaylandClientError>
        requires
            old(self)@.inhibit_sends() ==> wire.requires((Request::CreateInhibitor,)),
        ensures
            final(self)@ == (if result is Ok {
                old(self)@.inhibit()
            } else {
                old(self)@
            }),
            old(self)@.wf() ==> final(self)@.wf(),
            !old(self)@.inhibit_sends() ==> result is Ok,
            old(self)@.inhibit_sends() ==> wire.ensures((Request::CreateInhibitor,), result),
    {
        if self.idle_manager.is_none() {
            return Ok(());
        }
        if !self.idle_inhibitor {
            if !self.surface {
                return Ok(());
            }
            let result = wire(Request::CreateInhibitor);
            if result.is_ok() {
                self.idle_inhibitor = true;
            }
            return result;
        }
        Ok(())
    }

    /// Lets the system idle again. Where no inhibitor exists, nothing is sent
    /// and the call succeeds. Otherwise `wire` is called once with
    /// [`Request::DestroyInhibitor`], and its result is the result: only when
    /// it succeeds is the inhibitor noted as gone. A request that fails leaves
    /// the state as it was.
    ///
    /// `wire` needs to accept the request only where one is sent.
    pub fn release<F>(&mut self, wire: F) -> (result: Result<(), WaylandClientError>)
        where F: FnOnce(Request) -> Result<(), WaylandClientError>
        requires
            old(self)@.release_sends() ==> wire.requires((Request::DestroyInhibitor,)),
        ensures
            final(self)@ == (if result is Ok {
                old(self)@.release()
            } else {
                old(self)@
            }),
            old(self)@.wf() ==> final(self)@.wf(),
            !old(self)@.release_sends() ==> result is Ok,
            old(self)@.release_sends() ==> wire.ensures((Request::DestroyInhibitor,), result),
    {
        if self.idle_inhibitor {
            let result = wire(Request::DestroyInhibitor);
            if result.is_ok() {
                self.idle_inhibitor = false;
            }
            return result;
        }
        Ok(())
    }

    /// Switches to the other state: releases where an inhibitor exists,
    /// inhibits where none does. `wire` is called at most once, with the
    /// request that is sent, and its result is then the result. A request
    /// that fails leaves the state as it was.
    ///
    /// `wire` needs to accept only the request that is sent.
    pub fn toggle<F>(&mut self, wire: F) -> (result: Result<(), WaylandClientError>)
        where F: FnOnce(Request) -> Result<(), WaylandClientError>
        requires
            old(self)@.toggle_request() matches Some(request) ==> wire.requires((request,)),
        ensures
            final(self)@ == (if result is Ok {
                old(self)@.toggle()
            } else {
                old(self)@
            }),
            old(self)@.wf() ==> final(self)@.wf(),
            match old(self)@.toggle_request() {
                Some(request) => wire.ensures((request,), result),
                None => result is Ok,
            },
    {
        if self.idle_inhibitor {
            self.release(wire)
        } else {
            self.inhibit(wire)
        }
    }

    /// Reports whether an inhibitor exists.
    pub fn get(&self) -> (state: Result<WaylandIdle, WaylandClientError>)
        ensures
            state == Ok::<WaylandIdle, WaylandClientError>(
                WaylandIdle { inhibited: self@.idle_inhibitor },
            ),
    {
        Ok(WaylandIdle { inhibited: self.idle_inhibitor })
    }
}

} // verus!
