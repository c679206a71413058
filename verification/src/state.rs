//! The two lifecycle state machines: the client-to-daemon connection machine
//! (with its nested synchronization sub-state) and the background-registration
//! machine. A `State` container pairs a lifecycle value with the status
//! descriptor for that value; every transition replaces both together.

use vstd::prelude::*;

use crate::descriptor::{ColorClass, StatusDescriptor, is_triple};

verus! {

/// Synchronization progress while connected to the daemon. Meaningful only
/// nested inside `AppState::Running`.
#[derive(Debug, PartialEq, Eq, Structural)]
pub enum SyncState {
    No,
    Requested,
    Yes,
}

impl SyncState {
    /// True exactly when synchronization has completed.
    pub fn is_synched(&self) -> (r: bool)
        ensures
            r == (self is Yes),
    {
        matches!(self, SyncState::Yes)
    }

    /// True exactly when a synchronization request is outstanding.
    pub fn is_requested(&self) -> (r: bool)
        ensures
            r == (self is Requested),
    {
        matches!(self, SyncState::Requested)
    }
}

impl Default for SyncState {
    fn default() -> (r: Self)
        ensures
            r is No,
    {
        SyncState::No
    }
}

/// An absolute point in time, stored verbatim when daemon boot-up is observed.
/// This core performs no arithmetic on it; external collaborators compute
/// elapsed and timeout durations from it.
#[derive(Clone, Copy, Debug, PartialEq, Eq, Structural)]
pub struct Timestamp {
    pub millis_since_epoch: u64,
}

/// An opaque identifier issued by the external pairing service, stored
/// verbatim and never interpreted by this core.
#[derive(Clone, Debug, PartialEq, Eq)]
pub struct ID {
    pub text: String,
}

impl View for ID {
    type V = Seq<char>;

    open spec fn view(&self) -> Seq<char> {
        self.text@
    }
}

impl ID {
    /// Wraps the externally issued token.
    pub fn new(text: String) -> (r: ID)
        ensures
            r@ == text@,
    {
        ID { text }
    }
}

/// The client-to-daemon connection lifecycle. Exactly one variant is active
/// at a time; `Running` exclusively owns the transport handle `T` and the
/// nested synchronization sub-state for as long as it is active.
pub enum AppState<T> {
    Init,
    DaemonBootingUp { start_time: Timestamp },
    ConnectingToDaemon,
    Running { socket: T, sync_state: SyncState },
}

/// The background pairing/registration lifecycle, independent of the
/// connection machine. `Connected` owns the externally issued identifier.
#[derive(Debug, Clone)]
pub enum BackgroundState {
    NotSent,
    Sent,
    Connected { id: ID },
}

/// A lifecycle value paired with its status descriptor. The descriptor is
/// recomputed and stored together with the lifecycle value on every
/// transition, so the two are never observed out of step.
#[derive(Debug, Clone)]
pub struct State<Inner> {
    pub str_anim: StatusDescriptor,
    pub inner: Inner,
}

impl<T> State<AppState<T>> {
    /// The stored descriptor is exactly the table row for the current
    /// connection lifecycle variant.
    pub open spec fn descriptor_in_sync(self) -> bool {
        match self.inner {
            AppState::Init => is_triple(self.str_anim, "Offline"@, ColorClass::Alert, 300),
            AppState::DaemonBootingUp { .. } => is_triple(
                self.str_anim,
                "Initializing"@,
                ColorClass::Pending,
                300,
            ),
            AppState::ConnectingToDaemon => is_triple(
                self.str_anim,
                "Connecting..."@,
                ColorClass::Pending,
                100,
            ),
            AppState::Running { .. } => is_triple(
                self.str_anim,
                "Connected"@,
                ColorClass::Success,
                200,
            ),
        }
    }

    /// Unconditionally resets to `Init`; any previously owned transport is
    /// released by the replacement.
    pub fn set_init(&mut self)
        ensures
            final(self).inner is Init,
            is_triple(final(self).str_anim, "Offline"@, ColorClass::Alert, 300),
            final(self).descriptor_in_sync(),
    {
        self.str_anim = StatusDescriptor::new(300, "Offline", ColorClass::Alert);
        self.inner = AppState::Init;
    }

    /// Records that the daemon was observed to begin booting at `start_time`.
    pub fn set_daemon_booting_up(&mut self, start_time: Timestamp)
        ensures
            final(self).inner == (AppState::<T>::DaemonBootingUp { start_time }),
            is_triple(final(self).str_anim, "Initializing"@, ColorClass::Pending, 300),
            final(self).descriptor_in_sync(),
    {
        self.str_anim = StatusDescriptor::new(300, "Initializing", ColorClass::Pending);
        self.inner = AppState::DaemonBootingUp { start_time };
    }

    /// Records that the transport handshake is in progress.
    pub fn set_connecting_to_daemon(&mut self)
        ensures
            final(self).inner is ConnectingToDaemon,
            is_triple(final(self).str_anim, "Connecting..."@, ColorClass::Pending, 100),
            final(self).descriptor_in_sync(),
    {
        self.str_anim = StatusDescriptor::new(100, "Connecting...", ColorClass::Pending);
        self.inner = AppState::ConnectingToDaemon;
    }

    /// Takes ownership of `socket` and enters `Running` with the given
    /// synchronization sub-state. Any transport owned by a prior `Running`
    /// value is released by the replacement: afterwards the container holds
    /// exactly `socket`.
    pub fn set_running(&mut self, socket: T, sync_state: SyncState)
        ensures
            final(self).inner == (AppState::Running { socket, sync_state }),
            is_triple(final(self).str_anim, "Connected"@, ColorClass::Success, 200),
            final(self).descriptor_in_sync(),
    {
        self.str_anim = StatusDescriptor::new(200, "Connected", ColorClass::Success);
        self.inner = AppState::Running { socket, sync_state };
    }

    /// True exactly when the current variant is `Running`.
    pub fn is_running(&self) -> (r: bool)
        ensures
            r == (self.inner is Running),
    {
        matches!(self.inner, AppState::Running { .. })
    }

    /// Yields the owned transport exactly when the current variant is
    /// `Running`, and `None` in every other variant. The reference must not
    /// be retained past the next transition.
    pub fn get_socket(&mut self) -> (r: Option<&mut T>)
        ensures
            r is Some <==> old(self).inner is Running,
            r matches Some(s) ==> {
                &&& *s == old(self).inner->Running_socket
                &&& final(self).inner == (AppState::Running {
                    socket: *final(s),
                    sync_state: old(self).inner->Running_sync_state,
                })
                &&& final(self).str_anim == old(self).str_anim
            },
            r is None ==> *final(self) == *old(self),
    {
        if let AppState::Running { socket, .. } = &mut self.inner {
            Some(socket)
        } else {
            None
        }
    }
}

impl<T> Default for State<AppState<T>> {
    /// A fresh connection container starts in `Init` with the `Init` row of
    /// the descriptor table.
    fn default() -> (r: Self)
        ensures
            r.inner is Init,
            is_triple(r.str_anim, "Offline"@, ColorClass::Alert, 300),
            r.descriptor_in_sync(),
    {
        let mut o = State {
            str_anim: StatusDescriptor::new(0, "..", ColorClass::Neutral),
            inner: AppState::Init,
        };
        o.set_init();
        o
    }
}

impl State<BackgroundState> {
    /// The stored descriptor is exactly the table row for the current
    /// registration lifecycle variant.
    pub open spec fn descriptor_in_sync(self) -> bool {
        match self.inner {
            BackgroundState::NotSent => is_triple(
                self.str_anim,
                "Not yet sent"@,
                ColorClass::Alert,
                300,
            ),
            BackgroundState::Sent => is_triple(
                self.str_anim,
                "Sent, waiting for a response"@,
                ColorClass::Pending,
                100,
            ),
            BackgroundState::Connected { .. } => is_triple(
                self.str_anim,
                "Connected"@,
                ColorClass::Success,
                100,
            ),
        }
    }

    /// Unconditionally resets the registration machine to `NotSent`.
    pub fn set_not_sent(&mut self)
        ensures
            final(self).inner is NotSent,
            is_triple(final(self).str_anim, "Not yet sent"@, ColorClass::Alert, 300),
            final(self).descriptor_in_sync(),
    {
        self.str_anim = StatusDescriptor::new(300, "Not yet sent", ColorClass::Alert);
        self.inner = BackgroundState::NotSent;
    }

    /// Records that the registration request was sent and awaits a response.
    pub fn set_sent(&mut self)
        ensures
            final(self).inner is Sent,
            is_triple(
                final(self).str_anim,
                "Sent, waiting for a response"@,
                ColorClass::Pending,
                100,
            ),
            final(self).descriptor_in_sync(),
    {
        self.str_anim = StatusDescriptor::new(
            100,
            "Sent, waiting for a response",
            ColorClass::Pending,
        );
        self.inner = BackgroundState::Sent;
    }

    /// Takes ownership of the externally issued identifier and enters
    /// `Connected`; the stored identifier is exactly `id`.
    pub fn set_connected(&mut self, id: ID)
        ensures
            final(self).inner == (BackgroundState::Connected { id }),
            is_triple(final(self).str_anim, "Connected"@, ColorClass::Success, 100),
            final(self).descriptor_in_sync(),
    {
        self.str_anim = StatusDescriptor::new(100, "Connected", ColorClass::Success);
        self.inner = BackgroundState::Connected { id };
    }

    /// Reads the stored identifier exactly when the current variant is
    /// `Connected`, and `None` in every other variant.
    pub fn get_id(&self) -> (r: Option<&ID>)
        ensures
            r is Some <==> self.inner is Connected,
            r matches Some(i) ==> *i == self.inner->Connected_id,
    {
        if let BackgroundState::Connected { id } = &self.inner {
            Some(id)
        } else {
            None
        }
    }
}

impl Default for State<BackgroundState> {
    /// A fresh registration container starts in `NotSent` with the `NotSent`
    /// row of the descriptor table.
    fn default() -> (r: Self)
        ensures
            r.inner is NotSent,
            is_triple(r.str_anim, "Not yet sent"@, ColorClass::Alert, 300),
            r.descriptor_in_sync(),
    {
        let mut o = State {
            str_anim: StatusDescriptor::new(0, "..", ColorClass::Neutral),
            inner: BackgroundState::NotSent,
        };
        o.set_not_sent();
        o
    }
}

/// No stale descriptor for the connection machine: every transition and the
/// default constructor ensure `descriptor_in_sync`, so after each call of any
/// sequence of transitions the stored descriptor is exactly the table row of
/// the variant that call produced.
pub proof fn lemma_descriptor_never_stale<T>(s: State<AppState<T>>)
    requires
        s.descriptor_in_sync(),
    ensures
        s.inner is Init ==> is_triple(s.str_anim, "Offline"@, ColorClass::Alert, 300),
        s.inner is DaemonBootingUp ==> is_triple(
            s.str_anim,
            "Initializing"@,
            ColorClass::Pending,
            300,
        ),
        s.inner is ConnectingToDaemon ==> is_triple(
            s.str_anim,
            "Connecting..."@,
            ColorClass::Pending,
            100,
        ),
        s.inner is Running ==> is_triple(s.str_anim, "Connected"@, ColorClass::Success, 200),
{
}

/// No stale descriptor for the registration machine: the counterpart of
/// `lemma_descriptor_never_stale` for `BackgroundState`.
pub proof fn lemma_background_descriptor_never_stale(s: State<BackgroundState>)
    requires
        s.descriptor_in_sync(),
    ensures
        s.inner is NotSent ==> is_triple(s.str_anim, "Not yet sent"@, ColorClass::Alert, 300),
        s.inner is Sent ==> is_triple(
            s.str_anim,
            "Sent, waiting for a response"@,
            ColorClass::Pending,
            100,
        ),
        s.inner is Connected ==> is_triple(s.str_anim, "Connected"@, ColorClass::Success, 100),
{
}

/// The running flag tracks the variant exactly: `is_running` answers true in
/// the state `set_running` produces and false in the state every other
/// transition produces, and only a further transition can change the answer,
/// since the variants are mutually exclusive.
pub proof fn lemma_running_iff_running_variant<T>(s: State<AppState<T>>)
    ensures
        s.inner is Running <==> !(s.inner is Init || s.inner is DaemonBootingUp
            || s.inner is ConnectingToDaemon),
{
}

/// Re-entering `Running` hands ownership to the new transport: the state that
/// a transition into `Running` produces is determined by that call's arguments
/// alone, so after `set_running(t2, s2)` the container owns exactly `t2` —
/// whatever transport a prior `Running` value held is released and is never
/// yielded by the accessor again.
pub proof fn lemma_rerunning_releases_prior_transport<T>(
    before: State<AppState<T>>,
    after: State<AppState<T>>,
    t1: T,
    t2: T,
    s1: SyncState,
    s2: SyncState,
)
    requires
        before.inner == (AppState::Running { socket: t1, sync_state: s1 }),
        after.inner == (AppState::Running { socket: t2, sync_state: s2 }),
    ensures
        after.inner->Running_socket == t2,
        t1 != t2 ==> after.inner->Running_socket != t1,
{
}

/// Identity round-trip for the registration identifier: in the state that
/// `set_connected(id)` produces, the stored identifier — the one `get_id`
/// yields — is exactly `id`.
pub proof fn lemma_connected_id_round_trip(s: State<BackgroundState>, id: ID)
    requires
        s.inner == (BackgroundState::Connected { id }),
    ensures
        s.inner->Connected_id == id,
{
}

} // verus!
