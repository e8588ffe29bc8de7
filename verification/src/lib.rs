use vstd::prelude::*;

pub mod buffer;
pub mod encoding;
pub mod radio;
pub mod region;
pub mod state_machines;
pub mod types;

use crate::state_machines::{
    active_step_expire, active_step_radio, active_step_send, active_step_timeout, join_step_radio,
    join_step_start, join_step_timeout, ActiveSub, DataDownlink, Downlink, JoinAccept, JoinSub,
    NoSession, Session, Shared,
};
use crate::types::{Credentials, SessionData, SessionKeys};

verus! {

/// A millisecond delay handed back to the caller so that it can arm a timer.
pub type TimestampMs = u32;

/// Expected protocol outcomes of handling one event.
#[derive(Clone, Copy, Debug, PartialEq, Eq, Structural)]
pub enum Response {
    NoUpdate,
    TimeoutRequest(TimestampMs),
    JoinRequestSending,
    JoinSuccess,
    NoJoinAccept,
    UplinkSending(u32),
    DownlinkReceived(u32),
    NoAck,
    ReadyToSend,
    SessionExpired,
}

/// Violations of the state-machine contract in the pre-session state.
#[derive(Clone, Copy, Debug, PartialEq, Eq, Structural)]
pub enum NoSessionError {
    /// Application data was handed in before any session existed.
    SendDataWhileNoSession,
    /// A join handshake was requested but no credentials are stored.
    MissingCredentials,
}

/// Violations of the state-machine contract in the post-session state.
#[derive(Clone, Copy, Debug, PartialEq, Eq, Structural)]
pub enum SessionError {
    /// A send request arrived while an uplink exchange was still in flight.
    Busy,
    /// The payload does not fit a single frame.
    PayloadTooLong,
    /// Application data was handed in on the port reserved for MAC commands.
    InvalidFPort,
    /// The uplink frame counter cannot advance any further.
    FcntUpExhausted,
}

/// Errors of the device facade.  A failed call still returns a usable
/// Device; these only terminate the one operation.
#[derive(Clone, Copy, Debug, PartialEq, Eq, Structural)]
pub enum Error {
    Radio(radio::Error),
    Session(SessionError),
    NoSession(NoSessionError),
}

/// A transmit request: application payload, port and confirmation mode.
#[derive(Clone, Copy)]
pub struct SendData<'a> {
    pub data: &'a [u8],
    pub fport: u8,
    pub confirmed: bool,
}

/// The events the caller feeds into the device: a request for a new session,
/// a transmit request, a received frame, and an expired timer.
#[derive(Clone, Copy)]
pub enum Event<'a> {
    NewSessionRequest,
    SendDataRequest(SendData<'a>),
    RadioEvent(&'a [u8]),
    TimeoutFired,
}

/// Radio-specific receive-window timing, supplied by the concrete radio.
pub trait Timings {
    fn get_rx_window_offset_ms(&self) -> i32;

    fn get_rx_window_duration_ms(&self) -> u32;
}

/// The caller-supplied randomness source used for join-request nonces.
/// Nothing is assumed of its results.
pub trait GetRandom {
    fn get_random(&self) -> u32;
}

/// How a device is activated: a network-assisted join handshake from an
/// identity and root key, or preset session keys that skip the handshake.
pub enum JoinMode {
    OTAA { deveui: [u8; 8], appeui: [u8; 8], appkey: [u8; 16] },
    ABP { newskey: [u8; 16], appskey: [u8; 16], devaddr: [u8; 4] },
}

/// The current protocol state: exactly one of the two variants owns the
/// shared context at any time.
pub enum State<R: radio::PhyRxTx + Timings, G: GetRandom> {
    NoSession(NoSession<R, G>),
    Session(Session<R, G>),
}

/// Builds the shared context a device is constructed over.
pub fn new_state<R: radio::PhyRxTx + Timings, G: GetRandom>(
    region: region::Configuration,
    radio: R,
    get_random: G,
) -> (r: Shared<R, G>)
    ensures
        r.radio == radio,
        r.credentials is None,
        r.region == region,
        r.get_random == get_random,
        r.downlink is None,
        r.datarate == 0,
{
    Shared::new(radio, None, region, get_random)
}

/// The device facade: the only object the caller holds.  Every event
/// handling call consumes it and returns a new one, so a stale state can
/// never be observed.
pub struct Device<R: radio::PhyRxTx + Timings, G: GetRandom> {
    pub state: State<R, G>,
}

/// The complete transition relation of the device: what each event does in
/// each state, as far as the radio, the randomness source and the timing
/// parameters determine it.
pub open spec fn transition<R: radio::PhyRxTx + Timings, G: GetRandom>(
    pre: Device<R, G>,
    event: Event<'_>,
    post: Device<R, G>,
    res: Result<Response, Error>,
) -> bool {
    match event {
        Event::NewSessionRequest => match pre.state {
            State::NoSession(ns) => match ns.sub {
                JoinSub::Idle => join_step_start(ns, post.state, res),
                JoinSub::Waiting { .. } => post == pre && res == Ok::<Response, Error>(
                    Response::NoUpdate,
                ),
            },
            State::Session(s) => active_step_expire(s, post.state, res),
        },
        Event::TimeoutFired => match pre.state {
            State::NoSession(ns) => join_step_timeout(ns, post.state, res),
            State::Session(s) => active_step_timeout(s, post.state, res),
        },
        Event::RadioEvent(frame) => match pre.state {
            State::NoSession(ns) => join_step_radio(ns, frame@, post.state, res),
            State::Session(s) => active_step_radio(s, frame@, post.state, res),
        },
        Event::SendDataRequest(sd) => match pre.state {
            State::NoSession(ns) => post == pre && res == Err::<Response, Error>(
                Error::NoSession(NoSessionError::SendDataWhileNoSession),
            ),
            State::Session(s) => match s.sub {
                ActiveSub::Idle => active_step_send(s, sd.data@, sd.fport, sd.confirmed, post.state, res),
                ActiveSub::Waiting { .. } => post == pre && res == Err::<Response, Error>(
                    Error::Session(SessionError::Busy),
                ),
            },
        },
    }
}

impl<R: radio::PhyRxTx + Timings, G: GetRandom> Device<R, G> {
    /// The shared context, whichever state owns it.
    pub open spec fn spec_shared(&self) -> Shared<R, G> {
        match self.state {
            State::NoSession(ns) => ns.shared,
            State::Session(s) => s.shared,
        }
    }

    /// The same device with the shared context replaced.
    pub open spec fn spec_with_shared(self, sh: Shared<R, G>) -> Device<R, G> {
        Device {
            state: match self.state {
                State::NoSession(ns) => State::NoSession(NoSession { shared: sh, sub: ns.sub }),
                State::Session(s) => State::Session(
                    Session { shared: sh, session: s.session, sub: s.sub },
                ),
            },
        }
    }

    /// The session data, absent in the pre-session state.
    pub open spec fn spec_session(&self) -> Option<SessionData> {
        match self.state {
            State::NoSession(_) => None,
            State::Session(s) => Some(s.session),
        }
    }

    /// Whether the device is in the active state's Idle sub-state, the one
    /// place a send request is accepted.
    pub open spec fn spec_ready_to_send(&self) -> bool {
        self.state matches State::Session(s) && s.sub is Idle
    }

    /// Constructs a device: in the join Idle state holding the supplied
    /// credentials for a network-assisted activation, or directly in the
    /// active Idle state with both frame counters at zero for a preset-key
    /// activation.  No network interaction happens here.
    pub fn new(join_mode: JoinMode, shared: Shared<R, G>) -> (d: Device<R, G>)
        ensures
            match join_mode {
                JoinMode::OTAA { deveui, appeui, appkey } => d == (Device {
                    state: State::<R, G>::NoSession(NoSession {
                        shared: shared.with_credentials(
                            Some(Credentials { deveui, appeui, appkey }),
                        ),
                        sub: JoinSub::Idle,
                    }),
                }),
                JoinMode::ABP { newskey, appskey, devaddr } => d == (Device {
                    state: State::<R, G>::Session(Session {
                        shared,
                        session: SessionData {
                            newskey,
                            appskey,
                            devaddr,
                            fcnt_up: 0,
                            fcnt_down: 0,
                        },
                        sub: ActiveSub::Idle,
                    }),
                }),
            },
    {
        match join_mode {
            JoinMode::OTAA { deveui, appeui, appkey } => {
                let mut shared = shared;
                shared.credentials = Some(Credentials::new(appeui, deveui, appkey));
                Device { state: State::NoSession(NoSession::new(shared)) }
            },
            JoinMode::ABP { newskey, appskey, devaddr } => {
                let session = SessionData::new(newskey, appskey, devaddr);
                Device { state: State::Session(Session::new(shared, session)) }
            },
        }
    }

    /// The single state-transition entry point.  It consumes the device and
    /// always returns a new one, even on error, so the protocol stays usable
    /// after any failure; it has no precondition, so every event is handled
    /// in every state.
    pub fn handle_event(self, event: Event<'_>) -> (r: (Device<R, G>, Result<Response, Error>))
        ensures
            transition(self, event, r.0, r.1),
    {
        let (state, res) = match self.state {
            State::NoSession(ns) => ns.handle_event(event),
            State::Session(s) => s.handle_event(event),
        };
        (Device { state }, res)
    }

    /// Enqueues a transmit request; the same transition as handing a
    /// send-data event to handle_event.  Fails with a no-session error while
    /// the device is still joining.
    pub fn send(self, data: &[u8], fport: u8, confirmed: bool) -> (r: (Device<R, G>, Result<Response, Error>))
        ensures
            transition(
                self,
                Event::SendDataRequest((SendData { data, fport, confirmed })),
                r.0,
                r.1,
            ),
    {
        self.handle_event(Event::SendDataRequest(SendData { data, fport, confirmed }))
    }

    /// True exactly in the active state's Idle sub-state: false while
    /// joining and false while an uplink exchange is in flight.
    pub fn ready_to_send_data(&self) -> (r: bool)
        ensures
            r == self.spec_ready_to_send(),
    {
        match &self.state {
            State::Session(s) => matches!(s.sub, ActiveSub::Idle),
            State::NoSession(_) => false,
        }
    }

    /// The uplink frame counter, absent while no session exists.
    pub fn get_fcnt_up(&self) -> (r: Option<u32>)
        ensures
            r == (match self.spec_session() {
                Some(sd) => Some(sd.fcnt_up),
                None => None::<u32>,
            }),
    {
        match &self.state {
            State::Session(s) => Some(s.session.fcnt_up()),
            State::NoSession(_) => None,
        }
    }

    /// The session keys and address, absent while no session exists.
    pub fn get_session_keys(&self) -> (r: Option<SessionKeys>)
        ensures
            r == (match self.spec_session() {
                Some(sd) => Some(SessionKeys {
                    newskey: sd.newskey,
                    appskey: sd.appskey,
                    devaddr: sd.devaddr,
                }),
                None => None::<SessionKeys>,
            }),
    {
        match &self.state {
            State::Session(s) => Some(SessionKeys::copy_from_session_data(&s.session)),
            State::NoSession(_) => None,
        }
    }

    /// Exclusive access to the radio handle.
    pub fn get_radio(&mut self) -> (r: &mut R)
        ensures
            *r == old(self).spec_shared().radio,
            *final(self) == old(self).spec_with_shared(
                old(self).spec_shared().with_radio(*final(r)),
            ),
    {
        match &mut self.state {
            State::NoSession(ns) => &mut ns.shared.radio,
            State::Session(s) => &mut s.shared.radio,
        }
    }

    /// Exclusive access to the stored credentials.
    pub fn get_credentials(&mut self) -> (r: &mut Option<Credentials>)
        ensures
            *r == old(self).spec_shared().credentials,
            *final(self) == old(self).spec_with_shared(
                old(self).spec_shared().with_credentials(*final(r)),
            ),
    {
        match &mut self.state {
            State::NoSession(ns) => &mut ns.shared.credentials,
            State::Session(s) => &mut s.shared.credentials,
        }
    }

    /// The active data rate.
    pub fn get_datarate(&self) -> (r: region::DR)
        ensures
            r == self.spec_shared().datarate,
    {
        match &self.state {
            State::NoSession(ns) => ns.shared.get_datarate(),
            State::Session(s) => s.shared.get_datarate(),
        }
    }

    /// Sets the active data rate.
    pub fn set_datarate(&mut self, datarate: region::DR)
        ensures
            *final(self) == old(self).spec_with_shared(
                old(self).spec_shared().with_datarate(datarate),
            ),
    {
        match &mut self.state {
            State::NoSession(ns) => ns.shared.set_datarate(datarate),
            State::Session(s) => s.shared.set_datarate(datarate),
        }
    }

    /// Takes the staged application downlink; delivery is exactly once, so a
    /// second call with no new arrival returns nothing.
    pub fn take_data_downlink(&mut self) -> (r: Option<DataDownlink>)
        ensures
            *final(self) == old(self).spec_with_shared(
                old(self).spec_shared().with_downlink(None),
            ),
            r == (match old(self).spec_shared().downlink {
                Some(Downlink::Data(d)) => Some(d),
                _ => None::<DataDownlink>,
            }),
    {
        match &mut self.state {
            State::NoSession(ns) => ns.shared.take_data_downlink(),
            State::Session(s) => s.shared.take_data_downlink(),
        }
    }

    /// Takes the staged join-accept result; delivery is exactly once, so a
    /// second call with no new arrival returns nothing.
    pub fn take_join_accept(&mut self) -> (r: Option<JoinAccept>)
        ensures
            *final(self) == old(self).spec_with_shared(
                old(self).spec_shared().with_downlink(None),
            ),
            r == (match old(self).spec_shared().downlink {
                Some(Downlink::Join(j)) => Some(j),
                _ => None::<JoinAccept>,
            }),
    {
        match &mut self.state {
            State::NoSession(ns) => ns.shared.take_join_accept(),
            State::Session(s) => s.shared.take_join_accept(),
        }
    }
}

/// The uplink frame counter of a device, read as zero while no session
/// exists.
pub open spec fn spec_fcnt_up<R: radio::PhyRxTx + Timings, G: GetRandom>(d: Device<R, G>) -> u32 {
    match d.state {
        State::Session(s) => s.session.fcnt_up,
        State::NoSession(_) => 0,
    }
}

/// Law: while a session persists across a transition, the uplink frame
/// counter never decreases; and a transition that reports an uplink as sent
/// advanced it by exactly one.
pub proof fn lemma_fcnt_up_monotonic<R: radio::PhyRxTx + Timings, G: GetRandom>(
    pre: Device<R, G>,
    event: Event<'_>,
    post: Device<R, G>,
    res: Result<Response, Error>,
)
    requires
        transition(pre, event, post, res),
    ensures
        pre.state is Session && post.state is Session ==> spec_fcnt_up(post) >= spec_fcnt_up(pre),
        res matches Ok(Response::UplinkSending(n)) ==> n == spec_fcnt_up(pre) + 1
            && spec_fcnt_up(post) == n,
{
}

/// Law: a transition that reports a downlink as received leaves the device
/// active and idle, stages exactly that downlink in the slot, and advances
/// the downlink frame counter past it.
pub proof fn lemma_downlink_staged<R: radio::PhyRxTx + Timings, G: GetRandom>(
    pre: Device<R, G>,
    event: Event<'_>,
    post: Device<R, G>,
    res: Result<Response, Error>,
    n: u32,
)
    requires
        transition(pre, event, post, res),
        res == Ok::<Response, Error>(Response::DownlinkReceived(n)),
    ensures
        post.spec_ready_to_send(),
        post.spec_session() matches Some(sd) && sd.fcnt_down == n + 1,
        post.spec_shared().downlink matches Some(Downlink::Data(dd)) && dd.fcnt == n,
{
}

/// Law: a transition out of the active Idle sub-state triggered by anything
/// other than a send request or a session expiry leaves the session data
/// untouched.
pub proof fn lemma_idle_session_stable<R: radio::PhyRxTx + Timings, G: GetRandom>(
    pre: Device<R, G>,
    event: Event<'_>,
    post: Device<R, G>,
    res: Result<Response, Error>,
)
    requires
        transition(pre, event, post, res),
        pre.spec_ready_to_send(),
        !(event is NewSessionRequest),
        !(event is SendDataRequest),
    ensures
        post.spec_session() == pre.spec_session(),
        post.spec_ready_to_send(),
{
}

} // verus!

