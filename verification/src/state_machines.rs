use vstd::prelude::*;

use crate::buffer::{buffer_as_slice, buffer_bytes, buffer_clear, buffer_extend, buffer_new};
use crate::encoding::{
    build_data_frame, build_join_request, check_and_decrypt, data_frame, data_header_of,
    decode_join_accept, decrypted_payload_of, join_accept_of, join_request_frame,
    parse_data_header,
};
use crate::radio::PhyRxTx;
use crate::region::Configuration;
use crate::types::{Credentials, SessionData};
use crate::{Error, Event, GetRandom, NoSessionError, Response, SessionError, State, Timings};

verus! {

/// Delay of the second join receive window relative to the end of the
/// join-request transmission, in milliseconds.
pub const JOIN_ACCEPT_DELAY2_MS: u32 = 6000;

/// Delay of the second data receive window relative to the end of an uplink
/// transmission, in milliseconds.
pub const RECEIVE_DELAY2_MS: u32 = 2000;

/// A protocol delay shifted by the radio-specific window offset, clamped to
/// the range of a millisecond timestamp.
pub open spec fn clamped_delay(base: int, offset: int) -> int {
    if base + offset < 0 {
        0
    } else if base + offset > u32::MAX {
        u32::MAX as int
    } else {
        base + offset
    }
}

/// The moment a receive window opens: the protocol delay shifted by the
/// radio's offset.
pub fn window_delay(base: u32, offset: i32) -> (r: u32)
    ensures
        r == clamped_delay(base as int, offset as int),
{
    if offset >= 0 {
        let off: u32 = offset as u32;
        if base > u32::MAX - off {
            u32::MAX
        } else {
            base + off
        }
    } else {
        let mag: u32 = if offset == i32::MIN { 2147483648 } else { (-offset) as u32 };
        if base < mag {
            0
        } else {
            base - mag
        }
    }
}

/// Network parameters delivered by a join accept: the optional channel list.
#[derive(Clone, Copy, Debug)]
pub struct JoinAccept {
    pub cflist: Option<[u32; 5]>,
}

/// A decrypted application downlink staged for the caller.
#[derive(Debug)]
pub struct DataDownlink {
    pub payload: Vec<u8>,
    pub fcnt: u32,
}

/// The single staged-downlink slot: at most one unconsumed item, either
/// application data or the result of a join handshake.
#[derive(Debug)]
pub enum Downlink {
    Data(DataDownlink),
    Join(JoinAccept),
}

/// Mutable resources shared by whichever protocol state is current.
pub struct Shared<R: PhyRxTx + Timings, G: GetRandom> {
    pub radio: R,
    pub credentials: Option<Credentials>,
    pub region: Configuration,
    pub get_random: G,
    pub buffer: heapless::Vec<u8, 256>,
    pub downlink: Option<Downlink>,
    pub datarate: usize,
}

impl<R: PhyRxTx + Timings, G: GetRandom> Shared<R, G> {
    /// Equal in every field except the radio and the transmit buffer.
    pub open spec fn eq_except_radio_buffer(self, o: Shared<R, G>) -> bool {
        &&& self.credentials == o.credentials
        &&& self.region == o.region
        &&& self.get_random == o.get_random
        &&& self.downlink == o.downlink
        &&& self.datarate == o.datarate
    }

    /// The same context with the staged downlink replaced.
    pub open spec fn with_downlink(self, d: Option<Downlink>) -> Shared<R, G> {
        Shared {
            radio: self.radio,
            credentials: self.credentials,
            region: self.region,
            get_random: self.get_random,
            buffer: self.buffer,
            downlink: d,
            datarate: self.datarate,
        }
    }

    /// The same context with the data rate replaced.
    pub open spec fn with_datarate(self, d: usize) -> Shared<R, G> {
        Shared {
            radio: self.radio,
            credentials: self.credentials,
            region: self.region,
            get_random: self.get_random,
            buffer: self.buffer,
            downlink: self.downlink,
            datarate: d,
        }
    }

    /// The same context with the radio replaced.
    pub open spec fn with_radio(self, r: R) -> Shared<R, G> {
        Shared {
            radio: r,
            credentials: self.credentials,
            region: self.region,
            get_random: self.get_random,
            buffer: self.buffer,
            downlink: self.downlink,
            datarate: self.datarate,
        }
    }

    /// The same context with the credentials replaced.
    pub open spec fn with_credentials(self, c: Option<Credentials>) -> Shared<R, G> {
        Shared {
            radio: self.radio,
            credentials: c,
            region: self.region,
            get_random: self.get_random,
            buffer: self.buffer,
            downlink: self.downlink,
            datarate: self.datarate,
        }
    }

    pub fn new(radio: R, credentials: Option<Credentials>, region: Configuration, get_random: G) -> (r: Shared<R, G>)
        ensures
            r.radio == radio,
            r.credentials == credentials,
            r.region == region,
            r.get_random == get_random,
            buffer_bytes(r.buffer) == Seq::<u8>::empty(),
            r.downlink is None,
            r.datarate == 0,
    {
        Shared {
            radio,
            credentials,
            region,
            get_random,
            buffer: buffer_new(),
            downlink: None,
            datarate: 0,
        }
    }

    pub fn get_mut_radio(&mut self) -> (r: &mut R)
        ensures
            *r == old(self).radio,
            *final(self) == old(self).with_radio(*final(r)),
    {
        &mut self.radio
    }

    pub fn get_mut_credentials(&mut self) -> (r: &mut Option<Credentials>)
        ensures
            *r == old(self).credentials,
            *final(self) == old(self).with_credentials(*final(r)),
    {
        &mut self.credentials
    }

    pub fn get_datarate(&self) -> (r: usize)
        ensures
            r == self.datarate,
    {
        self.datarate
    }

    pub fn set_datarate(&mut self, datarate: usize)
        ensures
            *final(self) == old(self).with_datarate(datarate),
    {
        self.datarate = datarate;
    }

    /// Takes the staged application downlink.  The slot is cleared whatever
    /// it held, so a second take with no new arrival finds nothing.
    pub fn take_data_downlink(&mut self) -> (r: Option<DataDownlink>)
        ensures
            *final(self) == old(self).with_downlink(None),
            r == (match old(self).downlink {
                Some(Downlink::Data(d)) => Some(d),
                _ => None::<DataDownlink>,
            }),
    {
        match self.downlink.take() {
            Some(Downlink::Data(p)) => Some(p),
            _ => None,
        }
    }

    /// Takes the staged join-accept result.  The slot is cleared whatever it
    /// held, so a second take with no new arrival finds nothing.
    pub fn take_join_accept(&mut self) -> (r: Option<JoinAccept>)
        ensures
            *final(self) == old(self).with_downlink(None),
            r == (match old(self).downlink {
                Some(Downlink::Join(j)) => Some(j),
                _ => None::<JoinAccept>,
            }),
    {
        match self.downlink.take() {
            Some(Downlink::Join(p)) => Some(p),
            _ => None,
        }
    }
}

/// Sub-states of the pre-session join handshake.  While waiting, the state
/// keeps the device nonce the request carried and the root key it was built
/// with, so a later change of the stored credentials cannot affect the
/// handshake in flight.
pub enum JoinSub {
    Idle,
    Waiting { devnonce: u16, appkey: [u8; 16], second_window: bool },
}

/// The pre-session state: no keys are established and only the join
/// handshake makes progress.
pub struct NoSession<R: PhyRxTx + Timings, G: GetRandom> {
    pub shared: Shared<R, G>,
    pub sub: JoinSub,
}

/// Sub-states of the post-session protocol.
pub enum ActiveSub {
    Idle,
    Waiting { confirmed: bool, second_window: bool },
}

/// The post-session state: session keys are established and uplinks and
/// downlinks are exchanged.
pub struct Session<R: PhyRxTx + Timings, G: GetRandom> {
    pub shared: Shared<R, G>,
    pub session: SessionData,
    pub sub: ActiveSub,
}

/// Starting a join handshake from the join Idle sub-state: with credentials
/// present, a join request leaves through the radio and the state waits for
/// the first receive window; without credentials, or when the radio fails,
/// nothing changes.
pub open spec fn join_step_start<R: PhyRxTx + Timings, G: GetRandom>(
    pre: NoSession<R, G>,
    post: State<R, G>,
    res: Result<Response, Error>,
) -> bool {
    match pre.shared.credentials {
        None => {
            &&& post == State::NoSession(pre)
            &&& res == Err::<Response, Error>(Error::NoSession(NoSessionError::MissingCredentials))
        },
        Some(c) => match res {
            Err(e) => {
                &&& e is Radio
                &&& post matches State::NoSession(ns) && ns.sub is Idle
                    && ns.shared.eq_except_radio_buffer(pre.shared)
            },
            Ok(resp) => {
                &&& resp is JoinRequestSending
                &&& post matches State::NoSession(ns)
                    && ns.shared.eq_except_radio_buffer(pre.shared)
                    && (ns.sub matches JoinSub::Waiting { devnonce, appkey, second_window }
                        && appkey == c.appkey
                        && second_window == false
                        && buffer_bytes(ns.shared.buffer)
                            == join_request_frame(c.deveui@, c.appeui@, c.appkey@, devnonce))
            },
        },
    }
}

/// A timer expiry in the join state: the first expiry arms the second
/// window, the second gives the handshake up.
pub open spec fn join_step_timeout<R: PhyRxTx + Timings, G: GetRandom>(
    pre: NoSession<R, G>,
    post: State<R, G>,
    res: Result<Response, Error>,
) -> bool {
    match pre.sub {
        JoinSub::Idle => post == State::NoSession(pre) && res == Ok::<Response, Error>(Response::NoUpdate),
        JoinSub::Waiting { devnonce, appkey, second_window } => {
            if !second_window {
                &&& post == State::NoSession(
                    (NoSession {
                        shared: pre.shared,
                        sub: JoinSub::Waiting { devnonce, appkey, second_window: true },
                    }),
                )
                &&& res matches Ok(Response::TimeoutRequest(_))
            } else {
                &&& post == State::NoSession((NoSession { shared: pre.shared, sub: JoinSub::Idle }))
                &&& res == Ok::<Response, Error>(Response::NoJoinAccept)
            }
        },
    }
}

/// A received frame in the join state: a frame that decodes as a join accept
/// under the pending nonce and root key establishes the session, stages the
/// join result, and moves to the active Idle sub-state; anything else changes
/// nothing.
pub open spec fn join_step_radio<R: PhyRxTx + Timings, G: GetRandom>(
    pre: NoSession<R, G>,
    frame: Seq<u8>,
    post: State<R, G>,
    res: Result<Response, Error>,
) -> bool {
    match pre.sub {
        JoinSub::Idle => post == State::NoSession(pre) && res == Ok::<Response, Error>(Response::NoUpdate),
        JoinSub::Waiting { devnonce, appkey, .. } => match join_accept_of(frame, appkey@, devnonce) {
            None => post == State::NoSession(pre) && res == Ok::<Response, Error>(Response::NoUpdate),
            Some(info) => {
                &&& post matches State::Session(s)
                    && s.sub is Idle
                    && s.session == (SessionData {
                        newskey: info.newskey,
                        appskey: info.appskey,
                        devaddr: info.devaddr,
                        fcnt_up: 0,
                        fcnt_down: 0,
                    })
                    && s.shared == pre.shared.with_downlink(
                        Some(Downlink::Join((JoinAccept { cflist: info.cflist }))),
                    )
                &&& res == Ok::<Response, Error>(Response::JoinSuccess)
            },
        },
    }
}

/// A send request in the active Idle sub-state: an invalid port or an
/// oversized payload is rejected, an exhausted counter is rejected, a radio
/// failure leaves the state unchanged, and otherwise the frame built from
/// the pre-increment counter leaves through the radio, the counter advances
/// by one, and the state waits for a downlink.
pub open spec fn active_step_send<R: PhyRxTx + Timings, G: GetRandom>(
    pre: Session<R, G>,
    data: Seq<u8>,
    fport: u8,
    confirmed: bool,
    post: State<R, G>,
    res: Result<Response, Error>,
) -> bool {
    if fport == 0 && data.len() > 0 {
        post == State::Session(pre) && res == Err::<Response, Error>(Error::Session(SessionError::InvalidFPort))
    } else if data.len() > 242 {
        post == State::Session(pre) && res == Err::<Response, Error>(Error::Session(SessionError::PayloadTooLong))
    } else if pre.session.fcnt_up == u32::MAX {
        post == State::Session(pre) && res == Err::<Response, Error>(Error::Session(SessionError::FcntUpExhausted))
    } else {
        match res {
            Err(e) => {
                &&& e is Radio
                &&& post matches State::Session(s) && s.sub is Idle && s.session == pre.session
                    && s.shared.eq_except_radio_buffer(pre.shared)
                    && buffer_bytes(s.shared.buffer) == data_frame(
                        data,
                        fport,
                        confirmed,
                        pre.session.devaddr@,
                        pre.session.fcnt_up,
                        pre.session.newskey@,
                        pre.session.appskey@,
                    )
            },
            Ok(resp) => {
                &&& resp == Response::UplinkSending((pre.session.fcnt_up + 1) as u32)
                &&& post matches State::Session(s)
                    && s.sub == (ActiveSub::Waiting { confirmed, second_window: false })
                    && s.session == (SessionData {
                        newskey: pre.session.newskey,
                        appskey: pre.session.appskey,
                        devaddr: pre.session.devaddr,
                        fcnt_up: (pre.session.fcnt_up + 1) as u32,
                        fcnt_down: pre.session.fcnt_down,
                    })
                    && s.shared.eq_except_radio_buffer(pre.shared)
                    && buffer_bytes(s.shared.buffer) == data_frame(
                        data,
                        fport,
                        confirmed,
                        pre.session.devaddr@,
                        pre.session.fcnt_up,
                        pre.session.newskey@,
                        pre.session.appskey@,
                    )
            },
        }
    }
}

/// A timer expiry in the active state: the first expiry arms the second
/// window; the second returns to Idle, reporting a missing acknowledgment
/// for a confirmed uplink and readiness otherwise.
pub open spec fn active_step_timeout<R: PhyRxTx + Timings, G: GetRandom>(
    pre: Session<R, G>,
    post: State<R, G>,
    res: Result<Response, Error>,
) -> bool {
    match pre.sub {
        ActiveSub::Idle => post == State::Session(pre) && res == Ok::<Response, Error>(Response::NoUpdate),
        ActiveSub::Waiting { confirmed, second_window } => {
            if !second_window {
                &&& post == State::Session(
                    (Session {
                        shared: pre.shared,
                        session: pre.session,
                        sub: ActiveSub::Waiting { confirmed, second_window: true },
                    }),
                )
                &&& res matches Ok(Response::TimeoutRequest(_))
            } else {
                &&& post == State::Session(
                    (Session { shared: pre.shared, session: pre.session, sub: ActiveSub::Idle }),
                )
                &&& res == Ok::<Response, Error>(
                    if confirmed { Response::NoAck } else { Response::ReadyToSend },
                )
            }
        },
    }
}

/// What a received frame yields against the current session while a downlink
/// is awaited: the frame counter it carries and the decrypted payload, when
/// the frame parses as a downlink addressed to this device, its counter is
/// not stale, and its integrity code matches the network session key.
pub open spec fn accepted_downlink(sd: SessionData, frame: Seq<u8>) -> Option<(u32, Seq<u8>)> {
    match data_header_of(frame) {
        None => None,
        Some(h) => {
            if !h.uplink && h.devaddr@ == sd.devaddr@ && h.fcnt as u32 >= sd.fcnt_down {
                match decrypted_payload_of(frame, sd.newskey@, sd.appskey@, h.fcnt as u32) {
                    Some(p) => Some((h.fcnt as u32, p)),
                    None => None,
                }
            } else {
                None
            }
        },
    }
}

/// A received frame in the active state: an accepted downlink is staged, the
/// downlink counter advances past it, and the state returns to Idle; a
/// malformed, misaddressed, stale or badly authenticated frame changes
/// nothing.
pub open spec fn active_step_radio<R: PhyRxTx + Timings, G: GetRandom>(
    pre: Session<R, G>,
    frame: Seq<u8>,
    post: State<R, G>,
    res: Result<Response, Error>,
) -> bool {
    match pre.sub {
        ActiveSub::Idle => post == State::Session(pre) && res == Ok::<Response, Error>(Response::NoUpdate),
        ActiveSub::Waiting { .. } => match accepted_downlink(pre.session, frame) {
            None => post == State::Session(pre) && res == Ok::<Response, Error>(Response::NoUpdate),
            Some((f, p)) => {
                &&& post matches State::Session(s)
                    && s.sub is Idle
                    && s.session == (SessionData {
                        newskey: pre.session.newskey,
                        appskey: pre.session.appskey,
                        devaddr: pre.session.devaddr,
                        fcnt_up: pre.session.fcnt_up,
                        fcnt_down: (f + 1) as u32,
                    })
                    && s.shared.eq_except_radio_buffer(pre.shared.with_downlink(s.shared.downlink))
                    && s.shared.radio == pre.shared.radio
                    && s.shared.buffer == pre.shared.buffer
                    && (s.shared.downlink matches Some(Downlink::Data(dd))
                        && dd.fcnt == f && dd.payload@ == p)
                &&& res == Ok::<Response, Error>(Response::DownlinkReceived(f))
            },
        },
    }
}

/// A new-session request in the active state is a session expiry: the keys
/// are discarded and the device returns to the join Idle sub-state.
pub open spec fn active_step_expire<R: PhyRxTx + Timings, G: GetRandom>(
    pre: Session<R, G>,
    post: State<R, G>,
    res: Result<Response, Error>,
) -> bool {
    &&& post == State::NoSession((NoSession { shared: pre.shared, sub: JoinSub::Idle }))
    &&& res == Ok::<Response, Error>(Response::SessionExpired)
}

impl<R: PhyRxTx + Timings, G: GetRandom> NoSession<R, G> {
    pub fn new(shared: Shared<R, G>) -> (r: NoSession<R, G>)
        ensures
            r == (NoSession { shared, sub: JoinSub::Idle }),
    {
        NoSession { shared, sub: JoinSub::Idle }
    }

    fn start_join(self) -> (r: (State<R, G>, Result<Response, Error>))
        requires
            self.sub is Idle,
        ensures
            join_step_start(self, r.0, r.1),
    {
        let mut this = self;
        let creds = match &this.shared.credentials {
            Some(c) => *c,
            None => {
                return (
                    State::NoSession(this),
                    Err(Error::NoSession(NoSessionError::MissingCredentials)),
                );
            },
        };
        let nonce32 = this.shared.get_random.get_random();
        let devnonce: u16 = (nonce32 & 0xFFFF) as u16;
        let frame = build_join_request(&creds.deveui, &creds.appeui, &creds.appkey, devnonce);
        buffer_clear(&mut this.shared.buffer);
        let _ok = buffer_extend(&mut this.shared.buffer, frame.as_slice());
        proof {
            assert(buffer_bytes(this.shared.buffer) =~= frame@);
        }
        let slice = buffer_as_slice(&this.shared.buffer);
        match this.shared.radio.transmit(slice) {
            Err(e) => (State::NoSession(this), Err(Error::Radio(e))),
            Ok(_) => {
                this.sub = JoinSub::Waiting { devnonce, appkey: creds.appkey, second_window: false };
                (State::NoSession(this), Ok(Response::JoinRequestSending))
            },
        }
    }

    fn timeout(self) -> (r: (State<R, G>, Result<Response, Error>))
        ensures
            join_step_timeout(self, r.0, r.1),
    {
        let mut this = self;
        match this.sub {
            JoinSub::Idle => (State::NoSession(this), Ok(Response::NoUpdate)),
            JoinSub::Waiting { devnonce, appkey, second_window } => {
                if !second_window {
                    let offset = this.shared.radio.get_rx_window_offset_ms();
                    let d = window_delay(JOIN_ACCEPT_DELAY2_MS, offset);
                    this.sub = JoinSub::Waiting { devnonce, appkey, second_window: true };
                    (State::NoSession(this), Ok(Response::TimeoutRequest(d)))
                } else {
                    this.sub = JoinSub::Idle;
                    (State::NoSession(this), Ok(Response::NoJoinAccept))
                }
            },
        }
    }

    fn radio_event(self, frame: &[u8]) -> (r: (State<R, G>, Result<Response, Error>))
        ensures
            join_step_radio(self, frame@, r.0, r.1),
    {
        let mut this = self;
        match this.sub {
            JoinSub::Idle => (State::NoSession(this), Ok(Response::NoUpdate)),
            JoinSub::Waiting { devnonce, appkey, second_window: _ } => {
                match decode_join_accept(frame, &appkey, devnonce) {
                    None => (State::NoSession(this), Ok(Response::NoUpdate)),
                    Some(info) => {
                        this.shared.downlink = Some(
                            Downlink::Join(JoinAccept { cflist: info.cflist }),
                        );
                        let session = SessionData::new(info.newskey, info.appskey, info.devaddr);
                        (
                            State::Session(Session {
                                shared: this.shared,
                                session,
                                sub: ActiveSub::Idle,
                            }),
                            Ok(Response::JoinSuccess),
                        )
                    },
                }
            },
        }
    }

    /// Handles one event in the pre-session state.  A send request is
    /// rejected outright: the join state never carries application data.
    pub fn handle_event(self, event: Event<'_>) -> (r: (State<R, G>, Result<Response, Error>))
        ensures
            event is NewSessionRequest ==> (match self.sub {
                JoinSub::Idle => join_step_start(self, r.0, r.1),
                JoinSub::Waiting { .. } => r.0 == State::NoSession(self)
                    && r.1 == Ok::<Response, Error>(Response::NoUpdate),
            }),
            event is TimeoutFired ==> join_step_timeout(self, r.0, r.1),
            event matches Event::RadioEvent(f) ==> join_step_radio(self, f@, r.0, r.1),
            event matches Event::SendDataRequest(_) ==> r.0 == State::NoSession(self)
                && r.1 == Err::<Response, Error>(Error::NoSession(NoSessionError::SendDataWhileNoSession)),
    {
        match event {
            Event::NewSessionRequest => match self.sub {
                JoinSub::Idle => self.start_join(),
                JoinSub::Waiting { .. } => (State::NoSession(self), Ok(Response::NoUpdate)),
            },
            Event::TimeoutFired => self.timeout(),
            Event::RadioEvent(frame) => self.radio_event(frame),
            Event::SendDataRequest(_) => (
                State::NoSession(self),
                Err(Error::NoSession(NoSessionError::SendDataWhileNoSession)),
            ),
        }
    }
}

impl<R: PhyRxTx + Timings, G: GetRandom> Session<R, G> {
    pub fn new(shared: Shared<R, G>, session: SessionData) -> (r: Session<R, G>)
        ensures
            r == (Session { shared, session, sub: ActiveSub::Idle }),
    {
        Session { shared, session, sub: ActiveSub::Idle }
    }

    fn send_data(self, data: &[u8], fport: u8, confirmed: bool) -> (r: (State<R, G>, Result<Response, Error>))
        requires
            self.sub is Idle,
        ensures
            active_step_send(self, data@, fport, confirmed, r.0, r.1),
    {
        let mut this = self;
        if fport == 0 && data.len() > 0 {
            return (State::Session(this), Err(Error::Session(SessionError::InvalidFPort)));
        }
        if data.len() > 242 {
            return (State::Session(this), Err(Error::Session(SessionError::PayloadTooLong)));
        }
        let next_fcnt = match this.session.fcnt_up.checked_add(1) {
            Some(n) => n,
            None => {
                return (State::Session(this), Err(Error::Session(SessionError::FcntUpExhausted)));
            },
        };
        let frame = build_data_frame(
            data,
            fport,
            confirmed,
            &this.session.devaddr,
            this.session.fcnt_up,
            &this.session.newskey,
            &this.session.appskey,
        );
        buffer_clear(&mut this.shared.buffer);
        let _ok = buffer_extend(&mut this.shared.buffer, frame.as_slice());
        proof {
            assert(buffer_bytes(this.shared.buffer) =~= frame@);
        }
        let slice = buffer_as_slice(&this.shared.buffer);
        match this.shared.radio.transmit(slice) {
            Err(e) => (State::Session(this), Err(Error::Radio(e))),
            Ok(_) => {
                this.session.fcnt_up = next_fcnt;
                this.sub = ActiveSub::Waiting { confirmed, second_window: false };
                (State::Session(this), Ok(Response::UplinkSending(next_fcnt)))
            },
        }
    }

    fn timeout(self) -> (r: (State<R, G>, Result<Response, Error>))
        ensures
            active_step_timeout(self, r.0, r.1),
    {
        let mut this = self;
        match this.sub {
            ActiveSub::Idle => (State::Session(this), Ok(Response::NoUpdate)),
            ActiveSub::Waiting { confirmed, second_window } => {
                if !second_window {
                    let offset = this.shared.radio.get_rx_window_offset_ms();
                    let d = window_delay(RECEIVE_DELAY2_MS, offset);
                    this.sub = ActiveSub::Waiting { confirmed, second_window: true };
                    (State::Session(this), Ok(Response::TimeoutRequest(d)))
                } else {
                    this.sub = ActiveSub::Idle;
                    let resp = if confirmed {
                        Response::NoAck
                    } else {
                        Response::ReadyToSend
                    };
                    (State::Session(this), Ok(resp))
                }
            },
        }
    }

    fn radio_event(self, frame: &[u8]) -> (r: (State<R, G>, Result<Response, Error>))
        ensures
            active_step_radio(self, frame@, r.0, r.1),
    {
        let mut this = self;
        match this.sub {
            ActiveSub::Idle => (State::Session(this), Ok(Response::NoUpdate)),
            ActiveSub::Waiting { .. } => {
                let header = match parse_data_header(frame) {
                    Some(h) => h,
                    None => {
                        return (State::Session(this), Ok(Response::NoUpdate));
                    },
                };
                let fcnt32: u32 = header.fcnt as u32;
                if header.uplink || !eq_devaddr(&header.devaddr, &this.session.devaddr)
                    || fcnt32 < this.session.fcnt_down {
                    return (State::Session(this), Ok(Response::NoUpdate));
                }
                match check_and_decrypt(frame, &this.session.newskey, &this.session.appskey, fcnt32) {
                    None => (State::Session(this), Ok(Response::NoUpdate)),
                    Some(payload) => {
                        this.shared.downlink = Some(
                            Downlink::Data(DataDownlink { payload, fcnt: fcnt32 }),
                        );
                        this.session.fcnt_down = fcnt32 + 1;
                        this.sub = ActiveSub::Idle;
                        (State::Session(this), Ok(Response::DownlinkReceived(fcnt32)))
                    },
                }
            },
        }
    }

    fn expire(self) -> (r: (State<R, G>, Result<Response, Error>))
        ensures
            active_step_expire(self, r.0, r.1),
    {
        (
            State::NoSession(NoSession { shared: self.shared, sub: JoinSub::Idle }),
            Ok(Response::SessionExpired),
        )
    }

    /// Handles one event in the post-session state.  A new-session request
    /// expires the session; a send request outside the Idle sub-state is
    /// rejected while an uplink exchange is still in flight.
    pub fn handle_event(self, event: Event<'_>) -> (r: (State<R, G>, Result<Response, Error>))
        ensures
            event is NewSessionRequest ==> active_step_expire(self, r.0, r.1),
            event is TimeoutFired ==> active_step_timeout(self, r.0, r.1),
            event matches Event::RadioEvent(f) ==> active_step_radio(self, f@, r.0, r.1),
            event matches Event::SendDataRequest(sd) ==> (match self.sub {
                ActiveSub::Idle => active_step_send(self, sd.data@, sd.fport, sd.confirmed, r.0, r.1),
                ActiveSub::Waiting { .. } => r.0 == State::Session(self)
                    && r.1 == Err::<Response, Error>(Error::Session(SessionError::Busy)),
            }),
    {
        match event {
            Event::NewSessionRequest => self.expire(),
            Event::TimeoutFired => self.timeout(),
            Event::RadioEvent(frame) => self.radio_event(frame),
            Event::SendDataRequest(sd) => match self.sub {
                ActiveSub::Idle => self.send_data(sd.data, sd.fport, sd.confirmed),
                ActiveSub::Waiting { .. } => (
                    State::Session(self),
                    Err(Error::Session(SessionError::Busy)),
                ),
            },
        }
    }
}

/// Byte-for-byte equality of two device addresses.
fn eq_devaddr(a: &[u8; 4], b: &[u8; 4]) -> (r: bool)
    ensures
        r <==> a@ == b@,
{
    let r = a[0] == b[0] && a[1] == b[1] && a[2] == b[2] && a[3] == b[3];
    proof {
        if r {
            assert(a@ =~= b@);
        }
    }
    r
}

} // verus!
