use lorawan::parser::DataHeader;
use lorawan_device::state_machines::window_delay;
use lorawan_device::radio::{Error as RadioError, PhyRxTx};
use lorawan_device::types::Credentials;
use lorawan_device::{
    new_state, Device, Error, Event, GetRandom, JoinMode, NoSessionError, Response, SessionError,
    Timings,
};

struct FakeRadio {
    fail: bool,
    offset_ms: i32,
    sent: Vec<Vec<u8>>,
}

impl FakeRadio {
    fn new() -> FakeRadio {
        FakeRadio { fail: false, offset_ms: 0, sent: Vec::new() }
    }
}

impl PhyRxTx for FakeRadio {
    fn transmit(&mut self, buffer: &[u8]) -> Result<(), RadioError> {
        if self.fail {
            Err(RadioError::Transmit)
        } else {
            self.sent.push(buffer.to_vec());
            Ok(())
        }
    }
}

impl Timings for FakeRadio {
    fn get_rx_window_offset_ms(&self) -> i32 {
        self.offset_ms
    }

    fn get_rx_window_duration_ms(&self) -> u32 {
        800
    }
}

struct FixedRng(u32);

impl GetRandom for FixedRng {
    fn get_random(&self) -> u32 {
        self.0
    }
}

const APPKEY: [u8; 16] = [
    0x00, 0x11, 0x22, 0x33, 0x44, 0x55, 0x66, 0x77, 0x88, 0x99, 0xAA, 0xBB, 0xCC, 0xDD, 0xEE,
    0xFF,
];
const DEVEUI: [u8; 8] = [1, 2, 3, 4, 5, 6, 7, 8];
const APPEUI: [u8; 8] = [8, 7, 6, 5, 4, 3, 2, 1];
const NEWSKEY: [u8; 16] = [2; 16];
const APPSKEY: [u8; 16] = [1; 16];
const DEVADDR: [u8; 4] = [4, 3, 2, 1];

fn otaa_device() -> Device<FakeRadio, FixedRng> {
    let shared = new_state(
        lorawan_device::region::Configuration::new(),
        FakeRadio::new(),
        FixedRng(0x1234),
    );
    Device::new(
        JoinMode::OTAA { deveui: DEVEUI, appeui: APPEUI, appkey: APPKEY },
        shared,
    )
}

fn abp_device() -> Device<FakeRadio, FixedRng> {
    let shared = new_state(
        lorawan_device::region::Configuration::new(),
        FakeRadio::new(),
        FixedRng(0x1234),
    );
    Device::new(
        JoinMode::ABP { newskey: NEWSKEY, appskey: APPSKEY, devaddr: DEVADDR },
        shared,
    )
}

fn make_join_accept(appkey: [u8; 16]) -> Vec<u8> {
    let mut phy = lorawan::creator::JoinAcceptCreator::new();
    phy.set_app_nonce(&[1u8, 2, 3]);
    phy.set_net_id(&[3u8, 2, 1]);
    phy.set_dev_addr(&DEVADDR);
    let key = lorawan::keys::AES128(appkey);
    // the creator's buffer is sized for a channel list; without one the
    // join accept is the first 17 bytes
    phy.build(&key).unwrap()[..17].to_vec()
}

fn make_downlink(
    payload: &[u8],
    fcnt: u32,
    newskey: [u8; 16],
    appskey: [u8; 16],
) -> Vec<u8> {
    let mut phy = lorawan::creator::DataPayloadCreator::new();
    phy.set_confirmed(false);
    phy.set_uplink(false);
    phy.set_dev_addr(&DEVADDR);
    phy.set_fcnt(fcnt);
    phy.set_f_port(1);
    let nwk = lorawan::keys::NewSKey::from(newskey);
    let app = lorawan::keys::AppSKey::from(appskey);
    phy.build(payload, &[], &nwk, &app).unwrap().to_vec()
}

#[test]
fn abp_starts_active_idle_with_zero_counters() {
    let mut device = abp_device();
    assert!(device.ready_to_send_data());
    assert_eq!(device.get_fcnt_up(), Some(0));
    let keys = device.get_session_keys().unwrap();
    assert_eq!(keys.newskey, NEWSKEY);
    assert_eq!(keys.appskey, APPSKEY);
    assert_eq!(keys.devaddr, DEVADDR);
    assert!(device.take_data_downlink().is_none());
    assert!(device.take_join_accept().is_none());
}

#[test]
fn send_while_joining_returns_no_session() {
    let device = otaa_device();
    assert!(!device.ready_to_send_data());
    assert_eq!(device.get_fcnt_up(), None);
    let (device, res) = device.send(b"hello", 1, true);
    assert_eq!(
        res,
        Err(Error::NoSession(NoSessionError::SendDataWhileNoSession))
    );
    assert!(!device.ready_to_send_data());
    assert_eq!(device.get_fcnt_up(), None);
}

#[test]
fn otaa_join_handshake_succeeds() {
    let device = otaa_device();
    let (mut device, res) = device.handle_event(Event::NewSessionRequest);
    assert_eq!(res, Ok(Response::JoinRequestSending));

    // the transmitted frame is a well-formed 23-byte join request
    let sent = device.get_radio().sent.clone();
    assert_eq!(sent.len(), 1);
    assert_eq!(sent[0].len(), 23);
    match lorawan::parser::parse(sent[0].clone()) {
        Ok(lorawan::parser::PhyPayload::JoinRequest(_)) => {},
        other => panic!("expected a join request, got {:?}", other.is_ok()),
    }

    let accept = make_join_accept(APPKEY);
    let (mut device, res) = device.handle_event(Event::RadioEvent(&accept));
    assert_eq!(res, Ok(Response::JoinSuccess));
    assert_eq!(device.get_fcnt_up(), Some(0));
    assert!(device.ready_to_send_data());

    // the join result is delivered exactly once
    let ja = device.take_join_accept();
    assert!(ja.is_some());
    assert!(ja.unwrap().cflist.is_none());
    assert!(device.take_join_accept().is_none());

    // the derived session carries data: a send now succeeds
    let (_, res) = device.send(b"ping", 1, false);
    assert_eq!(res, Ok(Response::UplinkSending(1)));
}

#[test]
fn bad_join_accept_is_ignored() {
    let device = otaa_device();
    let (device, _) = device.handle_event(Event::NewSessionRequest);
    let garbage = [0u8; 17];
    let (device, res) = device.handle_event(Event::RadioEvent(&garbage));
    assert_eq!(res, Ok(Response::NoUpdate));
    assert!(!device.ready_to_send_data());
    // a join accept built under a different root key fails its MIC
    let wrong = make_join_accept([9; 16]);
    let (device, res) = device.handle_event(Event::RadioEvent(&wrong));
    assert_eq!(res, Ok(Response::NoUpdate));
    assert!(!device.ready_to_send_data());
    assert_eq!(device.get_fcnt_up(), None);
}

#[test]
fn join_gives_up_after_both_windows() {
    let mut device = otaa_device();
    device.get_radio().offset_ms = -500;
    let (device, res) = device.handle_event(Event::NewSessionRequest);
    assert_eq!(res, Ok(Response::JoinRequestSending));
    let (device, res) = device.handle_event(Event::TimeoutFired);
    assert_eq!(res, Ok(Response::TimeoutRequest(5500)));
    let (device, res) = device.handle_event(Event::TimeoutFired);
    assert_eq!(res, Ok(Response::NoJoinAccept));
    // back in join Idle: another handshake can start
    let (_, res) = device.handle_event(Event::NewSessionRequest);
    assert_eq!(res, Ok(Response::JoinRequestSending));
}

#[test]
fn new_session_while_waiting_for_join_accept_is_no_update() {
    let device = otaa_device();
    let (device, _) = device.handle_event(Event::NewSessionRequest);
    let (_, res) = device.handle_event(Event::NewSessionRequest);
    assert_eq!(res, Ok(Response::NoUpdate));
}

#[test]
fn confirmed_uplink_without_ack_times_out() {
    let device = abp_device();
    let (device, res) = device.send(b"hello", 1, true);
    assert_eq!(res, Ok(Response::UplinkSending(1)));
    assert!(!device.ready_to_send_data());
    let (device, res) = device.handle_event(Event::TimeoutFired);
    assert_eq!(res, Ok(Response::TimeoutRequest(2000)));
    let (device, res) = device.handle_event(Event::TimeoutFired);
    assert_eq!(res, Ok(Response::NoAck));
    assert!(device.ready_to_send_data());
    assert_eq!(device.get_fcnt_up(), Some(1));
}

#[test]
fn unconfirmed_uplink_timeout_reports_ready() {
    let device = abp_device();
    let (device, res) = device.send(b"hello", 1, false);
    assert_eq!(res, Ok(Response::UplinkSending(1)));
    let (device, _) = device.handle_event(Event::TimeoutFired);
    let (device, res) = device.handle_event(Event::TimeoutFired);
    assert_eq!(res, Ok(Response::ReadyToSend));
    assert!(device.ready_to_send_data());
}

#[test]
fn downlink_is_received_and_delivered_once() {
    let device = abp_device();
    let (device, res) = device.send(b"hello", 1, true);
    assert_eq!(res, Ok(Response::UplinkSending(1)));
    let frame = make_downlink(b"reply", 0, NEWSKEY, APPSKEY);
    let (mut device, res) = device.handle_event(Event::RadioEvent(&frame));
    assert_eq!(res, Ok(Response::DownlinkReceived(0)));
    assert!(device.ready_to_send_data());
    let dl = device.take_data_downlink().unwrap();
    assert_eq!(dl.payload, b"reply".to_vec());
    assert_eq!(dl.fcnt, 0);
    assert!(device.take_data_downlink().is_none());
}

#[test]
fn stale_downlink_is_ignored() {
    let device = abp_device();
    let (device, _) = device.send(b"one", 1, false);
    let frame = make_downlink(b"reply", 0, NEWSKEY, APPSKEY);
    let (device, res) = device.handle_event(Event::RadioEvent(&frame));
    assert_eq!(res, Ok(Response::DownlinkReceived(0)));
    let (device, _) = device.send(b"two", 1, false);
    // the same frame again: its counter is now stale
    let (device, res) = device.handle_event(Event::RadioEvent(&frame));
    assert_eq!(res, Ok(Response::NoUpdate));
    assert!(!device.ready_to_send_data());
    drop(device);
}

#[test]
fn misaddressed_or_badly_keyed_downlink_is_ignored() {
    let device = abp_device();
    let (device, _) = device.send(b"one", 1, false);
    // wrong network session key: the integrity code cannot match
    let frame = make_downlink(b"reply", 0, [9; 16], APPSKEY);
    let (device, res) = device.handle_event(Event::RadioEvent(&frame));
    assert_eq!(res, Ok(Response::NoUpdate));
    assert!(!device.ready_to_send_data());
    drop(device);
}

#[test]
fn send_while_waiting_is_busy() {
    let device = abp_device();
    let (device, _) = device.send(b"one", 1, false);
    let (_, res) = device.send(b"two", 1, false);
    assert_eq!(res, Err(Error::Session(SessionError::Busy)));
}

#[test]
fn oversized_payload_is_rejected() {
    let device = abp_device();
    let big = [0u8; 243];
    let (device, res) = device.send(&big, 1, false);
    assert_eq!(res, Err(Error::Session(SessionError::PayloadTooLong)));
    assert!(device.ready_to_send_data());
    assert_eq!(device.get_fcnt_up(), Some(0));
}

#[test]
fn payload_on_port_zero_is_rejected() {
    let device = abp_device();
    let (device, res) = device.send(b"x", 0, false);
    assert_eq!(res, Err(Error::Session(SessionError::InvalidFPort)));
    assert!(device.ready_to_send_data());
}

#[test]
fn radio_failure_leaves_device_usable() {
    let mut device = abp_device();
    device.get_radio().fail = true;
    let (mut device, res) = device.send(b"hello", 1, false);
    assert_eq!(res, Err(Error::Radio(RadioError::Transmit)));
    assert!(device.ready_to_send_data());
    assert_eq!(device.get_fcnt_up(), Some(0));
    // the same device retries once the radio recovers
    device.get_radio().fail = false;
    let (_, res) = device.send(b"hello", 1, false);
    assert_eq!(res, Ok(Response::UplinkSending(1)));
}

#[test]
fn session_expiry_returns_to_join_state() {
    let device = abp_device();
    let (device, res) = device.handle_event(Event::NewSessionRequest);
    assert_eq!(res, Ok(Response::SessionExpired));
    assert!(!device.ready_to_send_data());
    assert_eq!(device.get_fcnt_up(), None);
    // the preset-key device stored no credentials, so it cannot re-join
    let (_, res) = device.handle_event(Event::NewSessionRequest);
    assert_eq!(
        res,
        Err(Error::NoSession(NoSessionError::MissingCredentials))
    );
}

#[test]
fn uplink_counter_increases_across_sends() {
    let device = abp_device();
    let mut device = device;
    for expected in 1..=3u32 {
        let (d, res) = device.send(b"tick", 1, false);
        assert_eq!(res, Ok(Response::UplinkSending(expected)));
        let (d, _) = d.handle_event(Event::TimeoutFired);
        let (d, _) = d.handle_event(Event::TimeoutFired);
        device = d;
        assert_eq!(device.get_fcnt_up(), Some(expected));
    }
}

#[test]
fn unconsumed_downlink_is_overwritten_by_new_arrival() {
    // latest wins: a staged join accept still unconsumed is replaced when a
    // data downlink arrives
    let device = otaa_device();
    let (device, _) = device.handle_event(Event::NewSessionRequest);
    let accept = make_join_accept(APPKEY);
    let (device, res) = device.handle_event(Event::RadioEvent(&accept));
    assert_eq!(res, Ok(Response::JoinSuccess));

    let keys = device.get_session_keys().unwrap();
    let (device, res) = device.send(b"up", 1, false);
    assert_eq!(res, Ok(Response::UplinkSending(1)));
    let frame = make_downlink(b"down", 0, keys.newskey, keys.appskey);
    let (mut device, res) = device.handle_event(Event::RadioEvent(&frame));
    assert_eq!(res, Ok(Response::DownlinkReceived(0)));

    // the join accept was never taken; the slot now holds the data downlink
    assert!(device.take_join_accept().is_none());
    // taking the join accept cleared the slot entirely, so the data is gone
    assert!(device.take_data_downlink().is_none());
}

#[test]
fn uplink_frame_on_air_matches_session() {
    let device = abp_device();
    let (mut device, _) = device.send(b"hello", 1, false);
    let sent = device.get_radio().sent.clone();
    assert_eq!(sent.len(), 1);
    // the transmitted bytes parse as an unconfirmed uplink for our address
    match lorawan::parser::parse(sent[0].clone()) {
        Ok(lorawan::parser::PhyPayload::Data(lorawan::parser::DataPayload::Encrypted(p))) => {
            assert!(p.is_uplink());
            assert!(p.validate_mic(&lorawan::keys::AES128(NEWSKEY), 0));
            let fhdr = p.fhdr();
            assert_eq!(fhdr.dev_addr().as_ref(), &DEVADDR);
        },
        _ => panic!("expected an encrypted data payload"),
    }
}

#[test]
fn datarate_and_credentials_accessors_pass_through() {
    let mut device = otaa_device();
    assert_eq!(device.get_datarate(), 0);
    device.set_datarate(3);
    assert_eq!(device.get_datarate(), 3);
    let creds = device.get_credentials().clone().unwrap();
    assert_eq!(creds.deveui, DEVEUI);
    assert_eq!(creds.appeui, APPEUI);
    assert_eq!(creds.appkey, APPKEY);
    *device.get_credentials() = Some(Credentials::new([0; 8], [0; 8], [0; 16]));
    assert_eq!(device.get_credentials().unwrap().appeui, [0; 8]);
}

#[test]
fn window_delay_clamps_to_timestamp_range() {
    assert_eq!(window_delay(2000, 500), 2500);
    assert_eq!(window_delay(2000, -500), 1500);
    assert_eq!(window_delay(2000, -3000), 0);
    assert_eq!(window_delay(u32::MAX, 5), u32::MAX);
    assert_eq!(window_delay(2000, i32::MIN), 0);
}

#[test]
fn taking_the_wrong_kind_clears_the_slot() {
    // the take operations clear the slot whatever it held
    let device = otaa_device();
    let (device, _) = device.handle_event(Event::NewSessionRequest);
    let accept = make_join_accept(APPKEY);
    let (mut device, res) = device.handle_event(Event::RadioEvent(&accept));
    assert_eq!(res, Ok(Response::JoinSuccess));
    assert!(device.take_data_downlink().is_none());
    assert!(device.take_join_accept().is_none());
}
