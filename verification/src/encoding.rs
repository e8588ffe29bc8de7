use vstd::prelude::*;

use lorawan::creator::{DataPayloadCreator, JoinRequestCreator};
use lorawan::default_crypto::DefaultFactory;
use lorawan::keys::{AppKey, AppSKey, NewSKey, AES128};
use lorawan::parser::{CfList, DataHeader, DevNonce, EncryptedDataPayload, EncryptedJoinAcceptPayload, FRMPayload};

verus! {

/// Session parameters carried by a valid join-accept frame: the derived
/// session keys, the assigned device address and the optional channel list.
/// A fixed-channel mask, which carries no frequencies, is reported as an
/// absent channel list.
pub struct JoinAcceptInfo {
    pub newskey: [u8; 16],
    pub appskey: [u8; 16],
    pub devaddr: [u8; 4],
    pub cflist: Option<[u32; 5]>,
}

/// Header fields of a data frame, read before any key is applied.
pub struct DataHeaderInfo {
    pub uplink: bool,
    pub confirmed: bool,
    pub devaddr: [u8; 4],
    pub fcnt: u16,
    pub ack: bool,
}

/// What lorawan::creator::JoinRequestCreator::build returns for this identity,
/// root key and device nonce.
pub uninterp spec fn join_request_frame(deveui: Seq<u8>, appeui: Seq<u8>, appkey: Seq<u8>, devnonce: u16) -> Seq<u8>;

/// Relies on lorawan::creator::JoinRequestCreator: fills the 23-byte
/// join-request frame for this identity and nonce and sets its MIC with the
/// root key; the result depends on the arguments alone.
#[verifier::external_body]
pub(crate) fn build_join_request(deveui: &[u8; 8], appeui: &[u8; 8], appkey: &[u8; 16], devnonce: u16) -> (r: Vec<u8>)
    ensures
        r@ == join_request_frame(deveui@, appeui@, appkey@, devnonce),
        r@.len() == 23,
{
    let mut phy: JoinRequestCreator<[u8; 23], DefaultFactory> =
        JoinRequestCreator::with_options([0u8; 23], DefaultFactory).unwrap();
    phy.set_app_eui(appeui);
    phy.set_dev_eui(deveui);
    phy.set_dev_nonce(devnonce);
    phy.build(&AppKey::from(*appkey)).to_vec()
}

/// What a join-accept frame yields under this root key and device nonce:
/// the derived session parameters, or nothing when the frame does not parse
/// as a join accept or its MIC does not match the root key.
pub uninterp spec fn join_accept_of(frame: Seq<u8>, appkey: Seq<u8>, devnonce: u16) -> Option<JoinAcceptInfo>;

/// Relies on lorawan::parser::EncryptedJoinAcceptPayload: parses the frame,
/// decrypts it with the root key, checks the MIC and derives the session
/// keys for the device nonce; the result depends on the arguments alone.
#[verifier::external_body]
pub(crate) fn decode_join_accept(frame: &[u8], appkey: &[u8; 16], devnonce: u16) -> (r: Option<JoinAcceptInfo>)
    ensures
        r == join_accept_of(frame@, appkey@, devnonce),
{
    let key = AppKey::from(*appkey);
    let phy = EncryptedJoinAcceptPayload::new_with_factory(frame.to_vec(), DefaultFactory).ok()?;
    let dec = phy.decrypt(&key);
    if !dec.validate_mic(&key) {
        return None
    }
    let nonce = DevNonce::from(devnonce);
    let newskey = dec.derive_newskey(&nonce, &key).inner().0;
    let appskey = dec.derive_appskey(&nonce, &key).inner().0;
    let devaddr: [u8; 4] = dec.dev_addr().as_ref().try_into().ok()?;
    let cflist = match dec.c_f_list() {
        Some(CfList::DynamicChannel(f)) => Some(f.map(|q| q.value())),
        _ => None,
    };
    Some(JoinAcceptInfo { newskey, appskey, devaddr, cflist })
}

/// What lorawan::creator::DataPayloadCreator::build returns for this uplink
/// payload, port, confirmation flag, address, counter and session keys.
pub uninterp spec fn data_frame(data: Seq<u8>, fport: u8, confirmed: bool, devaddr: Seq<u8>, fcnt: u32, newskey: Seq<u8>, appskey: Seq<u8>) -> Seq<u8>;

/// Relies on lorawan::creator::DataPayloadCreator: builds the uplink data
/// frame, encrypting the payload with the application session key and setting
/// the MIC with the network session key; the result depends on the arguments
/// alone.  The bounds keep the frame inside the creator's 256-byte buffer and
/// away from its error returns, so the build cannot fail.
#[verifier::external_body]
pub(crate) fn build_data_frame(data: &[u8], fport: u8, confirmed: bool, devaddr: &[u8; 4], fcnt: u32, newskey: &[u8; 16], appskey: &[u8; 16]) -> (r: Vec<u8>)
    requires
        data@.len() <= 242,
        fport == 0 ==> data@.len() == 0,
    ensures
        r@ == data_frame(data@, fport, confirmed, devaddr@, fcnt, newskey@, appskey@),
        r@.len() <= 255,
{
    let mut phy = DataPayloadCreator::new();
    phy.set_uplink(true);
    phy.set_confirmed(confirmed);
    phy.set_dev_addr(devaddr);
    phy.set_fcnt(fcnt);
    phy.set_f_port(fport);
    phy.build(data, &[], &NewSKey::from(*newskey), &AppSKey::from(*appskey)).unwrap().to_vec()
}

/// What parsing the header of a data frame yields, or nothing when the bytes
/// are not a well-formed data frame.
pub uninterp spec fn data_header_of(frame: Seq<u8>) -> Option<DataHeaderInfo>;

/// Relies on lorawan::parser::EncryptedDataPayload: accepts well-formed data
/// frames and exposes their header fields; no key is involved, so the result
/// depends on the frame bytes alone.
#[verifier::external_body]
pub(crate) fn parse_data_header(frame: &[u8]) -> (r: Option<DataHeaderInfo>)
    ensures
        r == data_header_of(frame@),
{
    let phy = match EncryptedDataPayload::new_with_factory(frame.to_vec(), DefaultFactory) {
        Ok(p) => p,
        Err(_) => return None,
    };
    let (uplink, confirmed) = (phy.is_uplink(), phy.is_confirmed());
    let fhdr = phy.fhdr();
    let mut devaddr = [0u8; 4];
    devaddr.copy_from_slice(fhdr.dev_addr().as_ref());
    Some(DataHeaderInfo { uplink, confirmed, devaddr, fcnt: fhdr.fcnt(), ack: fhdr.fctrl().ack() })
}

/// The decrypted application payload of a data frame under these session keys
/// and this frame counter, or nothing when the MIC does not match.  A frame
/// whose payload carries MAC commands rather than application data yields an
/// empty payload.
pub uninterp spec fn decrypted_payload_of(frame: Seq<u8>, newskey: Seq<u8>, appskey: Seq<u8>, fcnt: u32) -> Option<Seq<u8>>;

/// Relies on lorawan::parser::EncryptedDataPayload: checks the MIC with the
/// network session key and the counter, then decrypts the payload; the result
/// depends on the arguments alone.
#[verifier::external_body]
pub(crate) fn check_and_decrypt(frame: &[u8], newskey: &[u8; 16], appskey: &[u8; 16], fcnt: u32) -> (r: Option<Vec<u8>>)
    ensures
        match r {
            Some(v) => decrypted_payload_of(frame@, newskey@, appskey@, fcnt) == Some(v@),
            None => decrypted_payload_of(frame@, newskey@, appskey@, fcnt) is None,
        },
{
    let phy = EncryptedDataPayload::new_with_factory(frame.to_vec(), DefaultFactory).ok()?;
    let nwk = AES128(*newskey);
    if !phy.validate_mic(&nwk, fcnt) {
        return None
    }
    let dec = phy.decrypt(Some(&nwk), Some(&AES128(*appskey)), fcnt).ok()?;
    match dec.frm_payload() {
        FRMPayload::Data(d) => Some(d.to_vec()),
        _ => Some(Vec::new()),
    }
}

} // verus!
