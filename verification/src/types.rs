use vstd::prelude::*;

verus! {

/// Join identity of a device: device EUI, join EUI and the root key used to
/// derive session keys during a network-assisted join handshake.
#[derive(Clone, Copy)]
pub struct Credentials {
    pub deveui: [u8; 8],
    pub appeui: [u8; 8],
    pub appkey: [u8; 16],
}

impl Credentials {
    pub fn new(appeui: [u8; 8], deveui: [u8; 8], appkey: [u8; 16]) -> (r: Credentials)
        ensures
            r == (Credentials { deveui, appeui, appkey }),
    {
        Credentials { deveui, appeui, appkey }
    }
}

/// Key material and frame counters of an active session.  Both counters start
/// at zero when the session is created.
#[derive(Clone, Copy)]
pub struct SessionData {
    pub newskey: [u8; 16],
    pub appskey: [u8; 16],
    pub devaddr: [u8; 4],
    pub fcnt_up: u32,
    pub fcnt_down: u32,
}

impl SessionData {
    pub fn new(newskey: [u8; 16], appskey: [u8; 16], devaddr: [u8; 4]) -> (r: SessionData)
        ensures
            r == (SessionData { newskey, appskey, devaddr, fcnt_up: 0, fcnt_down: 0 }),
    {
        SessionData { newskey, appskey, devaddr, fcnt_up: 0, fcnt_down: 0 }
    }

    pub fn fcnt_up(&self) -> (r: u32)
        ensures
            r == self.fcnt_up,
    {
        self.fcnt_up
    }
}

/// A read-only copy of the keys and address of an active session.
#[derive(Clone, Copy)]
pub struct SessionKeys {
    pub newskey: [u8; 16],
    pub appskey: [u8; 16],
    pub devaddr: [u8; 4],
}

impl SessionKeys {
    pub fn copy_from_session_data(sd: &SessionData) -> (r: SessionKeys)
        ensures
            r == (SessionKeys { newskey: sd.newskey, appskey: sd.appskey, devaddr: sd.devaddr }),
    {
        SessionKeys { newskey: sd.newskey, appskey: sd.appskey, devaddr: sd.devaddr }
    }
}

} // verus!
