//! The credentials and client state for the Rithmic API, and the framing of its messages:
//! each message travels as its length in four big-endian bytes followed by its bytes.
use vstd::prelude::*;

verus! {

/// What a Rithmic connection logs in with.
#[derive(Debug, PartialEq, Eq)]
pub struct Credentials {
    pub uri: String,
    pub user: String,
    pub system_name: String,
    pub password: String,
    pub app_name: String,
    pub app_version: String,
    pub aggregated_quotes: bool,
    pub template_version: String,
    pub pem: String,
    pub base_url: String,
}

/// A client of the Rithmic API; the server uses big-endian binary data.
#[derive(Debug, PartialEq, Eq)]
pub struct RithmicApiClient {
    credentials: Credentials,
}

impl RithmicApiClient {
    pub fn new(credentials: Credentials) -> (r: Self)
        ensures
            r.spec_credentials() == credentials,
    {
        Self { credentials }
    }

    pub closed spec fn spec_credentials(&self) -> Credentials {
        self.credentials
    }

    /// The credentials the client logs in with.
    pub fn credentials(&self) -> (r: &Credentials)
        ensures
            *r == self.spec_credentials(),
    {
        &self.credentials
    }
}


/// `n` as four big-endian bytes.
pub open spec fn be_bytes(n: u32) -> Seq<u8> {
    seq![
        (n / 0x100_0000) as u8,
        ((n / 0x1_0000) % 0x100) as u8,
        ((n / 0x100) % 0x100) as u8,
        (n % 0x100) as u8,
    ]
}

/// The number four big-endian bytes encode.
pub open spec fn be_value(b: Seq<u8>) -> int {
    b[0] * 0x100_0000 + b[1] * 0x1_0000 + b[2] * 0x100 + b[3]
}

/// A message as it is sent: its length as four big-endian bytes, then its bytes.
pub open spec fn spec_frame(payload: Seq<u8>) -> Seq<u8> {
    be_bytes(payload.len() as u32) + payload
}

/// The message a received frame carries: as many bytes after the four-byte length header
/// as the header gives, any further bytes ignored; `None` when the frame is too short for
/// its header or for the length the header gives.
pub open spec fn spec_unframe(data: Seq<u8>) -> Option<Seq<u8>> {
    if data.len() < 4 {
        None
    } else {
        let n = be_value(data.subrange(0, 4));
        if data.len() - 4 < n {
            None
        } else {
            Some(data.subrange(4, 4 + n))
        }
    }
}

/// Frames `payload` for sending: its length as four big-endian bytes, then its bytes.
pub fn frame_message(payload: &Vec<u8>) -> (r: Vec<u8>)
    requires
        payload@.len() <= u32::MAX,
    ensures
        r@ == spec_frame(payload@),
{
    let n: u32 = payload.len() as u32;
    let mut framed: Vec<u8> = Vec::new();
    framed.push((n / 0x100_0000) as u8);
    framed.push(((n / 0x1_0000) % 0x100) as u8);
    framed.push(((n / 0x100) % 0x100) as u8);
    framed.push((n % 0x100) as u8);
    let mut i: usize = 0;
    while i < payload.len()
        invariant
            i <= payload@.len(),
            framed@ == be_bytes(n) + payload@.subrange(0, i as int),
        decreases payload@.len() - i,
    {
        framed.push(payload[i]);
        i = i + 1;
        proof {
            assert(payload@.subrange(0, i as int) =~= payload@.subrange(0, i - 1).push(
                payload@[i - 1],
            ));
        }
    }
    proof {
        assert(payload@.subrange(0, payload@.len() as int) =~= payload@);
    }
    framed
}

/// The message a received frame carries, read after its four-byte big-endian length
/// header; `None` when the frame is too short for the header or for the length it gives.
pub fn unframe_message(data: &Vec<u8>) -> (r: Option<Vec<u8>>)
    ensures
        match spec_unframe(data@) {
            Some(m) => r matches Some(v) && v@ == m,
            None => r is None,
        },
{
    if data.len() < 4 {
        return None;
    }
    let n: u64 = data[0] as u64 * 0x100_0000 + data[1] as u64 * 0x1_0000 + data[2] as u64 * 0x100
        + data[3] as u64;
    proof {
        assert(data@.subrange(0, 4)[0] == data@[0]);
        assert(data@.subrange(0, 4)[1] == data@[1]);
        assert(data@.subrange(0, 4)[2] == data@[2]);
        assert(data@.subrange(0, 4)[3] == data@[3]);
    }
    let available: u64 = (data.len() - 4) as u64;
    if available < n {
        return None;
    }
    let end: usize = 4 + n as usize;
    let mut message: Vec<u8> = Vec::new();
    let mut i: usize = 4;
    while i < end
        invariant
            4 <= i <= end,
            end <= data@.len(),
            message@ == data@.subrange(4, i as int),
        decreases end - i,
    {
        message.push(data[i]);
        i = i + 1;
        proof {
            assert(data@.subrange(4, i as int) =~= data@.subrange(4, i - 1).push(data@[i - 1]));
        }
    }
    Some(message)
}

/// What is framed is what is read back: reading a framed message gives the message.
pub proof fn law_frame_round_trip(payload: Seq<u8>)
    requires
        payload.len() <= u32::MAX,
    ensures
        spec_unframe(spec_frame(payload)) == Some(payload),
{
    let n = payload.len() as u32;
    let framed = spec_frame(payload);
    let header = framed.subrange(0, 4);
    assert(header =~= be_bytes(n));
    assert(be_value(be_bytes(n)) == n) by (nonlinear_arith)
        requires
            be_bytes(n)[0] == n / 0x100_0000,
            be_bytes(n)[1] == (n / 0x1_0000) % 0x100,
            be_bytes(n)[2] == (n / 0x100) % 0x100,
            be_bytes(n)[3] == n % 0x100,
    ;
    assert(framed.subrange(4, 4 + n) =~= payload);
}

} // verus!
