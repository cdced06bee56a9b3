use vstd::prelude::*;

verus! {

/// Addressing details of a live tunnel, as reported over IPC; every field
/// is optional on the wire.
#[derive(Debug)]
pub struct IpInfo {
    pub addr: Option<String>,
    pub netmask: Option<String>,
    pub addr6: Option<String>,
    pub netmask6: Option<String>,
    pub dns: [Option<String>; 3],
    pub nbns: [Option<String>; 3],
    pub domain: Option<String>,
    pub proxy_pac: Option<String>,
    pub mtu: i32,
    pub gateway_addr: Option<String>,
}

/// One request a client process sends to the daemon.
#[derive(Debug)]
pub enum JsonRequest {
    Start { name: String, server: String, allow_insecure: bool, cookie: String },
    Stop,
    Info,
}

/// One response the daemon sends back; requests and responses pair up by
/// position on a connection.
#[derive(Debug)]
pub enum JsonResponse {
    StartResult { name: String, success: bool, err_message: Option<String> },
    StopResult { name: String },
    InfoResult {
        server_name: String,
        server_url: String,
        hostname: String,
        status: String,
        info: Option<Box<IpInfo>>,
    },
}

/// A failure of the local control endpoint.
#[derive(Debug)]
pub enum SockError {
    Io(String),
    NoValidConnection,
    AddressInUse,
}

/// Binding is allowed only when the endpoint path does not exist yet: an
/// existing path means a daemon is (or was) running there, and it is never
/// silently taken over.
pub fn bind_guard(endpoint_exists: bool) -> (r: Result<(), SockError>)
    ensures
        r is Ok <==> !endpoint_exists,
        endpoint_exists ==> r == Err::<(), SockError>(SockError::AddressInUse),
{
    if endpoint_exists {
        Err(SockError::AddressInUse)
    } else {
        Ok(())
    }
}

/// The largest payload one frame can carry.
pub const MAX_FRAME_LEN: usize = 0xffff_ffff;

/// The length a frame header announces: four bytes, big-endian.
pub open spec fn spec_header_len(buf: Seq<u8>) -> int {
    buf[0] * 0x100_0000 + buf[1] * 0x1_0000 + buf[2] * 0x100 + buf[3]
}

/// One frame of the wire format: a four-byte big-endian length prefix,
/// then exactly that many payload bytes.
pub open spec fn spec_frame(payload: Seq<u8>) -> Seq<u8> {
    let len = payload.len() as int;
    seq![
        ((len / 0x100_0000) % 0x100) as u8,
        ((len / 0x1_0000) % 0x100) as u8,
        ((len / 0x100) % 0x100) as u8,
        (len % 0x100) as u8,
    ] + payload
}

/// The header of a frame announces exactly its payload's length, whatever
/// follows the frame in the buffer.
pub proof fn lemma_frame_round_trip(payload: Seq<u8>, rest: Seq<u8>)
    requires
        payload.len() <= MAX_FRAME_LEN,
    ensures
        (spec_frame(payload) + rest).len() == payload.len() + 4 + rest.len(),
        spec_header_len(spec_frame(payload) + rest) == payload.len(),
        (spec_frame(payload) + rest).subrange(4, payload.len() as int + 4) == payload,
{
    let len = payload.len() as int;
    let whole = spec_frame(payload) + rest;
    assert(whole[0] == ((len / 0x100_0000) % 0x100) as u8);
    assert(whole[1] == ((len / 0x1_0000) % 0x100) as u8);
    assert(whole[2] == ((len / 0x100) % 0x100) as u8);
    assert(whole[3] == (len % 0x100) as u8);
    assert(spec_header_len(whole) == len) by {
        lemma_u32_bytes(len);
    }
    assert(whole.subrange(4, len + 4) =~= payload);
}

/// A value below 2^32 is the big-endian combination of its four bytes.
proof fn lemma_u32_bytes(len: int)
    requires
        0 <= len <= 0xffff_ffff,
    ensures
        ((len / 0x100_0000) % 0x100) * 0x100_0000 + ((len / 0x1_0000) % 0x100) * 0x1_0000 + ((len
            / 0x100) % 0x100) * 0x100 + (len % 0x100) == len,
{
    assert(((len / 0x100_0000) % 0x100) * 0x100_0000 + ((len / 0x1_0000) % 0x100) * 0x1_0000 + ((
    len / 0x100) % 0x100) * 0x100 + (len % 0x100) == len) by (nonlinear_arith)
        requires
            0 <= len <= 0xffff_ffff,
    ;
}

/// Encodes one frame: the payload's length as four big-endian bytes, then
/// the payload.
pub fn encode_frame(payload: &Vec<u8>) -> (r: Vec<u8>)
    requires
        payload@.len() <= MAX_FRAME_LEN,
    ensures
        r@ == spec_frame(payload@),
{
    let len = payload.len();
    let mut r: Vec<u8> = Vec::new();
    r.push(((len / 0x100_0000) % 0x100) as u8);
    r.push(((len / 0x1_0000) % 0x100) as u8);
    r.push(((len / 0x100) % 0x100) as u8);
    r.push((len % 0x100) as u8);
    let n = payload.len();
    let mut i: usize = 0;
    while i < n
        invariant
            n == payload@.len(),
            0 <= i <= n,
            r@.len() == 4 + i,
            forall|j: int| 0 <= j < 4 ==> r@[j] == spec_frame(payload@)[j],
            forall|j: int| 0 <= j < i ==> r@[4 + j] == payload@[j],
        decreases n - i,
    {
        r.push(payload[i]);
        i = i + 1;
    }
    proof {
        assert(r@ =~= spec_frame(payload@));
    }
    r
}

/// Decodes the first frame of `buf`, if a whole one has arrived: returns
/// the payload and how many bytes the frame took. An incomplete header or
/// payload is `None`, and the caller waits for more bytes.
pub fn parse_frame(buf: &Vec<u8>) -> (r: Option<(Vec<u8>, usize)>)
    ensures
        r is Some <==> buf@.len() >= 4 && spec_header_len(buf@) + 4 <= buf@.len(),
        r matches Some((payload, consumed)) ==> {
            &&& consumed == spec_header_len(buf@) + 4
            &&& payload@ == buf@.subrange(4, consumed as int)
        },
{
    if buf.len() < 4 {
        return None;
    }
    let b0 = buf[0] as usize;
    let b1 = buf[1] as usize;
    let b2 = buf[2] as usize;
    let b3 = buf[3] as usize;
    let len = b0 * 0x100_0000 + b1 * 0x1_0000 + b2 * 0x100 + b3;
    proof {
        assert(len == spec_header_len(buf@));
    }
    if buf.len() < 4 || buf.len() - 4 < len {
        return None;
    }
    let total = buf.len();
    let mut payload: Vec<u8> = Vec::new();
    let mut i: usize = 0;
    while i < len
        invariant
            total == buf@.len(),
            len + 4 <= total,
            0 <= i <= len,
            payload@.len() == i,
            forall|j: int| 0 <= j < i ==> payload@[j] == buf@[4 + j],
        decreases len - i,
    {
        payload.push(buf[4 + i]);
        i = i + 1;
    }
    proof {
        assert(payload@ =~= buf@.subrange(4, len + 4));
    }
    Some((payload, len + 4))
}

} // verus!
