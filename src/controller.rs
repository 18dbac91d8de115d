use vstd::prelude::*;

use crate::handle::{handle_of, release, Handle};
use crate::status::{start_error_of, start_outcome, StartError, ERROR_SUCCESS};

verus! {

/// Byte size of the fixed session properties header; the session name follows it.
pub const HEADER_SIZE: u32 = 120;

/// Offset of the header field that holds the block's total size.
pub const BUFFER_SIZE_OFFSET: usize = 0;

/// Offset of the field that tells where the session name starts.
pub const LOGGER_NAME_OFFSET_OFFSET: usize = 116;

/// Header flag: the header names a traced provider.
pub const WNODE_FLAG_TRACED_GUID: u32 = 0x0002_0000;

/// Enable flag: trace process creation and exit.
pub const EVENT_TRACE_FLAG_PROCESS: u32 = 1;

/// Log mode: deliver events in real time.
pub const EVENT_TRACE_REAL_TIME_MODE: u32 = 0x100;

/// Log mode: a system logger session.
pub const EVENT_TRACE_SYSTEM_LOGGER_MODE: u32 = 0x0200_0000;

/// The little-endian bytes of `v`.
pub open spec fn le_bytes(v: u32) -> Seq<u8> {
    seq![
        (v % 256) as u8,
        ((v / 256) % 256) as u8,
        ((v / 65536) % 256) as u8,
        (v / 16777216) as u8,
    ]
}

/// `n` zero bytes.
pub open spec fn zeros(n: nat) -> Seq<u8> {
    Seq::new(n, |i: int| 0u8)
}

/// The identity of the system trace provider, {9e814aad-3204-11d2-9a82-006008a86939},
/// in its in-memory layout.
pub open spec fn system_trace_guid() -> Seq<u8> {
    seq![
        0xadu8, 0x4au8, 0x81u8, 0x9eu8, 0x04u8, 0x32u8, 0xd2u8, 0x11u8,
        0x9au8, 0x82u8, 0x00u8, 0x60u8, 0x08u8, 0xa8u8, 0x69u8, 0x39u8,
    ]
}

/// The fixed header of a properties block of `total` bytes: a real-time,
/// system-logger session of the system trace provider, tracing processes,
/// whose name starts right after the header. Every other field is zero.
pub open spec fn header_image(total: u32) -> Seq<u8> {
    // buffer size; provider id, historical context and timestamp
    le_bytes(total) + zeros(20)
    // provider identity, client context, header flags
    + system_trace_guid() + le_bytes(1) + le_bytes(WNODE_FLAG_TRACED_GUID)
    // buffer size, minimum and maximum buffers, maximum file size
    + zeros(16)
    // log file mode, flush timer, enable flags
    + le_bytes(EVENT_TRACE_REAL_TIME_MODE | EVENT_TRACE_SYSTEM_LOGGER_MODE) + zeros(4)
        + le_bytes(EVENT_TRACE_FLAG_PROCESS)
    // age limit, buffer and loss counters, logger thread id
    + zeros(36)
    // log file name offset (none), logger name offset
    + le_bytes(0) + le_bytes(HEADER_SIZE)
}

/// The properties block for a session named `name` (its bytes with the
/// terminating zero): the header, then the name.
pub open spec fn properties_image(name: Seq<u8>) -> Seq<u8> {
    header_image((HEADER_SIZE + name.len()) as u32) + name
}

fn push_le(v: &mut Vec<u8>, x: u32)
    ensures
        final(v)@ == old(v)@ + le_bytes(x),
{
    v.push((x % 256) as u8);
    v.push(((x / 256) % 256) as u8);
    v.push(((x / 65536) % 256) as u8);
    v.push((x / 16777216) as u8);
    assert(final(v)@ =~= old(v)@ + le_bytes(x));
}

fn push_zeros(v: &mut Vec<u8>, n: usize)
    ensures
        final(v)@ == old(v)@ + zeros(n as nat),
{
    let ghost start = v@;
    let mut i: usize = 0;
    while i < n
        invariant
            i <= n,
            v@ =~= start + zeros(i as nat),
        decreases n - i,
    {
        v.push(0u8);
        i = i + 1;
        assert(v@ =~= start + zeros(i as nat));
    }
}

fn push_bytes(v: &mut Vec<u8>, s: &Vec<u8>)
    ensures
        final(v)@ == old(v)@ + s@,
{
    let ghost start = v@;
    let mut i: usize = 0;
    while i < s.len()
        invariant
            i <= s.len(),
            v@ =~= start + s@.subrange(0, i as int),
        decreases s.len() - i,
    {
        v.push(s[i]);
        i = i + 1;
        assert(v@ =~= start + s@.subrange(0, i as int));
    }
    assert(s@.subrange(0, s@.len() as int) =~= s@);
}

/// Builds the properties block that starting and stopping a session named
/// `name` needs: the fixed header followed by the name bytes. The header's
/// name offset equals the header size, and its total size field equals the
/// header size plus the name's length.
pub fn properties_block(name: &Vec<u8>) -> (r: Vec<u8>)
    requires
        name@.len() + HEADER_SIZE <= u32::MAX,
    ensures
        r@ == properties_image(name@),
        r@.len() == HEADER_SIZE + name@.len(),
        r@.subrange(LOGGER_NAME_OFFSET_OFFSET as int, LOGGER_NAME_OFFSET_OFFSET + 4) == le_bytes(
            HEADER_SIZE,
        ),
        r@.subrange(BUFFER_SIZE_OFFSET as int, BUFFER_SIZE_OFFSET + 4) == le_bytes(
            r@.len() as u32,
        ),
        r@.subrange(HEADER_SIZE as int, r@.len() as int) == name@,
{
    let total: u32 = HEADER_SIZE + name.len() as u32;
    let mut v: Vec<u8> = Vec::new();
    push_le(&mut v, total);
    push_zeros(&mut v, 20);
    let guid: Vec<u8> = vec![
        0xadu8, 0x4au8, 0x81u8, 0x9eu8, 0x04u8, 0x32u8, 0xd2u8, 0x11u8,
        0x9au8, 0x82u8, 0x00u8, 0x60u8, 0x08u8, 0xa8u8, 0x69u8, 0x39u8,
    ];
    assert(guid@ =~= system_trace_guid());
    push_bytes(&mut v, &guid);
    push_le(&mut v, 1);
    push_le(&mut v, WNODE_FLAG_TRACED_GUID);
    push_zeros(&mut v, 16);
    push_le(&mut v, EVENT_TRACE_REAL_TIME_MODE | EVENT_TRACE_SYSTEM_LOGGER_MODE);
    push_zeros(&mut v, 4);
    push_le(&mut v, EVENT_TRACE_FLAG_PROCESS);
    push_zeros(&mut v, 36);
    push_le(&mut v, 0);
    push_le(&mut v, HEADER_SIZE);
    assert(v@ =~= header_image(total));
    assert(v@.len() == HEADER_SIZE);
    push_bytes(&mut v, name);
    assert(v@ =~= properties_image(name@));
    assert(v@.subrange(116, 120) =~= le_bytes(HEADER_SIZE));
    assert(v@.subrange(0, 4) =~= le_bytes(total));
    assert(v@.subrange(HEADER_SIZE as int, v@.len() as int) =~= name@);
    v
}

} // verus!

verus! {

/// The control side of a trace session: its name, the properties block the
/// operating system reads while the session runs, and the control handle.
pub struct Controller {
    session_name: Vec<u8>,
    properties: Vec<u8>,
    handle: Handle,
}

/// The control handle after a start call answered `status` with `raw`.
pub open spec fn handle_after_start(h: Handle, status: u32, raw: u64) -> Handle {
    if status == ERROR_SUCCESS {
        handle_of(raw)
    } else {
        h
    }
}

impl Controller {
    /// The session name bytes, terminating zero included.
    pub closed spec fn name(&self) -> Seq<u8> {
        self.session_name@
    }

    /// The properties block.
    pub closed spec fn block(&self) -> Seq<u8> {
        self.properties@
    }

    /// The control handle.
    pub closed spec fn control(&self) -> Handle {
        self.handle
    }

    /// The block is the image of the name: it is never changed after it was built.
    pub open spec fn wf(&self) -> bool {
        self.block() == properties_image(self.name())
    }

    /// A controller for the session named `session_name` (its bytes with the
    /// terminating zero), with its properties block built and no session yet.
    pub fn new(session_name: &Vec<u8>) -> (r: Controller)
        requires
            session_name@.len() + HEADER_SIZE <= u32::MAX,
        ensures
            r.wf(),
            r.name() == session_name@,
            r.control() == Handle::Closed,
    {
        let properties = properties_block(session_name);
        Controller { session_name: session_name.clone(), properties, handle: Handle::Closed }
    }

    /// The session name bytes, terminating zero included.
    pub fn session_name(&self) -> (r: &Vec<u8>)
        ensures
            r@ == self.name(),
    {
        &self.session_name
    }

    /// The properties block to hand to the start and stop calls.
    pub fn properties(&self) -> (r: &Vec<u8>)
        ensures
            r@ == self.block(),
    {
        &self.properties
    }

    /// Whether a started session is held.
    pub fn is_started(&self) -> (r: bool)
        ensures
            r <==> self.control() is Open,
    {
        self.handle.is_open()
    }

    /// Records what the start call answered: `status`, and the control handle
    /// `raw` it wrote. On success the handle is held, unless `raw` is zero or
    /// the invalid value, which hold nothing to stop; otherwise nothing changes
    /// and the status is mapped to its error.
    pub fn record_start(&mut self, status: u32, raw: u64) -> (r: Result<(), StartError>)
        ensures
            r is Ok <==> status == ERROR_SUCCESS,
            r is Err ==> Some(r->Err_0) == start_error_of(status),
            final(self).control() == handle_after_start(old(self).control(), status, raw),
            final(self).name() == old(self).name(),
            final(self).block() == old(self).block(),
    {
        let r = start_outcome(status);
        if r.is_ok() {
            self.handle = Handle::from_raw(raw);
        }
        r
    }

    /// The handle to stop the session with, once: afterwards nothing is held,
    /// and a second call returns `None`.
    pub fn take_stop(&mut self) -> (r: Option<u64>)
        ensures
            r == release(old(self).control()).0,
            final(self).control() == release(old(self).control()).1,
            final(self).name() == old(self).name(),
            final(self).block() == old(self).block(),
    {
        self.handle.take()
    }
}

/// A session that started successfully with a handle value that is neither
/// zero nor the invalid value holds that handle; stopping it hands that handle
/// out once, and stopping it again is a no-op.
pub proof fn lemma_started_session_stops_once(h: Handle, raw: u64)
    requires
        raw != 0,
        raw != u64::MAX,
    ensures
        handle_after_start(h, ERROR_SUCCESS, raw) == Handle::Open(raw),
        release(handle_after_start(h, ERROR_SUCCESS, raw)).0 == Some(raw),
        release(release(handle_after_start(h, ERROR_SUCCESS, raw)).1) == (
        None::<u64>,
        Handle::Closed,
        ),
{
}

} // verus!
