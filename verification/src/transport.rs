//! The device transport abstraction: what the device I/O loop needs from a
//! report channel, and a scripted mock of it for tests. The real transport
//! lives with the I/O runtime; the mock replays queued reads and records
//! writes.

use vstd::prelude::*;

verus! {

use crate::hid::{HidCommand, HidError, REPORT_SIZE};

/// Report I/O as the device loop consumes it. The runtime implements this
/// over the real device; [`MockHidTransport`] replays scripted traffic.
pub trait HidTransport {
    /// Read one report, waiting at most `timeout_ms` milliseconds. An empty
    /// result means the wait timed out; the report never includes the
    /// report-id byte.
    fn read_timeout(&mut self, timeout_ms: i32) -> Result<Vec<u8>, HidError>;

    /// Write one payload (the transport prepends the report-id byte).
    /// Returns the number of bytes written, report-id included.
    fn write(&mut self, data: &[u8; REPORT_SIZE]) -> Result<usize, HidError>;

    /// The device serial number, if available.
    fn get_serial(&self) -> Option<String>;
}

/// Copy a byte vector, preserving its value exactly.
fn clone_bytes(v: &Vec<u8>) -> (r: Vec<u8>)
    ensures
        r@ == v@,
{
    let mut out: Vec<u8> = Vec::new();
    let n = v.len();
    let mut i: usize = 0;
    while i < n
        invariant
            n == v@.len(),
            i <= n,
            out@ =~= v@.take(i as int),
        decreases n - i,
    {
        out.push(v[i]);
        i = i + 1;
        proof {
            assert(out@ =~= v@.take(i as int));
        }
    }
    proof {
        assert(v@.take(n as int) =~= v@);
    }
    out
}

/// A scripted transport for tests: queued read responses are replayed in
/// order (an empty response is a timeout), and every write is recorded.
#[derive(Debug)]
pub struct MockHidTransport {
    /// Queued read responses, next first.
    pub reads: Vec<Result<Vec<u8>, HidError>>,
    /// Every payload written so far, in order.
    pub writes: Vec<Vec<u8>>,
    /// The serial the mock reports.
    pub serial: Option<String>,
}

impl MockHidTransport {
    /// An empty mock: no scripted reads, no writes, no serial.
    pub fn new() -> (r: Self)
        ensures
            r.reads@.len() == 0,
            r.writes@.len() == 0,
            r.serial is None,
    {
        MockHidTransport { reads: Vec::new(), writes: Vec::new(), serial: None }
    }

    /// The same mock reporting a serial number.
    pub fn with_serial(self, serial: &str) -> (r: Self)
        ensures
            r.reads == self.reads,
            r.writes == self.writes,
            r.serial matches Some(s) && s@ == serial@,
    {
        MockHidTransport { serial: Some(serial.to_owned()), ..self }
    }

    /// Queue a successful read response.
    pub fn queue_read(&mut self, data: Vec<u8>)
        ensures
            final(self).reads@ == old(self).reads@.push(Ok(data)),
            final(self).writes == old(self).writes,
            final(self).serial == old(self).serial,
    {
        self.reads.push(Ok(data));
    }

    /// Queue a timeout response (no bytes read).
    pub fn queue_timeout(&mut self)
        ensures
            final(self).reads@.len() == old(self).reads@.len() + 1,
            final(self).reads@.last() matches Ok(data) && data@.len() == 0,
            forall|i: int| 0 <= i < old(self).reads@.len() ==> #[trigger] final(self).reads@[i]
                == old(self).reads@[i],
            final(self).writes == old(self).writes,
            final(self).serial == old(self).serial,
    {
        self.reads.push(Ok(Vec::new()));
    }

    /// Queue a read error.
    pub fn queue_read_error(&mut self, msg: &str)
        ensures
            final(self).reads@.len() == old(self).reads@.len() + 1,
            final(self).reads@.last() matches Err(e) && (e matches HidError::Io(m) && m@ == msg@),
            forall|i: int| 0 <= i < old(self).reads@.len() ==> #[trigger] final(self).reads@[i]
                == old(self).reads@[i],
            final(self).writes == old(self).writes,
            final(self).serial == old(self).serial,
    {
        self.reads.push(Err(HidError::Io(msg.to_owned())));
    }

    /// All payloads written to the mock so far, in order, byte for byte.
    pub fn get_writes(&self) -> (r: Vec<Vec<u8>>)
        ensures
            r@.len() == self.writes@.len(),
            forall|i: int| 0 <= i < r@.len() ==> (#[trigger] r@[i])@ == self.writes@[i]@,
    {
        let mut out: Vec<Vec<u8>> = Vec::new();
        let n = self.writes.len();
        let mut i: usize = 0;
        while i < n
            invariant
                n == self.writes@.len(),
                i <= n,
                out@.len() == i,
                forall|k: int| 0 <= k < i ==> (#[trigger] out@[k])@ == self.writes@[k]@,
            decreases n - i,
        {
            out.push(clone_bytes(&self.writes[i]));
            i = i + 1;
        }
        out
    }
}

impl HidTransport for MockHidTransport {
    /// Replay the next scripted response; with the script exhausted, time
    /// out.
    fn read_timeout(&mut self, timeout_ms: i32) -> Result<Vec<u8>, HidError> {
        if self.reads.len() == 0 {
            return Ok(Vec::new());
        }
        self.reads.remove(0)
    }

    /// Record the payload and report a full write (payload plus report id).
    fn write(&mut self, data: &[u8; REPORT_SIZE]) -> Result<usize, HidError> {
        let mut copy: Vec<u8> = Vec::new();
        let mut i: usize = 0;
        while i < REPORT_SIZE
            invariant
                i <= REPORT_SIZE,
                copy@ =~= data@.take(i as int),
            decreases REPORT_SIZE - i,
        {
            copy.push(data[i]);
            i = i + 1;
            proof {
                assert(copy@ =~= data@.take(i as int));
            }
        }
        self.writes.push(copy);
        Ok(REPORT_SIZE + 1)
    }

    fn get_serial(&self) -> Option<String> {
        crate::audio::clone_opt_string(&self.serial)
    }
}

/// Upper bound on the reports drained after init.
pub const DRAIN_LIMIT: usize = 256;

/// Drain the burst of stale position reports a device sends in response to
/// the init command, so they cause no false change events. Stops at the
/// first timeout or error, or after [`DRAIN_LIMIT`] reports. Returns how
/// many reports were discarded.
pub fn drain_stale_reports<T: HidTransport>(transport: &mut T) -> (r: usize)
    ensures
        r <= DRAIN_LIMIT,
{
    let mut count: usize = 0;
    while count < DRAIN_LIMIT
        invariant
            count <= DRAIN_LIMIT,
        decreases DRAIN_LIMIT - count,
    {
        match transport.read_timeout(50) {
            Ok(data) => {
                if data.len() == 0 {
                    return count;
                }
                count = count + 1;
            },
            Err(_) => {
                return count;
            },
        }
    }
    count
}

/// Best-effort blanking of every LED zone: write the all-off sequence,
/// ignoring write errors.
pub fn send_all_off<T: HidTransport>(transport: &mut T) {
    let cmds = HidCommand::all_off_sequence();
    let mut i: usize = 0;
    while i < cmds.len()
        decreases cmds@.len() - i,
    {
        let payload = cmds[i].encode();
        let _ = transport.write(&payload);
        i = i + 1;
    }
}

} // verus!
