//! Client side of the IPC display protocol of the second hardware
//! generation.
//!
//! Updates are not written to a device here: every request is marshalled into
//! a fixed 516-byte message — a four-byte type discriminant followed by a
//! 512-byte payload union — and handed to an external display server over a
//! System-V message queue.  The byte layout is a hard ABI contract with that
//! server, so the encoder and decoder in this module are proved inverse to
//! each other.  The message-queue, semaphore and shared-buffer system calls
//! themselves live in the unverified shell; this module produces the exact
//! bytes to transmit, the semaphore names, and the completion deadlines that
//! those calls consume.

use vstd::prelude::*;

use crate::mxcfb::{mxcfb_update_data, push_update, read_update, update_bytes};
use crate::screeninfo::{Bitfield, FixScreeninfo, VarScreeninfo};
use crate::wire::{le4i, push_i32_le, push_zeros, read_i32_le, zeros};

verus! {

broadcast use vstd::array::group_array_axioms;

/// Well-known key of the server's System-V message queue.
pub const SWTFB_MESSAGE_QUEUE_ID: i32 = 0x2257c;

/// Panel width in pixels.
pub const WIDTH: i32 = 1404;

/// Panel height in pixels.
pub const HEIGHT: i32 = 1872;

#[allow(non_upper_case_globals)]
pub const maxWidth: i32 = 1404;

#[allow(non_upper_case_globals)]
pub const maxHeight: i32 = 1872;

/// Size in bytes of the shared display buffer: one 16-bit pixel per cell.
pub const BUF_SIZE: i32 = maxWidth * maxHeight * 2;

/// Completion-wait timeout in nanoseconds (200 ms).
pub const SEM_WAIT_TIMEOUT: i64 = 200_000_000;

/// Size in bytes of the payload union of a wire message.
pub const MSG_PAYLOAD_SIZE: usize = 512;

/// Size in bytes of a full wire message: discriminant plus payload.
pub const MSG_SIZE: usize = 516;

/// The four-byte type discriminant of a wire message.
#[derive(Clone, Copy, Debug, PartialEq, Eq, Structural)]
#[allow(non_camel_case_types)]
pub enum MSG_TYPE {
    INIT_t,
    UPDATE_t,
    XO_t,
    WAIT_t,
}

impl MSG_TYPE {
    /// The wire value of the discriminant.
    pub open spec fn spec_code(self) -> i32 {
        match self {
            MSG_TYPE::INIT_t => 1,
            MSG_TYPE::UPDATE_t => 2,
            MSG_TYPE::XO_t => 3,
            MSG_TYPE::WAIT_t => 4,
        }
    }

    /// Compute the wire value of the discriminant.
    pub fn code(&self) -> (r: i32)
        ensures
            r == self.spec_code(),
    {
        match self {
            MSG_TYPE::INIT_t => 1,
            MSG_TYPE::UPDATE_t => 2,
            MSG_TYPE::XO_t => 3,
            MSG_TYPE::WAIT_t => 4,
        }
    }
}

/// Update payload in the coordinate form the stock drawing process reports:
/// corner coordinates, waveform and flags.
#[derive(Clone, Copy, Debug, PartialEq, Eq, Structural)]
#[allow(non_camel_case_types)]
pub struct xochitl_data {
    pub x1: i32,
    pub y1: i32,
    pub x2: i32,
    pub y2: i32,
    pub waveform: i32,
    pub flags: i32,
}

/// Payload of a completion-wait message: the null-padded name of the
/// semaphore the server must post once the update is visually committed.
#[derive(Clone, Copy, Debug)]
#[allow(non_camel_case_types)]
pub struct wait_sem_data {
    pub sem_name: [u8; 512],
}

/// The payload union of a wire message, tagged by the variant actually held.
#[derive(Clone, Copy, Debug)]
#[allow(non_camel_case_types)]
pub enum swtfb_update_data {
    Init,
    Update(mxcfb_update_data),
    XochitlUpdate(xochitl_data),
    WaitUpdate(wait_sem_data),
}

/// One wire message: discriminant plus payload.
///
/// Well-formed messages carry the discriminant matching their payload; the
/// encoding below is injective on those, which is the round-trip law of the
/// protocol.
#[derive(Clone, Copy, Debug)]
#[allow(non_camel_case_types)]
pub struct swtfb_update {
    pub mtype: MSG_TYPE,
    pub data: swtfb_update_data,
}

/// The 24 payload bytes of a coordinate update: six little-endian words.
pub open spec fn xo_bytes(d: xochitl_data) -> Seq<u8> {
    le4i(d.x1) + le4i(d.y1) + le4i(d.x2) + le4i(d.y2) + le4i(d.waveform) + le4i(d.flags)
}

/// Append the 24-byte encoding of a coordinate update.
pub fn push_xo(out: &mut Vec<u8>, d: &xochitl_data)
    ensures
        final(out)@ == old(out)@ + xo_bytes(*d),
{
    push_i32_le(out, d.x1);
    push_i32_le(out, d.y1);
    push_i32_le(out, d.x2);
    push_i32_le(out, d.y2);
    push_i32_le(out, d.waveform);
    push_i32_le(out, d.flags);
    assert(final(out)@ =~= old(out)@ + xo_bytes(*d));
}

/// Read the coordinate update whose 24 bytes sit at `off`.
pub fn read_xo(b: &Vec<u8>, off: usize) -> (r: xochitl_data)
    requires
        off + 24 <= b@.len(),
    ensures
        xo_bytes(r) == b@.subrange(off as int, off as int + 24),
{
    let n = b.len();
    let r = xochitl_data {
        x1: read_i32_le(b, off),
        y1: read_i32_le(b, off + 4),
        x2: read_i32_le(b, off + 8),
        y2: read_i32_le(b, off + 12),
        waveform: read_i32_le(b, off + 16),
        flags: read_i32_le(b, off + 20),
    };
    assert(xo_bytes(r) =~= b@.subrange(off as int, off as int + 24));
    r
}

/// Two coordinate updates with the same 24-byte encoding are the same.
pub proof fn lemma_xo_bytes_injective(a: xochitl_data, b: xochitl_data)
    requires
        xo_bytes(a) == xo_bytes(b),
    ensures
        a == b,
{
    assert(xo_bytes(a).subrange(0, 4) =~= le4i(a.x1));
    assert(xo_bytes(a).subrange(4, 8) =~= le4i(a.y1));
    assert(xo_bytes(a).subrange(8, 12) =~= le4i(a.x2));
    assert(xo_bytes(a).subrange(12, 16) =~= le4i(a.y2));
    assert(xo_bytes(a).subrange(16, 20) =~= le4i(a.waveform));
    assert(xo_bytes(a).subrange(20, 24) =~= le4i(a.flags));
    assert(xo_bytes(b).subrange(0, 4) =~= le4i(b.x1));
    assert(xo_bytes(b).subrange(4, 8) =~= le4i(b.y1));
    assert(xo_bytes(b).subrange(8, 12) =~= le4i(b.x2));
    assert(xo_bytes(b).subrange(12, 16) =~= le4i(b.y2));
    assert(xo_bytes(b).subrange(16, 20) =~= le4i(b.waveform));
    assert(xo_bytes(b).subrange(20, 24) =~= le4i(b.flags));
    crate::wire::lemma_le4i_injective(a.x1, b.x1);
    crate::wire::lemma_le4i_injective(a.y1, b.y1);
    crate::wire::lemma_le4i_injective(a.x2, b.x2);
    crate::wire::lemma_le4i_injective(a.y2, b.y2);
    crate::wire::lemma_le4i_injective(a.waveform, b.waveform);
    crate::wire::lemma_le4i_injective(a.flags, b.flags);
}

impl swtfb_update {
    /// The discriminant agrees with the payload variant.
    pub open spec fn wf(self) -> bool {
        match self.data {
            swtfb_update_data::Init => self.mtype == MSG_TYPE::INIT_t,
            swtfb_update_data::Update(_) => self.mtype == MSG_TYPE::UPDATE_t,
            swtfb_update_data::XochitlUpdate(_) => self.mtype == MSG_TYPE::XO_t,
            swtfb_update_data::WaitUpdate(_) => self.mtype == MSG_TYPE::WAIT_t,
        }
    }

    /// The 512 payload bytes: the record's words, zero-padded to the size of
    /// the union.
    pub open spec fn spec_payload(self) -> Seq<u8> {
        match self.data {
            swtfb_update_data::Init => zeros(512),
            swtfb_update_data::Update(u) => update_bytes(u) + zeros(440),
            swtfb_update_data::XochitlUpdate(d) => xo_bytes(d) + zeros(488),
            swtfb_update_data::WaitUpdate(w) => w.sem_name@,
        }
    }

    /// The full 516-byte wire encoding: discriminant, then payload.
    pub open spec fn spec_encode(self) -> Seq<u8> {
        le4i(self.mtype.spec_code()) + self.spec_payload()
    }

    /// Structure of the encoding: its length, its discriminant window, and
    /// per payload variant the window of the record and the zero padding.
    pub proof fn lemma_encode_parts(self)
        ensures
            self.spec_encode().len() == 516,
            self.spec_encode().subrange(0, 4) == le4i(self.mtype.spec_code()),
            self.data is Update ==> self.spec_encode().subrange(4, 76) == update_bytes(
                self.data->Update_0,
            ),
            self.data is Update ==> forall|i: int|
                76 <= i < 516 ==> self.spec_encode()[i] == 0,
            self.data is XochitlUpdate ==> self.spec_encode().subrange(4, 28) == xo_bytes(
                self.data->XochitlUpdate_0,
            ),
            self.data is XochitlUpdate ==> forall|i: int|
                28 <= i < 516 ==> self.spec_encode()[i] == 0,
            self.data is WaitUpdate ==> self.spec_encode().subrange(4, 516)
                == self.data->WaitUpdate_0.sem_name@,
            self.data is Init ==> forall|i: int| 4 <= i < 516 ==> self.spec_encode()[i] == 0,
    {
        let e = self.spec_encode();
        assert(e.subrange(0, 4) =~= le4i(self.mtype.spec_code()));
        match self.data {
            swtfb_update_data::Init => {
                assert(e.len() == 516);
            },
            swtfb_update_data::Update(u) => {
                crate::mxcfb::lemma_update_parts(u);
                assert(e.len() == 516);
                assert(e.subrange(4, 76) =~= update_bytes(u));
                assert forall|i: int| 76 <= i < 516 implies e[i] == 0 by {
                    assert(e[i] == (update_bytes(u) + zeros(440))[i - 4]);
                }
            },
            swtfb_update_data::XochitlUpdate(d) => {
                assert(e.len() == 516);
                assert(e.subrange(4, 28) =~= xo_bytes(d));
                assert forall|i: int| 28 <= i < 516 implies e[i] == 0 by {
                    assert(e[i] == (xo_bytes(d) + zeros(488))[i - 4]);
                }
            },
            swtfb_update_data::WaitUpdate(w) => {
                assert(e.len() == 516);
                assert(e.subrange(4, 516) =~= w.sem_name@);
            },
        }
    }

    /// Marshal the message into its 516 wire bytes.
    pub fn encode(&self) -> (r: Vec<u8>)
        ensures
            r@ == self.spec_encode(),
            r@.len() == 516,
    {
        let mut out: Vec<u8> = Vec::new();
        push_i32_le(&mut out, self.mtype.code());
        match &self.data {
            swtfb_update_data::Init => {
                push_zeros(&mut out, 512);
            },
            swtfb_update_data::Update(u) => {
                push_update(&mut out, u);
                push_zeros(&mut out, 440);
            },
            swtfb_update_data::XochitlUpdate(d) => {
                push_xo(&mut out, d);
                push_zeros(&mut out, 488);
            },
            swtfb_update_data::WaitUpdate(w) => {
                let mut i: usize = 0;
                while i < 512
                    invariant
                        i <= 512,
                        out@ == le4i(self.mtype.spec_code()) + w.sem_name@.subrange(0, i as int),
                        self.data == swtfb_update_data::WaitUpdate(*w),
                    decreases 512 - i,
                {
                    out.push(w.sem_name[i]);
                    assert(out@ =~= le4i(self.mtype.spec_code()) + w.sem_name@.subrange(
                        0,
                        i + 1 as int,
                    ));
                    i = i + 1;
                }
                assert(w.sem_name@.subrange(0, 512) =~= w.sem_name@);
            },
        }
        proof {
            self.lemma_encode_parts();
            assert(out@ =~= self.spec_encode());
        }
        out
    }
}

/// True exactly when `b` is the encoding of some well-formed message.
pub open spec fn is_encoding(b: Seq<u8>) -> bool {
    exists|m: swtfb_update| m.wf() && b == #[trigger] m.spec_encode()
}

/// Check that every byte of `b` in `[from, to)` is zero.
fn is_zero_range(b: &Vec<u8>, from: usize, to: usize) -> (r: bool)
    requires
        from <= to <= b@.len(),
    ensures
        r <==> (forall|i: int| from <= i < to ==> b@[i] == 0),
{
    let mut i: usize = from;
    while i < to
        invariant
            from <= i <= to <= b@.len(),
            forall|j: int| from <= j < i ==> b@[j] == 0,
        decreases to - i,
    {
        if b[i] != 0 {
            return false;
        }
        i = i + 1;
    }
    true
}

/// Unmarshal a wire message.
///
/// Succeeds exactly on the encodings of well-formed messages, and then
/// returns the message the bytes encode; together with
/// [`lemma_encode_injective`] this is the round-trip law: decoding what
/// `encode` produced gives back the identical message.
pub fn decode(bytes: &Vec<u8>) -> (r: Option<swtfb_update>)
    ensures
        match r {
            Some(m) => m.wf() && bytes@ == m.spec_encode(),
            None => !is_encoding(bytes@),
        },
{
    let n = bytes.len();
    if n != 516 {
        proof {
            if is_encoding(bytes@) {
                let m = choose|m: swtfb_update| m.wf() && bytes@ == m.spec_encode();
                m.lemma_encode_parts();
            }
        }
        return None;
    }
    let code = read_i32_le(bytes, 0);
    proof {
        if is_encoding(bytes@) {
            let m = choose|m: swtfb_update| m.wf() && bytes@ == m.spec_encode();
            m.lemma_encode_parts();
            crate::wire::lemma_le4i_injective(code, m.mtype.spec_code());
        }
    }
    if code == 1 {
        if !is_zero_range(bytes, 4, 516) {
            proof {
                if is_encoding(bytes@) {
                    let m = choose|m: swtfb_update| m.wf() && bytes@ == m.spec_encode();
                    m.lemma_encode_parts();
                    crate::wire::lemma_le4i_injective(code, m.mtype.spec_code());
                }
            }
            return None;
        }
        let m = swtfb_update { mtype: MSG_TYPE::INIT_t, data: swtfb_update_data::Init };
        proof {
            m.lemma_encode_parts();
            assert forall|i: int| 0 <= i < 516 implies bytes@[i] == m.spec_encode()[i] by {
                if i < 4 {
                    assert(bytes@[i] == bytes@.subrange(0, 4)[i]);
                    assert(m.spec_encode()[i] == m.spec_encode().subrange(0, 4)[i]);
                }
            }
            assert(bytes@ =~= m.spec_encode());
        }
        Some(m)
    } else if code == 2 {
        let u = read_update(bytes, 4);
        if !is_zero_range(bytes, 76, 516) {
            proof {
                if is_encoding(bytes@) {
                    let m = choose|m: swtfb_update| m.wf() && bytes@ == m.spec_encode();
                    m.lemma_encode_parts();
                    crate::wire::lemma_le4i_injective(code, m.mtype.spec_code());
                }
            }
            return None;
        }
        let m = swtfb_update { mtype: MSG_TYPE::UPDATE_t, data: swtfb_update_data::Update(u) };
        proof {
            m.lemma_encode_parts();
            assert forall|i: int| 0 <= i < 516 implies bytes@[i] == m.spec_encode()[i] by {
                if i < 4 {
                    assert(bytes@[i] == bytes@.subrange(0, 4)[i]);
                    assert(m.spec_encode()[i] == m.spec_encode().subrange(0, 4)[i]);
                } else if i < 76 {
                    assert(bytes@[i] == bytes@.subrange(4, 76)[i - 4]);
                    assert(m.spec_encode()[i] == m.spec_encode().subrange(4, 76)[i - 4]);
                }
            }
            assert(bytes@ =~= m.spec_encode());
        }
        Some(m)
    } else if code == 3 {
        let d = read_xo(bytes, 4);
        if !is_zero_range(bytes, 28, 516) {
            proof {
                if is_encoding(bytes@) {
                    let m = choose|m: swtfb_update| m.wf() && bytes@ == m.spec_encode();
                    m.lemma_encode_parts();
                    crate::wire::lemma_le4i_injective(code, m.mtype.spec_code());
                }
            }
            return None;
        }
        let m = swtfb_update { mtype: MSG_TYPE::XO_t, data: swtfb_update_data::XochitlUpdate(d) };
        proof {
            m.lemma_encode_parts();
            assert forall|i: int| 0 <= i < 516 implies bytes@[i] == m.spec_encode()[i] by {
                if i < 4 {
                    assert(bytes@[i] == bytes@.subrange(0, 4)[i]);
                    assert(m.spec_encode()[i] == m.spec_encode().subrange(0, 4)[i]);
                } else if i < 28 {
                    assert(bytes@[i] == bytes@.subrange(4, 28)[i - 4]);
                    assert(m.spec_encode()[i] == m.spec_encode().subrange(4, 28)[i - 4]);
                }
            }
            assert(bytes@ =~= m.spec_encode());
        }
        Some(m)
    } else if code == 4 {
        let mut name = [0u8; 512];
        let mut i: usize = 0;
        while i < 512
            invariant
                i <= 512,
                bytes@.len() == 516,
                forall|j: int| 0 <= j < i ==> name@[j] == bytes@[4 + j],
            decreases 512 - i,
        {
            name[i] = bytes[4 + i];
            i = i + 1;
        }
        let w = wait_sem_data { sem_name: name };
        let m = swtfb_update { mtype: MSG_TYPE::WAIT_t, data: swtfb_update_data::WaitUpdate(w) };
        proof {
            m.lemma_encode_parts();
            assert(w.sem_name@ =~= bytes@.subrange(4, 516));
            assert forall|i: int| 0 <= i < 516 implies bytes@[i] == m.spec_encode()[i] by {
                if i < 4 {
                    assert(bytes@[i] == bytes@.subrange(0, 4)[i]);
                    assert(m.spec_encode()[i] == m.spec_encode().subrange(0, 4)[i]);
                } else {
                    assert(bytes@[i] == bytes@.subrange(4, 516)[i - 4]);
                    assert(m.spec_encode()[i] == m.spec_encode().subrange(4, 516)[i - 4]);
                }
            }
            assert(bytes@ =~= m.spec_encode());
        }
        Some(m)
    } else {
        proof {
            if is_encoding(bytes@) {
                let m = choose|m: swtfb_update| m.wf() && bytes@ == m.spec_encode();
                m.lemma_encode_parts();
                crate::wire::lemma_le4i_injective(code, m.mtype.spec_code());
            }
        }
        None
    }
}

/// Powers of ten, for bounding decimal digit strings.
pub open spec fn pow10(k: nat) -> nat
    decreases k,
{
    if k == 0 {
        1
    } else {
        10 * pow10((k - 1) as nat)
    }
}

/// The decimal digit string of `n`, most significant digit first.
pub open spec fn dec_digits(n: nat) -> Seq<u8>
    decreases n,
{
    if n < 10 {
        seq![(48 + n) as u8]
    } else {
        dec_digits(n / 10) + seq![(48 + n % 10) as u8]
    }
}

/// A number below `pow10(k)` has at most `k` decimal digits.
pub proof fn lemma_dec_digits_len(n: nat, k: nat)
    requires
        1 <= k,
        n < pow10(k),
    ensures
        1 <= dec_digits(n).len() <= k,
    decreases n,
{
    if n >= 10 {
        reveal_with_fuel(pow10, 2);
        if k == 1 {
            assert(pow10(1) == 10);
        }
        assert(pow10(k) == 10 * pow10((k - 1) as nat));
        vstd::arithmetic::div_mod::lemma_multiply_divide_lt(
            n as int,
            10,
            pow10((k - 1) as nat) as int,
        );
        vstd::arithmetic::div_mod::lemma_div_decreases(n as int, 10);
        lemma_dec_digits_len(n / 10, (k - 1) as nat);
    }
}

/// Append the decimal digit string of `n`.
fn push_dec(out: &mut Vec<u8>, n: u32)
    ensures
        final(out)@ == old(out)@ + dec_digits(n as nat),
    decreases n,
{
    if n < 10 {
        out.push(48 + n as u8);
        assert(final(out)@ =~= old(out)@ + dec_digits(n as nat));
    } else {
        push_dec(out, n / 10);
        out.push(48 + (n % 10) as u8);
        assert(final(out)@ =~= old(out)@ + dec_digits(n as nat));
    }
}

/// The bytes of the prefix every completion semaphore name starts with.
pub open spec fn sem_prefix() -> Seq<u8> {
    seq![47u8, 114u8, 109u8, 50u8, 102u8, 98u8, 46u8, 119u8, 97u8, 105u8, 116u8, 46u8]
}

/// The 512-byte null-padded semaphore name for the client with process id
/// `pid`: the fixed prefix, then the decimal digits of `pid`, then zeros.
pub open spec fn spec_sem_name(pid: u32) -> Seq<u8> {
    let s = sem_prefix() + dec_digits(pid as nat);
    s + zeros(512 - s.len())
}

/// Build the completion semaphore name for process id `pid`.
///
/// The name is unique per process, which keeps concurrent clients from
/// waiting on each other's completion signals.
pub fn wait_sem_name(pid: u32) -> (w: wait_sem_data)
    ensures
        w.sem_name@ == spec_sem_name(pid),
{
    let mut v: Vec<u8> = Vec::new();
    v.push(47u8);
    v.push(114u8);
    v.push(109u8);
    v.push(50u8);
    v.push(102u8);
    v.push(98u8);
    v.push(46u8);
    v.push(119u8);
    v.push(97u8);
    v.push(105u8);
    v.push(116u8);
    v.push(46u8);
    assert(v@ =~= sem_prefix());
    push_dec(&mut v, pid);
    proof {
        reveal_with_fuel(pow10, 11);
        assert(pow10(10) == 10_000_000_000);
        lemma_dec_digits_len(pid as nat, 10);
    }
    let mut name = [0u8; 512];
    let mut i: usize = 0;
    let len = v.len();
    while i < len
        invariant
            i <= len == v@.len() <= 22,
            forall|j: int| 0 <= j < i ==> name@[j] == v@[j],
            forall|j: int| i <= j < 512 ==> name@[j] == 0,
        decreases len - i,
    {
        name[i] = v[i];
        i = i + 1;
    }
    let w = wait_sem_data { sem_name: name };
    assert(w.sem_name@ =~= spec_sem_name(pid));
    w
}

/// Absolute deadline for a completion wait: `now` plus the 200 ms timeout,
/// with the nanosecond field kept normalized.  The wait that uses this
/// deadline therefore returns within a bounded time whether or not the
/// server ever signals.
pub fn wait_deadline(now_sec: i64, now_nsec: i64) -> (r: (i64, i64))
    requires
        0 <= now_nsec < 1_000_000_000,
        now_sec < i64::MAX,
    ensures
        0 <= r.1 < 1_000_000_000,
        r.0 * 1_000_000_000 + r.1 == now_sec * 1_000_000_000 + now_nsec + SEM_WAIT_TIMEOUT,
{
    let nsec = now_nsec + SEM_WAIT_TIMEOUT;
    if nsec >= 1_000_000_000 {
        (now_sec + 1, nsec - 1_000_000_000)
    } else {
        (now_sec, nsec)
    }
}

/// Process-wide activation markers: whether a primary client is already
/// active, and whether this client found itself nested under one.  The
/// unverified shell mirrors these in environment variables; the registration
/// rule itself is verified here.
#[derive(Clone, Copy, Debug, PartialEq, Eq, Structural)]
pub struct EnvMarkers {
    pub active: bool,
    pub nested: bool,
}

/// Registration rule for a new client: the first client marks itself the
/// active primary; any later client is marked nested and leaves the primary
/// marker standing.  Returns the new markers and whether the client is
/// primary.
pub open spec fn register_spec(pre: EnvMarkers) -> (EnvMarkers, bool) {
    if pre.active {
        (EnvMarkers { active: pre.active, nested: true }, false)
    } else {
        (EnvMarkers { active: true, nested: pre.nested }, true)
    }
}

impl EnvMarkers {
    /// Markers of a process no client has registered in.
    pub open spec fn spec_fresh() -> EnvMarkers {
        EnvMarkers { active: false, nested: false }
    }

    /// Build the markers of a process no client has registered in.
    pub fn fresh() -> (r: EnvMarkers)
        ensures
            r == EnvMarkers::spec_fresh(),
    {
        EnvMarkers { active: false, nested: false }
    }

    /// Register one more client, per `register_spec`.
    pub fn register(&mut self) -> (primary: bool)
        ensures
            (*final(self), primary) == register_spec(*old(self)),
    {
        if self.active {
            self.nested = true;
            false
        } else {
            self.active = true;
            true
        }
    }
}

/// Opening a client twice in a row marks the first as the active primary and
/// the second as nested, and the primary marker survives the second
/// registration.
pub proof fn lemma_second_client_nested(m0: EnvMarkers)
    requires
        m0 == EnvMarkers::spec_fresh(),
    ensures
        register_spec(m0).1,
        register_spec(m0).0.active,
        !register_spec(m0).0.nested,
        !register_spec(register_spec(m0).0).1,
        register_spec(register_spec(m0).0).0.active,
        register_spec(register_spec(m0).0).0.nested,
{
}

/// Handle on the display server: the identifier of its message queue, and
/// whether completion waits are performed at all.
///
/// The queue identifier is obtained by the unverified shell (it is the
/// result of a system call); this type owns everything about the protocol
/// that can be computed rather than performed.
pub struct SwtfbClient {
    pub msqid: i32,
    pub do_wait_ioctl: bool,
}

impl SwtfbClient {
    /// Adopt a freshly created message-queue identifier and register this
    /// client in the process-wide markers.
    ///
    /// A negative identifier means queue creation failed, which is fatal at
    /// construction time, so it is excluded here; the shell reports that
    /// failure instead of constructing a client.
    pub fn new(msqid: i32, do_wait_ioctl: bool, markers: &mut EnvMarkers) -> (c: SwtfbClient)
        requires
            msqid >= 0,
        ensures
            c.msqid == msqid,
            c.do_wait_ioctl == do_wait_ioctl,
            *final(markers) == register_spec(*old(markers)).0,
    {
        let _primary = markers.register();
        SwtfbClient { msqid, do_wait_ioctl }
    }

    /// Marshal a message for transmission on the queue: exactly the bytes
    /// the shell must hand to the send system call.
    pub fn send(&self, update: &swtfb_update) -> (bytes: Vec<u8>)
        ensures
            bytes@ == update.spec_encode(),
            bytes@.len() == 516,
    {
        update.encode()
    }

    /// Wrap an e-ink update record in an UPDATE-tagged wire message.
    pub fn send_mxcfb_update(&self, update: &mxcfb_update_data) -> (m: swtfb_update)
        ensures
            m.wf(),
            m.mtype == MSG_TYPE::UPDATE_t,
            m.data == swtfb_update_data::Update(*update),
    {
        swtfb_update { mtype: MSG_TYPE::UPDATE_t, data: swtfb_update_data::Update(*update) }
    }

    /// Wrap a coordinate update in an EXTERNAL-UPDATE-tagged wire message.
    pub fn send_xochitl_update(&self, data: &xochitl_data) -> (m: swtfb_update)
        ensures
            m.wf(),
            m.mtype == MSG_TYPE::XO_t,
            m.data == swtfb_update_data::XochitlUpdate(*data),
    {
        swtfb_update { mtype: MSG_TYPE::XO_t, data: swtfb_update_data::XochitlUpdate(*data) }
    }

    /// Wrap a semaphore name in a WAIT-tagged wire message.
    pub fn send_wait_update(&self, wait_update: &wait_sem_data) -> (m: swtfb_update)
        ensures
            m.wf(),
            m.mtype == MSG_TYPE::WAIT_t,
            m.data == swtfb_update_data::WaitUpdate(*wait_update),
    {
        swtfb_update { mtype: MSG_TYPE::WAIT_t, data: swtfb_update_data::WaitUpdate(*wait_update) }
    }

    /// Everything computable about a completion wait: the process-unique
    /// semaphore name and the WAIT message announcing it to the server.
    ///
    /// Returns nothing exactly when completion waits are configured off.  The
    /// shell transmits the message, opens the named semaphore, waits on it no
    /// longer than the deadline of [`wait_deadline`], and unlinks the name
    /// whether or not the server signalled: a timeout is a normal, if
    /// unconfirmed, outcome.
    pub fn wait_request(&self, pid: u32) -> (r: Option<(wait_sem_data, swtfb_update)>)
        ensures
            r is Some <==> self.do_wait_ioctl,
            match r {
                Some(p) => p.0.sem_name@ == spec_sem_name(pid) && p.1.wf() && p.1.mtype
                    == MSG_TYPE::WAIT_t && p.1.data == swtfb_update_data::WaitUpdate(p.0),
                None => true,
            },
    {
        if !self.do_wait_ioctl {
            return None;
        }
        let w = wait_sem_name(pid);
        let m = self.send_wait_update(&w);
        Some((w, m))
    }

    /// The fixed geometry this backend reports.  There is no device file to
    /// query: the server owns the hardware, so the values are synthesized
    /// from the known panel, and the buffer length is exactly the line
    /// stride times the panel height.
    pub fn get_fix_screeninfo(&self) -> (r: FixScreeninfo)
        ensures
            r == spec_swtfb_fix_screeninfo(),
            r.smem_len == r.line_length * (HEIGHT as u32),
            r.smem_len == BUF_SIZE as u32,
    {
        let mut info = FixScreeninfo::zeroed();
        info.smem_len = (BUF_SIZE) as u32;
        info.line_length = (WIDTH as u32) * 2;
        assert(info.smem_len == 5_256_576);
        assert(info.line_length == 2808);
        assert(2808u32 * 1872u32 == 5_256_576) by (nonlinear_arith);
        info
    }

    /// The variable geometry this backend reports: the fixed panel
    /// resolution at 16 bits per pixel with the RGB565 channel layout.
    pub fn get_var_screeninfo(&self) -> (r: VarScreeninfo)
        ensures
            r == spec_swtfb_var_screeninfo(),
    {
        let mut info = VarScreeninfo::zeroed();
        info.xres = WIDTH as u32;
        info.yres = HEIGHT as u32;
        info.grayscale = 0;
        info.bits_per_pixel = 16;
        info.xres_virtual = WIDTH as u32;
        info.yres_virtual = HEIGHT as u32;
        info.red.offset = 11;
        info.red.length = 5;
        info.green.offset = 5;
        info.green.length = 6;
        info.blue.offset = 0;
        info.blue.length = 5;
        info
    }
}

/// The fixed geometry of the IPC backend: buffer length and line stride of
/// the known panel, all device-address fields zero.
pub open spec fn spec_swtfb_fix_screeninfo() -> FixScreeninfo {
    FixScreeninfo {
        smem_start: 0,
        smem_len: 5_256_576,
        fb_type: 0,
        type_aux: 0,
        visual: 0,
        xpanstep: 0,
        ypanstep: 0,
        ywrapstep: 0,
        line_length: 2808,
        mmio_start: 0,
        mmio_len: 0,
        accel: 0,
    }
}

/// The variable geometry of the IPC backend: the fixed panel resolution in
/// RGB565.
pub open spec fn spec_swtfb_var_screeninfo() -> VarScreeninfo {
    VarScreeninfo {
        xres: 1404,
        yres: 1872,
        xres_virtual: 1404,
        yres_virtual: 1872,
        xoffset: 0,
        yoffset: 0,
        bits_per_pixel: 16,
        grayscale: 0,
        red: Bitfield { offset: 11, length: 5, msb_right: 0 },
        green: Bitfield { offset: 5, length: 6, msb_right: 0 },
        blue: Bitfield { offset: 0, length: 5, msb_right: 0 },
        transp: Bitfield::spec_zeroed(),
        nonstd: 0,
        activate: 0,
        height: 0,
        width: 0,
        accel_flags: 0,
        pixclock: 0,
        left_margin: 0,
        right_margin: 0,
        upper_margin: 0,
        lower_margin: 0,
        hsync_len: 0,
        vsync_len: 0,
        sync: 0,
        vmode: 0,
        rotate: 0,
        colorspace: 0,
    }
}

/// Round-trip law of the wire format: the encoding is injective on
/// well-formed messages, so unmarshaling an encoded message yields the
/// identical discriminant and payload.
pub proof fn lemma_encode_injective(a: swtfb_update, b: swtfb_update)
    requires
        a.wf(),
        b.wf(),
        a.spec_encode() == b.spec_encode(),
    ensures
        a == b,
{
    a.lemma_encode_parts();
    b.lemma_encode_parts();
    crate::wire::lemma_le4i_injective(a.mtype.spec_code(), b.mtype.spec_code());
    assert(a.mtype == b.mtype);
    match (a.data, b.data) {
        (swtfb_update_data::Init, swtfb_update_data::Init) => {
        },
        (swtfb_update_data::Update(ua), swtfb_update_data::Update(ub)) => {
            crate::mxcfb::lemma_update_bytes_injective(ua, ub);
        },
        (swtfb_update_data::XochitlUpdate(da), swtfb_update_data::XochitlUpdate(db)) => {
            lemma_xo_bytes_injective(da, db);
        },
        (swtfb_update_data::WaitUpdate(wa), swtfb_update_data::WaitUpdate(wb)) => {
            assert(wa.sem_name@ =~= wb.sem_name@);
            assert(wa.sem_name =~= wb.sem_name);
        },
        _ => {
            assert(false);
        },
    }
}

} // verus!
