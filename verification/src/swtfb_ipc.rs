//! The bare message-queue face of the IPC display protocol.
//!
//! This is the minimal queue client: a handle on the server's message queue
//! and the three update messages, without the activation markers, completion
//! waits and synthesized geometry that [`crate::swtfb_client`] adds on top.
//! Its records are laid out on the wire exactly as the full client's are —
//! there is one server and one protocol — so each encoding is defined by, and
//! proved equal to, the corresponding full-client encoding.

use vstd::prelude::*;

use crate::mxcfb::mxcfb_update_data;

verus! {

/// Well-known key of the server's System-V message queue.
pub const SWTFB_MESSAGE_QUEUE_ID: i32 = 0x2257c;

/// Panel width in pixels.
pub const WIDTH: i32 = 1404;

/// Panel height in pixels.
pub const HEIGHT: i32 = 1872;

#[allow(non_upper_case_globals)]
pub const maxWidth: i32 = 1404;

#[allow(non_upper_case_globals)]
pub const maxHeight: i32 = 1872;

/// Size in bytes of the shared display buffer: one 16-bit pixel per cell.
pub const BUF_SIZE: i32 = maxWidth * maxHeight * 2;

/// The four-byte type discriminant of a wire message.
#[derive(Clone, Copy, Debug, PartialEq, Eq, Structural)]
#[allow(non_camel_case_types)]
pub enum MSG_TYPE {
    INIT_t,
    UPDATE_t,
    XO_t,
    WAIT_t,
}

impl MSG_TYPE {
    /// The same discriminant in the full client's vocabulary.
    pub open spec fn to_client(self) -> crate::swtfb_client::MSG_TYPE {
        match self {
            MSG_TYPE::INIT_t => crate::swtfb_client::MSG_TYPE::INIT_t,
            MSG_TYPE::UPDATE_t => crate::swtfb_client::MSG_TYPE::UPDATE_t,
            MSG_TYPE::XO_t => crate::swtfb_client::MSG_TYPE::XO_t,
            MSG_TYPE::WAIT_t => crate::swtfb_client::MSG_TYPE::WAIT_t,
        }
    }

    /// The wire value of the discriminant.
    pub open spec fn spec_code(self) -> i32 {
        self.to_client().spec_code()
    }
}

/// Update payload in the coordinate form the stock drawing process reports.
#[derive(Clone, Copy, Debug, PartialEq, Eq, Structural)]
#[allow(non_camel_case_types)]
pub struct xochitl_data {
    pub x1: i32,
    pub y1: i32,
    pub x2: i32,
    pub y2: i32,
    pub waveform: i32,
    pub flags: i32,
}

impl xochitl_data {
    /// The same payload in the full client's vocabulary.
    pub open spec fn to_client(self) -> crate::swtfb_client::xochitl_data {
        crate::swtfb_client::xochitl_data {
            x1: self.x1,
            y1: self.y1,
            x2: self.x2,
            y2: self.y2,
            waveform: self.waveform,
            flags: self.flags,
        }
    }
}

/// Payload of a completion-wait message: a null-padded semaphore name.
#[derive(Clone, Copy, Debug)]
#[allow(non_camel_case_types)]
pub struct wait_sem_data {
    pub sem_name: [u8; 512],
}

impl wait_sem_data {
    /// The same payload in the full client's vocabulary.
    pub open spec fn to_client(self) -> crate::swtfb_client::wait_sem_data {
        crate::swtfb_client::wait_sem_data { sem_name: self.sem_name }
    }
}

/// The payload union of a wire message, tagged by the variant actually held.
#[derive(Clone, Copy, Debug)]
#[allow(non_camel_case_types)]
pub enum swtfb_update_data {
    Init,
    Update(mxcfb_update_data),
    XochitlUpdate(xochitl_data),
    WaitUpdate(wait_sem_data),
}

/// One wire message: discriminant plus payload.
#[derive(Clone, Copy, Debug)]
#[allow(non_camel_case_types)]
pub struct swtfb_update {
    pub mtype: MSG_TYPE,
    pub data: swtfb_update_data,
}

impl swtfb_update {
    /// The same message in the full client's vocabulary.
    pub open spec fn to_client(self) -> crate::swtfb_client::swtfb_update {
        crate::swtfb_client::swtfb_update {
            mtype: self.mtype.to_client(),
            data: match self.data {
                swtfb_update_data::Init => crate::swtfb_client::swtfb_update_data::Init,
                swtfb_update_data::Update(u) => crate::swtfb_client::swtfb_update_data::Update(u),
                swtfb_update_data::XochitlUpdate(d)
                    => crate::swtfb_client::swtfb_update_data::XochitlUpdate(d.to_client()),
                swtfb_update_data::WaitUpdate(w)
                    => crate::swtfb_client::swtfb_update_data::WaitUpdate(w.to_client()),
            },
        }
    }

    /// The discriminant agrees with the payload variant.
    pub open spec fn wf(self) -> bool {
        self.to_client().wf()
    }

    /// The 516-byte wire encoding: the protocol has one layout, shared with
    /// the full client.
    pub open spec fn spec_encode(self) -> Seq<u8> {
        self.to_client().spec_encode()
    }

    /// Marshal the message into its 516 wire bytes.
    pub fn encode(&self) -> (r: Vec<u8>)
        ensures
            r@ == self.spec_encode(),
            r@.len() == 516,
    {
        let c = crate::swtfb_client::swtfb_update {
            mtype: match self.mtype {
                MSG_TYPE::INIT_t => crate::swtfb_client::MSG_TYPE::INIT_t,
                MSG_TYPE::UPDATE_t => crate::swtfb_client::MSG_TYPE::UPDATE_t,
                MSG_TYPE::XO_t => crate::swtfb_client::MSG_TYPE::XO_t,
                MSG_TYPE::WAIT_t => crate::swtfb_client::MSG_TYPE::WAIT_t,
            },
            data: match &self.data {
                swtfb_update_data::Init => crate::swtfb_client::swtfb_update_data::Init,
                swtfb_update_data::Update(u) => crate::swtfb_client::swtfb_update_data::Update(*u),
                swtfb_update_data::XochitlUpdate(d)
                    => crate::swtfb_client::swtfb_update_data::XochitlUpdate(
                    crate::swtfb_client::xochitl_data {
                        x1: d.x1,
                        y1: d.y1,
                        x2: d.x2,
                        y2: d.y2,
                        waveform: d.waveform,
                        flags: d.flags,
                    },
                ),
                swtfb_update_data::WaitUpdate(w)
                    => crate::swtfb_client::swtfb_update_data::WaitUpdate(
                    crate::swtfb_client::wait_sem_data { sem_name: w.sem_name },
                ),
            },
        };
        c.encode()
    }
}

/// Handle on the display server's message queue, without the full client's
/// bookkeeping.
pub struct SwtfbIpcQueue {
    pub msqid: i32,
}

impl SwtfbIpcQueue {
    /// Adopt a freshly created message-queue identifier.
    ///
    /// A negative identifier means queue creation failed, which is fatal at
    /// construction time, so it is excluded here; the shell reports that
    /// failure instead of constructing a queue handle.
    pub fn new(msqid: i32) -> (q: SwtfbIpcQueue)
        requires
            msqid >= 0,
        ensures
            q.msqid == msqid,
    {
        SwtfbIpcQueue { msqid }
    }

    /// Marshal a message for transmission on the queue: exactly the bytes
    /// the shell must hand to the send system call.
    pub fn send(&self, update: &swtfb_update) -> (bytes: Vec<u8>)
        ensures
            bytes@ == update.spec_encode(),
            bytes@.len() == 516,
    {
        update.encode()
    }

    /// Wrap an e-ink update record in an UPDATE-tagged wire message.
    pub fn send_mxcfb_update(&self, update: &mxcfb_update_data) -> (m: swtfb_update)
        ensures
            m.wf(),
            m.mtype == MSG_TYPE::UPDATE_t,
            m.data == swtfb_update_data::Update(*update),
    {
        swtfb_update { mtype: MSG_TYPE::UPDATE_t, data: swtfb_update_data::Update(*update) }
    }

    /// Wrap a coordinate update in an EXTERNAL-UPDATE-tagged wire message.
    pub fn send_xochitl_update(&self, data: &xochitl_data) -> (m: swtfb_update)
        ensures
            m.wf(),
            m.mtype == MSG_TYPE::XO_t,
            m.data == swtfb_update_data::XochitlUpdate(*data),
    {
        swtfb_update { mtype: MSG_TYPE::XO_t, data: swtfb_update_data::XochitlUpdate(*data) }
    }

    /// Wrap a semaphore name in a WAIT-tagged wire message.
    pub fn send_wait_update(&self, wait_update: &wait_sem_data) -> (m: swtfb_update)
        ensures
            m.wf(),
            m.mtype == MSG_TYPE::WAIT_t,
            m.data == swtfb_update_data::WaitUpdate(*wait_update),
    {
        swtfb_update { mtype: MSG_TYPE::WAIT_t, data: swtfb_update_data::WaitUpdate(*wait_update) }
    }
}

} // verus!
