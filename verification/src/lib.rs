//! Client-side framebuffer layer for a two-generation e-ink tablet.
//!
//! The first generation is driven directly through a memory-mapped kernel
//! framebuffer and EPDC ioctls; the second generation proxies every update
//! through an external display server over a System-V message queue.  This
//! crate holds the verified core of both paths: the byte-exact wire format of
//! the queue messages, the screen-geometry records and their construction,
//! update-region validation, and the bookkeeping (update markers, completion
//! deadlines, client activation markers) that surrounds the raw system calls.
//! The system calls themselves (ioctl, msgsnd, sem_*, mmap) live with the
//! unverified shell around this library.

pub mod gen1;
pub mod mxcfb;
pub mod screeninfo;
pub mod swtfb_client;
pub mod swtfb_ipc;
pub mod update;
pub mod wire;


