//! Verified encoding, decoding and request/reply logic for the FUSE protocol
//! spoken between the kernel-side file system node and the user-space daemon.

pub mod le;
pub mod types;
pub mod fuse_st;
pub mod fuse_dev;
pub mod devfuse;
pub mod node;
pub mod fusedev;
pub mod sda;
pub mod vda;
pub mod prctl;
pub mod conn;
