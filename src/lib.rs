//! Deduplicating post relay: a durable three-state record per post, the
//! scheduling core of the mailbox actors, the order in which a fetched batch is
//! forwarded, and the frame pages served to clients.

pub mod dedup;
pub mod farcaster;
pub mod fetch;
pub mod frame;
pub mod mailbox;
pub mod store;
