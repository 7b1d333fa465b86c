//! A DNS resolution adapter: delegates hostname lookups to the hickory
//! resolver so an HTTP client need not use the operating system's blocking
//! resolver. The underlying resolver is constructed lazily, exactly once per
//! shared handle, and lookup results are mapped to port-zero socket addresses,
//! optionally shuffled.

pub mod adapter;
pub mod address;
pub mod init;
pub mod once;
pub mod shuffle;

pub use adapter::HickoryResolver;
pub use adapter::ResolveFailure;
pub use address::IpAddress;
pub use address::SocketAddress;
pub use init::UnderlyingResolver;
pub use hickory_resolver::config::ResolverOpts;
