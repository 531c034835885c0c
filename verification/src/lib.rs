//! A client-side network stack abstraction over a shared, pluggable driver.
//!
//! Application code obtains owned socket handles from a [`TcpClientStack`];
//! every handle performs its driver operations (allocate, connect, close)
//! through an exclusive-access primitive, so that no two handles ever run
//! overlapping operations against the one shared driver instance. A handle
//! gives its driver-side slot back by [`TcpSocketHandle::release`], which
//! consumes it: the slot is released at most once, and a released handle
//! cannot be used again.

pub mod driver;
pub mod driver_a;
pub mod driver_b;
pub mod lock;
pub mod stack;

pub use driver::Error;
pub use driver::NalDriver;
pub use driver::SocketAddr;
pub use driver_a::DriverA;
pub use driver_a::POOL_SIZE;
pub use driver_a::exhaust_pool;
pub use driver_a::lemma_capacity_bound;
pub use driver_b::DriverB;
pub use driver_b::SingleSocket;
pub use driver_b::single_slot_reuse;
pub use lock::DriverInv;
pub use lock::DriverLock;
pub use lock::DriverMutex;
pub use stack::TcpClientStack;
pub use stack::TcpSocketHandle;
