//! Verified core of a customer CRUD service: a bounded slot pool of
//! database connections, a FIFO dispatcher that hands blocking work to a
//! fixed set of workers, and the rules that turn the outcome of a unit of
//! work into what its caller, and the HTTP client, receives.
pub mod bridge;
pub mod config;
pub mod dispatcher;
pub mod error;
pub mod laws;
pub mod models;
pub mod response;
pub mod slot_pool;

pub use bridge::PoolCore;
pub use config::{ConfigError, ServiceConfig};
pub use dispatcher::{Dispatcher, Lifecycle, WorkerStep};
pub use error::{resolve, BridgeError, InfraError, WorkReport};
pub use models::{require_affected, CustomerDTO, DataError, InsertableCustomerDTO};
pub use response::{failure_response, HttpFailure};
pub use slot_pool::{Checkin, Checkout, SlotPool};
