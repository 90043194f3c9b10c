//! A byte classifier behind a service seam.
//!
//! The application never talks to the provider directly. It owns a handle to a
//! [`byte_service::ByteService`], and the only implementation that knows the
//! provider's types is [`byte_service::ProviderAdapter`]. Any other
//! implementation can be injected in its place.
//!
//! * [`provider`]: the collaborator's own value types and its one function.
//! * [`values`]: the application's value types, `Byte` and `Boolean`.
//! * [`byte_service`]: the capability the application depends on, and the
//!   adapter that fulfils it through the provider.
//! * [`boolean_service`]: a service without collaborators, used directly.
//! * [`application`]: the holder of both services and the workflow over them.

pub mod application;
pub mod boolean_service;
pub mod byte_service;
pub mod provider;
pub mod values;
