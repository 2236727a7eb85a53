//! Verified core of the Veracruz platform services, the AWS Nitro enclave
//! host and enclave glue, the freestanding execution engine's command line
//! handling, and the client-side checks of the Veracruz server protocol.

pub mod platform_result;
pub mod std_platform_services;
pub mod tz_platform_services;
pub mod codec;
pub mod freestanding;
pub mod mc_nitro;
pub mod nitro_enclave;
pub mod server_test;
