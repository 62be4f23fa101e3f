//! A small package-tracking registry: records keyed by a random package
//! identifier, the handlers that create and query them, and the header
//! gate in front of every route.

pub mod package;
pub mod registry;
pub mod package_id;
pub mod text;
pub mod gate;
pub mod handlers;
pub mod routes;
pub mod laws;

pub use gate::InterstellarToken;
pub use registry::PackageRegistry;
pub use routes::rocket;
pub use text::simulate_journey;
