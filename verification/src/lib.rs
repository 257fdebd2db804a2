//! The backend of a small desktop map application: a connectivity probe
//! and a single bounded-timeout fetch of the aquaculture register from a
//! public GIS feature service. The network transport and the GUI shell are
//! outside this library; what is verified here is everything the fetch
//! decides — the fixed request it issues, which transport outcomes count
//! as success, and the exact wording of every failure report.

pub mod digits;
pub mod fetch;
pub mod request;
