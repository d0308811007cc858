//! Start-up decisions of a desktop application shell: which plugins its
//! builder registers for a given build profile, and how the process ends
//! when the application runtime hands control back.
pub mod launch;
pub mod plugins;
