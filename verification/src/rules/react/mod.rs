//! The React rules and what they share.
pub mod helpers;
pub mod hooks;
pub mod correctness;
pub mod architecture;
pub mod server_components;
pub mod nextjs;
pub mod search_params;
pub mod styles;
pub mod performance;
pub mod react_native;
