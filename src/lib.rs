//! Bindings model for the hostfxr native hosting library.
//!
//! The native library is reached through function pointers that a loader
//! resolves by name. This crate states, and proves, the parts of that contract
//! that can be written over plain values: the integer values of the enums the
//! native side reads, which entry points each library version exports, how a
//! table of resolved entry points is assembled, the layout of the
//! initialization parameters, and the life cycle of a host context.
#![allow(non_camel_case_types)]

pub mod tier;
pub mod delegate;
pub mod entry;
pub mod binding;
pub mod layout;
pub mod params;
pub mod status;
pub mod context;
pub mod sdk;
pub mod hostfxr_resolve_sdk2_flags_t;
pub mod path_list;
pub mod buffer;
pub mod error_writer;

pub use coreclr_hosting_shared::{char_t, size_t};
pub use delegate::hostfxr_delegate_type;
pub use tier::Tier;
pub use params::hostfxr_initialize_parameters;
pub use binding::Hostfxr;
pub use sdk::hostfxr_resolve_sdk2_result_key_t;
