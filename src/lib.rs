//! Identity, capability description and profile detection for GPU rendering
//! contexts.
//!
//! - [`context_id`]: process-unique context identifiers minted by a registry.
//! - [`attributes`]: a portable flag set and version describing a context.
//! - [`profile`]: the decision logic that tells whether the bound context runs
//!   the compatibility profile, fed with the driver's answers by the caller.

pub mod attributes;
pub mod context_id;
pub mod profile;

pub use attributes::{ContextAttributeFlag, ContextAttributeFlags, ContextAttributes, GLVersion};
pub use context_id::{ContextID, ContextIdRegistry};
pub use profile::{current_context_uses_compatibility_profile, GlFamily, ProbeEvent, ProbeStep, ProfileMaskReading};
