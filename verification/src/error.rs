//! Error taxonomy of the composition core.
//!
//! Every build-time error is fatal and aborts the whole build synchronously.
//! The single non-fatal condition — absent optional metrics configuration —
//! is not an error at all: it degrades to a skipped layer plus a recorded
//! notice (see [`Notice`]).

use vstd::prelude::*;

use crate::component::Component;
use crate::layer::LayerKind;
use crate::registry::ResourceKind;

verus! {

/// Why a specific layer's own initialization failed.
#[derive(Clone, Copy, Debug, PartialEq, Eq, Structural)]
pub enum AttachCause {
    /// The layer could not bind its network port.
    PortBind { port: u16 },
}

/// A fatal build-time error.
#[derive(Clone, Copy, Debug, PartialEq, Eq, Structural)]
pub enum NodeError {
    /// A structural precondition between components is violated:
    /// `dependent` was selected without its prerequisite `missing`.
    /// Raised before any layer attaches.
    Configuration { dependent: Component, missing: Component },
    /// A resource of this kind was inserted twice; `layer` is the offender.
    /// Indicates an internal wiring defect, never a user error.
    DuplicateResource { kind: ResourceKind, layer: LayerKind },
    /// A resource was requested before any layer produced it; `layer` is the
    /// requester. Indicates a wiring-order defect, never a user error.
    MissingResource { kind: ResourceKind, layer: LayerKind },
    /// A specific layer's own initialization failed.
    LayerAttach { layer: LayerKind, cause: AttachCause },
}

/// An informational notice recorded during a build that still succeeds.
#[derive(Clone, Copy, Debug, PartialEq, Eq, Structural)]
pub enum Notice {
    /// Optional metrics configuration was absent, so the metrics exporter
    /// layer was deliberately omitted (the one documented soft-skip).
    PrometheusConfigMissing,
}

} // verus!
