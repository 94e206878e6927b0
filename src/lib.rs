//! Client-side logic for a feature and requirement tracking service: resolving
//! workflow statuses from labels, classifying record keys, deciding which
//! requests go out, and shaping the partial-update payloads sent to the
//! service.
pub mod client;
pub mod json;
pub mod labels;
pub mod naming;
pub mod payload;

pub use client::{decode_response, Aha, Method};
pub use payload::{
    CustomFieldGithub, CustomNotes, FeatureCreate, FeatureUpdate, FeatureUpdateCreate,
    WorkflowStatusUpdate,
};
