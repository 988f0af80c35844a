//! The e-signature API.

pub mod billing_plans;
pub mod favorite_templates;
pub mod identity_verifications;
pub mod template_document_fields;
