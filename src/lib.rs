//! Record keeping for signed medical image classifications.
//!
//! The library validates an uploaded image, classifies it, assembles the
//! canonical message that an external signing service signs, commits the
//! signed record and keeps an append-only audit trail over it.
//!
//! Creating a record takes two round trips to the signing service, so it is
//! split into steps: [`begin_diagnosis`] validates, classifies and prepares
//! the digest to sign; [`attach_public_key`] takes the service's public key;
//! [`MedicalService::commit_diagnosis`] takes the signature and commits.
//! [`MedicalService::create_diagnosis`] runs the three steps at once on answers
//! already at hand.

mod classifier;
mod digest;
mod model;
mod service;
mod signing;
mod text;
mod validation;

pub mod laws;

pub use classifier::{analyze_chest_xray, classification_bucket, classification_table};
pub use model::{
    ComplianceReport, ImageAnalysisMetrics, MedicalAuditEntry, MedicalDiagnosisResult,
    MedicalFinding, PatientMetadata, ServiceError,
};
pub use service::MedicalService;
pub use signing::{
    attach_public_key, begin_diagnosis, canonical_message_string, KeyedDiagnosis,
    PendingDiagnosis,
};
pub use text::{confidence_string, decimal_string};
pub use validation::{validate_medical_image, MAX_IMAGE_BYTES, MIN_IMAGE_BYTES};
