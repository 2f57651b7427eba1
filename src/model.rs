use vstd::prelude::*;

verus! {

/// Who and what an image belongs to, with identifying data already removed.
#[derive(Debug)]
pub struct PatientMetadata {
    pub anonymized_id: String,
    pub age_range: String,
    pub study_type: String,
    pub acquisition_date: String,
}

impl Clone for PatientMetadata {
    fn clone(&self) -> (r: Self)
        ensures
            r == *self,
    {
        PatientMetadata {
            anonymized_id: self.anonymized_id.clone(),
            age_range: self.age_range.clone(),
            study_type: self.study_type.clone(),
            acquisition_date: self.acquisition_date.clone(),
        }
    }
}

/// One observation of a classification. Confidence is kept in hundredths
/// (`87` stands for 0.87), so that it is an exact value.
#[derive(Debug)]
pub struct MedicalFinding {
    pub finding: String,
    pub location: String,
    pub severity: String,
    pub confidence_percent: u32,
}

impl Clone for MedicalFinding {
    fn clone(&self) -> (r: Self)
        ensures
            r == *self,
    {
        MedicalFinding {
            finding: self.finding.clone(),
            location: self.location.clone(),
            severity: self.severity.clone(),
            confidence_percent: self.confidence_percent,
        }
    }
}

/// A finding as plain text and number.
pub type FindingView = (Seq<char>, Seq<char>, Seq<char>, u32);

impl View for MedicalFinding {
    type V = FindingView;

    open spec fn view(&self) -> FindingView {
        (self.finding@, self.location@, self.severity@, self.confidence_percent)
    }
}

/// The findings of a list, in order, as plain values.
pub open spec fn findings_view(s: Seq<MedicalFinding>) -> Seq<FindingView> {
    s.map_values(|f: MedicalFinding| f@)
}

/// Copies a list of findings value for value.
pub fn clone_findings(v: &Vec<MedicalFinding>) -> (r: Vec<MedicalFinding>)
    ensures
        r@ == v@,
{
    let mut r: Vec<MedicalFinding> = Vec::new();
    let mut i: usize = 0;
    while i < v.len()
        invariant
            i <= v@.len(),
            r@ == v@.subrange(0, i as int),
        decreases v@.len() - i,
    {
        r.push(v[i].clone());
        i = i + 1;
    }
    assert(r@ =~= v@);
    r
}

/// Copies a list of strings value for value.
pub fn clone_strings(v: &Vec<String>) -> (r: Vec<String>)
    ensures
        r@ == v@,
{
    let mut r: Vec<String> = Vec::new();
    let mut i: usize = 0;
    while i < v.len()
        invariant
            i <= v@.len(),
            r@ == v@.subrange(0, i as int),
        decreases v@.len() - i,
    {
        r.push(v[i].clone());
        i = i + 1;
    }
    assert(r@ =~= v@);
    r
}

/// Copies a byte string.
pub fn clone_bytes(v: &Vec<u8>) -> (r: Vec<u8>)
    ensures
        r@ == v@,
{
    let mut r: Vec<u8> = Vec::new();
    let mut i: usize = 0;
    while i < v.len()
        invariant
            i <= v@.len(),
            r@ == v@.subrange(0, i as int),
        decreases v@.len() - i,
    {
        r.push(v[i]);
        i = i + 1;
    }
    assert(r@ =~= v@);
    r
}

/// A committed, signed classification of one image.
#[derive(Debug)]
pub struct MedicalDiagnosisResult {
    pub id: u64,
    pub diagnosis: String,
    pub confidence_percent: u32,
    pub medical_findings: Vec<MedicalFinding>,
    pub timestamp: u64,
    pub signature: Vec<u8>,
    pub public_key: Vec<u8>,
    pub fda_compliant: bool,
    pub hipaa_compliant: bool,
    pub model_version: String,
    pub patient_metadata: PatientMetadata,
}

impl Clone for MedicalDiagnosisResult {
    fn clone(&self) -> (r: Self)
        ensures
            r.id == self.id,
            r.diagnosis == self.diagnosis,
            r.confidence_percent == self.confidence_percent,
            r.medical_findings@ == self.medical_findings@,
            r.timestamp == self.timestamp,
            r.signature@ == self.signature@,
            r.public_key@ == self.public_key@,
            r.fda_compliant == self.fda_compliant,
            r.hipaa_compliant == self.hipaa_compliant,
            r.model_version == self.model_version,
            r.patient_metadata == self.patient_metadata,
    {
        MedicalDiagnosisResult {
            id: self.id,
            diagnosis: self.diagnosis.clone(),
            confidence_percent: self.confidence_percent,
            medical_findings: clone_findings(&self.medical_findings),
            timestamp: self.timestamp,
            signature: clone_bytes(&self.signature),
            public_key: clone_bytes(&self.public_key),
            fda_compliant: self.fda_compliant,
            hipaa_compliant: self.hipaa_compliant,
            model_version: self.model_version.clone(),
            patient_metadata: self.patient_metadata.clone(),
        }
    }
}

/// One line of the audit trail: an action taken on a record.
#[derive(Debug)]
pub struct MedicalAuditEntry {
    pub id: u64,
    pub diagnosis_id: u64,
    pub action: String,
    pub timestamp: u64,
    /// The raw bytes of the identity of the caller that caused the entry.
    pub principal: Vec<u8>,
    pub details: String,
    pub compliance_flags: Vec<String>,
}

impl Clone for MedicalAuditEntry {
    fn clone(&self) -> (r: Self)
        ensures
            r.id == self.id,
            r.diagnosis_id == self.diagnosis_id,
            r.action == self.action,
            r.timestamp == self.timestamp,
            r.principal@ == self.principal@,
            r.details == self.details,
            r.compliance_flags@ == self.compliance_flags@,
    {
        MedicalAuditEntry {
            id: self.id,
            diagnosis_id: self.diagnosis_id,
            action: self.action.clone(),
            timestamp: self.timestamp,
            principal: clone_bytes(&self.principal),
            details: self.details.clone(),
            compliance_flags: clone_strings(&self.compliance_flags),
        }
    }
}

/// The regulatory status of one record, derived on request.
#[derive(Debug)]
pub struct ComplianceReport {
    pub diagnosis_id: u64,
    pub fda_status: String,
    pub hipaa_status: String,
    pub audit_trail_complete: bool,
    pub signature_verified: bool,
    pub regulatory_notes: Vec<String>,
    pub certification_level: String,
    pub generated_timestamp: u64,
}

/// What validation reports of an accepted image. The quality score is in
/// hundredths.
#[derive(Debug, Clone, Copy, PartialEq, Eq)]
pub struct ImageAnalysisMetrics {
    pub image_size_kb: u32,
    pub processing_time_ms: u64,
    pub model_inference_time_ms: u64,
    pub preprocessing_time_ms: u64,
    pub quality_score_percent: u32,
}

/// Why an operation failed. Each variant carries a readable message.
#[derive(Debug)]
pub enum ServiceError {
    /// The image is outside the accepted size range.
    ValidationError(String),
    /// The classifier could not produce a result. Nothing raises it yet: it is
    /// where a classifier that can fail reports.
    ClassificationError(String),
    /// The signing service failed, or handed back an empty key or signature.
    SigningError(String),
    /// No record has the requested ID.
    NotFoundError(String),
}

impl ServiceError {
    /// The message the error carries.
    pub fn message(&self) -> (r: String)
        ensures
            r@ == self.message_view(),
    {
        match self {
            ServiceError::ValidationError(m) => m.clone(),
            ServiceError::ClassificationError(m) => m.clone(),
            ServiceError::SigningError(m) => m.clone(),
            ServiceError::NotFoundError(m) => m.clone(),
        }
    }

    pub open spec fn message_view(&self) -> Seq<char> {
        match self {
            ServiceError::ValidationError(m) => m@,
            ServiceError::ClassificationError(m) => m@,
            ServiceError::SigningError(m) => m@,
            ServiceError::NotFoundError(m) => m@,
        }
    }
}

} // verus!
