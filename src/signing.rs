use vstd::prelude::*;
use vstd::string::*;
use vstd::utf8::encode_utf8;
use crate::classifier::{analyze_chest_xray, table_confidence, table_findings, table_label};
use crate::digest::{sha256, sha256_of};
use crate::model::{findings_view, MedicalFinding, PatientMetadata, ServiceError};
use crate::text::{confidence_chars, confidence_string, decimal_chars, decimal_string};
use crate::validation::{
    too_large_message, too_small_message, validate_medical_image, MAX_IMAGE_BYTES,
    MIN_IMAGE_BYTES,
};

verus! {

/// The message that is signed for a result: label, confidence, creation time
/// and anonymized patient ID, joined by `|`.
pub open spec fn canonical_message(
    label: Seq<char>,
    confidence_percent: nat,
    timestamp: nat,
    anonymized_id: Seq<char>,
) -> Seq<char> {
    label + seq!['|'] + confidence_chars(confidence_percent) + seq!['|'] + decimal_chars(timestamp)
        + seq!['|'] + anonymized_id
}

/// Builds the canonical message of a result.
pub fn canonical_message_string(
    label: &String,
    confidence_percent: u32,
    timestamp: u64,
    anonymized_id: &String,
) -> (r: String)
    requires
        confidence_percent <= 100,
    ensures
        r@ == canonical_message(label@, confidence_percent as nat, timestamp as nat, anonymized_id@),
{
    proof {
        reveal_strlit("|");
    }
    let mut s = label.clone();
    s.append("|");
    let c = confidence_string(confidence_percent);
    s.append(c.as_str());
    s.append("|");
    let t = decimal_string(timestamp);
    s.append(t.as_str());
    s.append("|");
    s.append(anonymized_id.as_str());
    s
}

/// A classified image whose result waits for the signing service.
#[derive(Debug)]
pub struct PendingDiagnosis {
    pub diagnosis: String,
    pub confidence_percent: u32,
    pub medical_findings: Vec<MedicalFinding>,
    pub timestamp: u64,
    pub patient_metadata: PatientMetadata,
    /// The canonical message of the result.
    pub message: String,
    /// The SHA-256 digest of the message's UTF-8 bytes: what gets signed.
    pub message_hash: Vec<u8>,
}

impl PendingDiagnosis {
    /// The message and its digest belong to the result.
    pub open spec fn wf(&self) -> bool {
        &&& self.confidence_percent <= 100
        &&& self.message@ == canonical_message(
            self.diagnosis@,
            self.confidence_percent as nat,
            self.timestamp as nat,
            self.patient_metadata.anonymized_id@,
        )
        &&& self.message_hash@ == sha256_of(encode_utf8(self.message@))
    }
}

/// A pending result together with the public key of the signing service.
#[derive(Debug)]
pub struct KeyedDiagnosis {
    pub pending: PendingDiagnosis,
    pub public_key: Vec<u8>,
}

impl KeyedDiagnosis {
    pub open spec fn wf(&self) -> bool {
        self.pending.wf() && self.public_key@.len() > 0
    }
}

pub open spec fn public_key_failure_prefix() -> Seq<char> {
    "Signature generation failed: Failed to get public key: "@
}

pub open spec fn empty_public_key_message() -> Seq<char> {
    "Signature generation failed: the signing service returned an empty public key"@
}

/// Validates and classifies an image taken at `start_time`, and prepares the
/// message to sign. Nothing is stored.
pub fn begin_diagnosis(image_data: &[u8], patient_metadata: PatientMetadata, start_time: u64) -> (r:
    Result<PendingDiagnosis, ServiceError>)
    ensures
        image_data@.len() < MIN_IMAGE_BYTES ==> (r matches Err(ServiceError::ValidationError(m))
            && m@ == too_small_message()),
        image_data@.len() > MAX_IMAGE_BYTES ==> (r matches Err(ServiceError::ValidationError(m))
            && m@ == too_large_message()),
        MIN_IMAGE_BYTES <= image_data@.len() <= MAX_IMAGE_BYTES ==> (r matches Ok(p) && {
            &&& p.wf()
            &&& p.diagnosis@ == table_label(2)
            &&& p.confidence_percent == table_confidence(2)
            &&& findings_view(p.medical_findings@) == table_findings(2)
            &&& p.timestamp == start_time
            &&& p.patient_metadata == patient_metadata
        }),
{
    match validate_medical_image(image_data) {
        Err(e) => Err(e),
        Ok(_metrics) => {
            let (diagnosis, confidence_percent, medical_findings) = analyze_chest_xray(image_data);
            assert(confidence_percent <= 100);
            let message = canonical_message_string(
                &diagnosis,
                confidence_percent,
                start_time,
                &patient_metadata.anonymized_id,
            );
            let message_hash = sha256(message.as_str().as_bytes());
            Ok(
                PendingDiagnosis {
                    diagnosis,
                    confidence_percent,
                    medical_findings,
                    timestamp: start_time,
                    patient_metadata,
                    message,
                    message_hash,
                },
            )
        },
    }
}

/// Takes the signing service's answer to the public-key request. An error,
/// or an empty key, ends the creation with a signing error.
pub fn attach_public_key(pending: PendingDiagnosis, outcome: Result<Vec<u8>, String>) -> (r: Result<
    KeyedDiagnosis,
    ServiceError,
>)
    requires
        pending.wf(),
    ensures
        outcome is Ok && outcome->Ok_0@.len() > 0 ==> (r matches Ok(kd) && kd.wf() && kd.pending
            == pending && kd.public_key@ == outcome->Ok_0@),
        outcome is Ok && outcome->Ok_0@.len() == 0 ==> (r matches Err(ServiceError::SigningError(m))
            && m@ == empty_public_key_message()),
        outcome is Err ==> (r matches Err(ServiceError::SigningError(m)) && m@
            == public_key_failure_prefix() + outcome->Err_0@),
{
    match outcome {
        Ok(public_key) => {
            if public_key.len() == 0 {
                Err(ServiceError::SigningError(String::from_str(
                    "Signature generation failed: the signing service returned an empty public key")))
            } else {
                Ok(KeyedDiagnosis { pending, public_key })
            }
        },
        Err(detail) => {
            let mut m = String::from_str("Signature generation failed: Failed to get public key: ");
            m.append(detail.as_str());
            Err(ServiceError::SigningError(m))
        },
    }
}

} // verus!
