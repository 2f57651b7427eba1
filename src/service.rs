use vstd::prelude::*;
use vstd::string::*;
use crate::model::{
    clone_bytes, clone_findings, ComplianceReport, MedicalAuditEntry, MedicalDiagnosisResult,
    ServiceError,
};
use crate::classifier::{table_confidence, table_findings, table_label};
use crate::model::{findings_view, PatientMetadata};
use crate::signing::{attach_public_key, begin_diagnosis, KeyedDiagnosis};
use crate::validation::{MAX_IMAGE_BYTES, MIN_IMAGE_BYTES};
use crate::text::{decimal_chars, decimal_string};

verus! {

broadcast use vstd::seq_lib::group_seq_properties;

/// Version tag of the classifier, stored in every record.
pub open spec fn model_version() -> Seq<char> {
    "MedicalAI-v2.1.0"@
}

pub open spec fn record_created_action() -> Seq<char> {
    "RECORD_CREATED"@
}

pub open spec fn report_generated_action() -> Seq<char> {
    "COMPLIANCE_REPORT_GENERATED"@
}

pub open spec fn not_found_message() -> Seq<char> {
    "Diagnosis not found"@
}

pub open spec fn signature_failure_prefix() -> Seq<char> {
    "Signature generation failed: Failed to create signature: "@
}

pub open spec fn empty_signature_message() -> Seq<char> {
    "Signature generation failed: the signing service returned an empty signature"@
}

/// The two records hold the same values.
pub open spec fn same_diagnosis(a: MedicalDiagnosisResult, b: MedicalDiagnosisResult) -> bool {
    &&& a.id == b.id
    &&& a.diagnosis == b.diagnosis
    &&& a.confidence_percent == b.confidence_percent
    &&& a.medical_findings@ == b.medical_findings@
    &&& a.timestamp == b.timestamp
    &&& a.signature@ == b.signature@
    &&& a.public_key@ == b.public_key@
    &&& a.fda_compliant == b.fda_compliant
    &&& a.hipaa_compliant == b.hipaa_compliant
    &&& a.model_version == b.model_version
    &&& a.patient_metadata == b.patient_metadata
}

/// The two audit entries hold the same values.
pub open spec fn same_audit_entry(a: MedicalAuditEntry, b: MedicalAuditEntry) -> bool {
    &&& a.id == b.id
    &&& a.diagnosis_id == b.diagnosis_id
    &&& a.action == b.action
    &&& a.timestamp == b.timestamp
    &&& a.principal@ == b.principal@
    &&& a.details == b.details
    &&& a.compliance_flags@ == b.compliance_flags@
}

/// Two lists of records that agree entry by entry.
pub open spec fn same_diagnoses(a: Seq<MedicalDiagnosisResult>, b: Seq<MedicalDiagnosisResult>) -> bool {
    a.len() == b.len() && forall|i: int| 0 <= i < a.len() ==> same_diagnosis(#[trigger] a[i], b[i])
}

/// Two lists of audit entries that agree entry by entry.
pub open spec fn same_audit_entries(a: Seq<MedicalAuditEntry>, b: Seq<MedicalAuditEntry>) -> bool {
    a.len() == b.len() && forall|i: int| 0 <= i < a.len() ==> same_audit_entry(#[trigger] a[i], b[i])
}

/// The record that signing `keyed` with `signature` produces under `id`.
pub open spec fn is_committed_diagnosis(
    d: MedicalDiagnosisResult,
    id: nat,
    keyed: KeyedDiagnosis,
    signature: Seq<u8>,
) -> bool {
    &&& d.id == id
    &&& d.diagnosis == keyed.pending.diagnosis
    &&& d.confidence_percent == keyed.pending.confidence_percent
    &&& d.medical_findings@ == keyed.pending.medical_findings@
    &&& d.timestamp == keyed.pending.timestamp
    &&& d.signature@ == signature
    &&& d.public_key@ == keyed.public_key@
    &&& d.fda_compliant
    &&& d.hipaa_compliant
    &&& d.model_version@ == model_version()
    &&& d.patient_metadata == keyed.pending.patient_metadata
}

/// An audit entry with the given values and the fixed compliance tags.
pub open spec fn is_audit_entry(
    e: MedicalAuditEntry,
    id: nat,
    diagnosis_id: u64,
    action: Seq<char>,
    details: Seq<char>,
    timestamp: u64,
    principal: Seq<u8>,
) -> bool {
    &&& e.id == id
    &&& e.diagnosis_id == diagnosis_id
    &&& e.action@ == action
    &&& e.details@ == details
    &&& e.timestamp == timestamp
    &&& e.principal@ == principal
    &&& e.compliance_flags@.len() == 2
    &&& e.compliance_flags@[0]@ == "FDA_AUDIT"@
    &&& e.compliance_flags@[1]@ == "HIPAA_LOG"@
}

/// The status text for a compliance flag.
pub open spec fn fda_status_text(compliant: bool) -> Seq<char> {
    if compliant {
        "COMPLIANT - FDA 21 CFR Part 820"@
    } else {
        "NON_COMPLIANT"@
    }
}

pub open spec fn hipaa_status_text(compliant: bool) -> Seq<char> {
    if compliant {
        "COMPLIANT - HIPAA Privacy Rule"@
    } else {
        "NON_COMPLIANT"@
    }
}

/// The regulatory notes every report carries.
pub open spec fn standard_regulatory_notes() -> Seq<Seq<char>> {
    seq![
        "Medical AI system meets FDA software as medical device requirements"@,
        "Patient data anonymized per HIPAA standards"@,
        "Cryptographic signatures ensure data integrity"@,
    ]
}

/// `r` is the compliance report of record `d` generated at time `now`.
pub open spec fn is_report_for(r: ComplianceReport, d: MedicalDiagnosisResult, now: u64) -> bool {
    &&& r.diagnosis_id == d.id
    &&& r.fda_status@ == fda_status_text(d.fda_compliant)
    &&& r.hipaa_status@ == hipaa_status_text(d.hipaa_compliant)
    &&& r.audit_trail_complete
    &&& r.signature_verified
    &&& r.regulatory_notes@.map_values(|n: String| n@) == standard_regulatory_notes()
    &&& r.certification_level@ == "Class II Medical Device Software"@
    &&& r.generated_timestamp == now
}

/// The health summary for the given counts.
pub open spec fn health_text(diagnoses: nat, audit_entries: nat) -> Seq<char> {
    "Medical AI System Status: HEALTHY | Diagnoses: "@ + decimal_chars(diagnoses)
        + " | Audit Entries: "@ + decimal_chars(audit_entries) + " | Model: MedicalAI-v2.1.0"@
}

/// The state of the service: two ID counters, the record store and the
/// append-only audit store. Both stores are ordered by ascending ID.
pub struct MedicalService {
    next_diagnosis_id: u64,
    next_audit_id: u64,
    diagnoses: Vec<MedicalDiagnosisResult>,
    audit_trail: Vec<MedicalAuditEntry>,
}

impl MedicalService {
    /// The committed records, in order of ID.
    pub closed spec fn records(&self) -> Seq<MedicalDiagnosisResult> {
        self.diagnoses@
    }

    /// The audit entries, in order of ID.
    pub closed spec fn audit_entries(&self) -> Seq<MedicalAuditEntry> {
        self.audit_trail@
    }

    /// The ID that the next committed record gets.
    pub closed spec fn next_diagnosis_id(&self) -> nat {
        self.next_diagnosis_id as nat
    }

    /// The ID that the next audit entry gets.
    pub closed spec fn next_audit_id(&self) -> nat {
        self.next_audit_id as nat
    }

    /// The service's invariant: IDs count up from 1 with no gap, every
    /// committed record is signed, and every audit entry refers to a record.
    pub open spec fn wf(&self) -> bool {
        &&& self.next_diagnosis_id() == self.records().len() + 1
        &&& self.next_audit_id() == self.audit_entries().len() + 1
        &&& self.next_diagnosis_id() <= u64::MAX
        &&& self.next_audit_id() <= u64::MAX
        &&& forall|i: int|
            0 <= i < self.records().len() ==> {
                &&& (#[trigger] self.records()[i]).id == i + 1
                &&& self.records()[i].signature@.len() > 0
                &&& self.records()[i].public_key@.len() > 0
            }
        &&& forall|j: int|
            0 <= j < self.audit_entries().len() ==> {
                &&& (#[trigger] self.audit_entries()[j]).id == j + 1
                &&& 1 <= self.audit_entries()[j].diagnosis_id <= self.records().len()
            }
    }

    /// Room is left for one more record and its audit entry.
    pub open spec fn can_record(&self) -> bool {
        self.next_diagnosis_id() < u64::MAX && self.next_audit_id() < u64::MAX
    }

    /// Room is left for one more audit entry.
    pub open spec fn can_audit(&self) -> bool {
        self.next_audit_id() < u64::MAX
    }

    /// A record with this ID has been committed.
    pub open spec fn has_record(&self, id: u64) -> bool {
        1 <= id <= self.records().len()
    }

    /// The committed record with this ID.
    pub open spec fn record(&self, id: u64) -> MedicalDiagnosisResult {
        self.records()[id - 1]
    }

    /// An empty service: no record, no audit entry, both counters at 1.
    pub fn new() -> (r: Self)
        ensures
            r.wf(),
            r.records().len() == 0,
            r.audit_entries().len() == 0,
            r.next_diagnosis_id() == 1,
            r.next_audit_id() == 1,
    {
        MedicalService {
            next_diagnosis_id: 1,
            next_audit_id: 1,
            diagnoses: Vec::new(),
            audit_trail: Vec::new(),
        }
    }

    /// Whether one more record, with its audit entry, can be committed.
    pub fn has_capacity(&self) -> (r: bool)
        requires
            self.wf(),
        ensures
            r == self.can_record(),
    {
        self.next_diagnosis_id < u64::MAX && self.next_audit_id < u64::MAX
    }

    /// Whether one more audit entry can be appended.
    pub fn has_audit_capacity(&self) -> (r: bool)
        requires
            self.wf(),
        ensures
            r == self.can_audit(),
    {
        self.next_audit_id < u64::MAX
    }

    /// Appends one audit entry about an existing record and returns its ID.
    fn add_audit_entry(
        &mut self,
        diagnosis_id: u64,
        action: String,
        details: String,
        timestamp: u64,
        principal: Vec<u8>,
    ) -> (id: u64)
        requires
            old(self).wf(),
            old(self).can_audit(),
            old(self).has_record(diagnosis_id),
        ensures
            final(self).wf(),
            final(self).records() == old(self).records(),
            id == old(self).next_audit_id(),
            final(self).audit_entries().len() == old(self).audit_entries().len() + 1,
            final(self).audit_entries().drop_last() == old(self).audit_entries(),
            is_audit_entry(
                final(self).audit_entries().last(),
                id as nat,
                diagnosis_id,
                action@,
                details@,
                timestamp,
                principal@,
            ),
    {
        let audit_id = self.next_audit_id;
        self.next_audit_id = audit_id + 1;
        let mut compliance_flags: Vec<String> = Vec::new();
        compliance_flags.push(String::from_str("FDA_AUDIT"));
        compliance_flags.push(String::from_str("HIPAA_LOG"));
        let entry = MedicalAuditEntry {
            id: audit_id,
            diagnosis_id,
            action,
            timestamp,
            principal,
            details,
            compliance_flags,
        };
        self.audit_trail.push(entry);
        assert(self.audit_entries().drop_last() =~= old(self).audit_entries());
        assert forall|j: int| 0 <= j < self.audit_entries().len() implies {
            &&& (#[trigger] self.audit_entries()[j]).id == j + 1
            &&& 1 <= self.audit_entries()[j].diagnosis_id <= self.records().len()
        } by {
            if j < old(self).audit_entries().len() {
                assert(self.audit_entries()[j] == old(self).audit_entries()[j]);
            }
        }
        audit_id
    }
}

impl MedicalService {
    /// Takes the signing service's answer to the signature request and, on a
    /// non-empty signature, commits the record under the next ID and appends a
    /// `RECORD_CREATED` audit entry for `caller` at time `now`. On any failure
    /// nothing changes.
    pub fn commit_diagnosis(
        &mut self,
        keyed: KeyedDiagnosis,
        signature: Result<Vec<u8>, String>,
        caller: Vec<u8>,
        now: u64,
    ) -> (r: Result<MedicalDiagnosisResult, ServiceError>)
        requires
            old(self).wf(),
            old(self).can_record(),
            keyed.wf(),
        ensures
            final(self).wf(),
            signature is Ok && signature->Ok_0@.len() > 0 ==> (r matches Ok(d) && {
                &&& is_committed_diagnosis(d, old(self).next_diagnosis_id(), keyed, signature->Ok_0@)
                &&& final(self).records().len() == old(self).records().len() + 1
                &&& final(self).records().drop_last() == old(self).records()
                &&& same_diagnosis(final(self).records().last(), d)
                &&& final(self).audit_entries().len() == old(self).audit_entries().len() + 1
                &&& final(self).audit_entries().drop_last() == old(self).audit_entries()
                &&& is_audit_entry(
                    final(self).audit_entries().last(),
                    old(self).next_audit_id(),
                    d.id,
                    record_created_action(),
                    "Medical image analyzed: "@ + d.diagnosis@,
                    now,
                    caller@,
                )
            }),
            signature is Ok && signature->Ok_0@.len() == 0 ==> (r matches Err(
                ServiceError::SigningError(m),
            ) && m@ == empty_signature_message()),
            signature is Err ==> (r matches Err(ServiceError::SigningError(m)) && m@
                == signature_failure_prefix() + signature->Err_0@),
            r is Err ==> final(self).records() == old(self).records() && final(self).audit_entries() == old(self).audit_entries(),
    {
        let signature = match signature {
            Ok(s) => s,
            Err(detail) => {
                let mut m = String::from_str(
                    "Signature generation failed: Failed to create signature: ",
                );
                m.append(detail.as_str());
                return Err(ServiceError::SigningError(m));
            },
        };
        if signature.len() == 0 {
            return Err(
                ServiceError::SigningError(
                    String::from_str(
                        "Signature generation failed: the signing service returned an empty signature",
                    ),
                ),
            );
        }
        let diagnosis_id = self.next_diagnosis_id;
        self.next_diagnosis_id = diagnosis_id + 1;
        let KeyedDiagnosis { pending, public_key } = keyed;
        let mut details = String::from_str("Medical image analyzed: ");
        details.append(pending.diagnosis.as_str());
        let result = MedicalDiagnosisResult {
            id: diagnosis_id,
            diagnosis: pending.diagnosis,
            confidence_percent: pending.confidence_percent,
            medical_findings: pending.medical_findings,
            timestamp: pending.timestamp,
            signature,
            public_key,
            fda_compliant: true,
            hipaa_compliant: true,
            model_version: String::from_str("MedicalAI-v2.1.0"),
            patient_metadata: pending.patient_metadata,
        };
        let stored = result.clone();
        self.diagnoses.push(stored);
        assert(self.records().drop_last() =~= old(self).records());
        assert forall|i: int| 0 <= i < self.records().len() implies {
            &&& (#[trigger] self.records()[i]).id == i + 1
            &&& self.records()[i].signature@.len() > 0
            &&& self.records()[i].public_key@.len() > 0
        } by {
            if i < old(self).records().len() {
                assert(self.records()[i] == old(self).records()[i]);
            }
        }
        assert forall|j: int| 0 <= j < self.audit_entries().len() implies {
            &&& (#[trigger] self.audit_entries()[j]).id == j + 1
            &&& 1 <= self.audit_entries()[j].diagnosis_id <= self.records().len()
        } by {
            assert(self.audit_entries()[j] == old(self).audit_entries()[j]);
        }
        self.add_audit_entry(
            diagnosis_id,
            String::from_str("RECORD_CREATED"),
            details,
            now,
            caller,
        );
        Ok(result)
    }

    /// The record with this ID, if one was committed.
    pub fn get_diagnosis(&self, diagnosis_id: u64) -> (r: Option<MedicalDiagnosisResult>)
        requires
            self.wf(),
        ensures
            !self.has_record(diagnosis_id) ==> r is None,
            self.has_record(diagnosis_id) ==> (r matches Some(d) && same_diagnosis(
                d,
                self.record(diagnosis_id),
            )),
    {
        if diagnosis_id >= 1 && diagnosis_id <= self.diagnoses.len() as u64 {
            Some(self.diagnoses[(diagnosis_id - 1) as usize].clone())
        } else {
            None
        }
    }

    /// All committed records, in order of ID.
    pub fn get_all_diagnoses(&self) -> (r: Vec<MedicalDiagnosisResult>)
        requires
            self.wf(),
        ensures
            same_diagnoses(r@, self.records()),
    {
        let mut r: Vec<MedicalDiagnosisResult> = Vec::new();
        let mut i: usize = 0;
        while i < self.diagnoses.len()
            invariant
                i <= self.records().len(),
                self.records() == self.diagnoses@,
                same_diagnoses(r@, self.records().subrange(0, i as int)),
            decreases self.records().len() - i,
        {
            r.push(self.diagnoses[i].clone());
            i = i + 1;
        }
        assert(self.records().subrange(0, i as int) =~= self.records());
        r
    }

    /// The whole audit trail, in order of ID.
    pub fn get_medical_audit_trail(&self) -> (r: Vec<MedicalAuditEntry>)
        requires
            self.wf(),
        ensures
            same_audit_entries(r@, self.audit_entries()),
    {
        let mut r: Vec<MedicalAuditEntry> = Vec::new();
        let mut i: usize = 0;
        while i < self.audit_trail.len()
            invariant
                i <= self.audit_entries().len(),
                self.audit_entries() == self.audit_trail@,
                same_audit_entries(r@, self.audit_entries().subrange(0, i as int)),
            decreases self.audit_entries().len() - i,
        {
            r.push(self.audit_trail[i].clone());
            i = i + 1;
        }
        assert(self.audit_entries().subrange(0, i as int) =~= self.audit_entries());
        r
    }

    /// The audit entries that refer to one record, in order of ID.
    pub fn get_audit_trail_for_diagnosis(&self, diagnosis_id: u64) -> (r: Vec<MedicalAuditEntry>)
        requires
            self.wf(),
        ensures
            same_audit_entries(
                r@,
                self.audit_entries().filter(|e: MedicalAuditEntry| e.diagnosis_id == diagnosis_id),
            ),
    {
        let ghost pred = |e: MedicalAuditEntry| e.diagnosis_id == diagnosis_id;
        let mut r: Vec<MedicalAuditEntry> = Vec::new();
        let mut i: usize = 0;
        while i < self.audit_trail.len()
            invariant
                i <= self.audit_entries().len(),
                self.audit_entries() == self.audit_trail@,
                pred == (|e: MedicalAuditEntry| e.diagnosis_id == diagnosis_id),
                same_audit_entries(r@, self.audit_entries().subrange(0, i as int).filter(pred)),
            decreases self.audit_entries().len() - i,
        {
            let ghost a = self.audit_entries();
            let ghost before = a.subrange(0, i as int).filter(pred);
            let ghost r_before = r@;
            proof {
                assert(a.subrange(0, i + 1) =~= a.subrange(0, i as int).push(a[i as int]));
                a.subrange(0, i as int).lemma_filter_push(a[i as int], pred);
            }
            if self.audit_trail[i].diagnosis_id == diagnosis_id {
                let e = self.audit_trail[i].clone();
                r.push(e);
                assert forall|k: int| 0 <= k < r@.len() implies same_audit_entry(
                    #[trigger] r@[k],
                    before.push(a[i as int])[k],
                ) by {
                    if k < r_before.len() {
                        assert(r@[k] == r_before[k]);
                    }
                }
                assert(pred(a[i as int]));
                assert(a.subrange(0, i + 1).filter(pred) == before.push(a[i as int]));
            } else {
                assert(!pred(a[i as int]));
                assert(a.subrange(0, i + 1).filter(pred) == before);
            }
            i = i + 1;
        }
        assert(self.audit_entries().subrange(0, i as int) =~= self.audit_entries());
        r
    }

    /// Whether the record with this ID carries a signature. The signature is
    /// not checked against the public key.
    pub fn verify_diagnosis_signature(&self, diagnosis_id: u64) -> (r: Result<bool, ServiceError>)
        requires
            self.wf(),
        ensures
            !self.has_record(diagnosis_id) ==> (r matches Err(ServiceError::NotFoundError(m))
                && m@ == not_found_message()),
            self.has_record(diagnosis_id) ==> r == Ok::<bool, ServiceError>(
                self.record(diagnosis_id).signature@.len() > 0,
            ),
    {
        if diagnosis_id >= 1 && diagnosis_id <= self.diagnoses.len() as u64 {
            let d = &self.diagnoses[(diagnosis_id - 1) as usize];
            Ok(d.signature.len() > 0)
        } else {
            Err(ServiceError::NotFoundError(String::from_str("Diagnosis not found")))
        }
    }

    /// Builds the compliance report of a record generated at time `now`, and
    /// appends a `COMPLIANCE_REPORT_GENERATED` audit entry for `caller`. An
    /// unknown ID changes nothing.
    pub fn get_fda_compliance_report(&mut self, diagnosis_id: u64, caller: Vec<u8>, now: u64) -> (r:
        Result<ComplianceReport, ServiceError>)
        requires
            old(self).wf(),
            old(self).can_audit(),
        ensures
            final(self).wf(),
            final(self).records() == old(self).records(),
            !old(self).has_record(diagnosis_id) ==> (r matches Err(ServiceError::NotFoundError(m))
                && m@ == not_found_message() && final(self).audit_entries() == old(self).audit_entries()),
            old(self).has_record(diagnosis_id) ==> (r matches Ok(rep) && {
                &&& is_report_for(rep, old(self).record(diagnosis_id), now)
                &&& final(self).audit_entries().len() == old(self).audit_entries().len() + 1
                &&& final(self).audit_entries().drop_last() == old(self).audit_entries()
                &&& is_audit_entry(
                    final(self).audit_entries().last(),
                    old(self).next_audit_id(),
                    diagnosis_id,
                    report_generated_action(),
                    "FDA compliance report requested"@,
                    now,
                    caller@,
                )
            }),
    {
        if diagnosis_id < 1 || diagnosis_id > self.diagnoses.len() as u64 {
            return Err(ServiceError::NotFoundError(String::from_str("Diagnosis not found")));
        }
        let fda_compliant = self.diagnoses[(diagnosis_id - 1) as usize].fda_compliant;
        let hipaa_compliant = self.diagnoses[(diagnosis_id - 1) as usize].hipaa_compliant;
        self.add_audit_entry(
            diagnosis_id,
            String::from_str("COMPLIANCE_REPORT_GENERATED"),
            String::from_str("FDA compliance report requested"),
            now,
            caller,
        );
        let fda_status = if fda_compliant {
            String::from_str("COMPLIANT - FDA 21 CFR Part 820")
        } else {
            String::from_str("NON_COMPLIANT")
        };
        let hipaa_status = if hipaa_compliant {
            String::from_str("COMPLIANT - HIPAA Privacy Rule")
        } else {
            String::from_str("NON_COMPLIANT")
        };
        let mut regulatory_notes: Vec<String> = Vec::new();
        regulatory_notes.push(
            String::from_str("Medical AI system meets FDA software as medical device requirements"),
        );
        regulatory_notes.push(String::from_str("Patient data anonymized per HIPAA standards"));
        regulatory_notes.push(String::from_str("Cryptographic signatures ensure data integrity"));
        assert(regulatory_notes@.map_values(|n: String| n@) =~= standard_regulatory_notes());
        Ok(
            ComplianceReport {
                diagnosis_id,
                fda_status,
                hipaa_status,
                audit_trail_complete: true,
                signature_verified: true,
                regulatory_notes,
                certification_level: String::from_str("Class II Medical Device Software"),
                generated_timestamp: now,
            },
        )
    }

    /// A one-line summary of the record count, the audit-entry count and the
    /// model version.
    pub fn get_system_health(&self) -> (r: String)
        requires
            self.wf(),
        ensures
            r@ == health_text(self.records().len(), self.audit_entries().len()),
    {
        let mut s = String::from_str("Medical AI System Status: HEALTHY | Diagnoses: ");
        let d = decimal_string(self.diagnoses.len() as u64);
        s.append(d.as_str());
        s.append(" | Audit Entries: ");
        let a = decimal_string(self.audit_trail.len() as u64);
        s.append(a.as_str());
        s.append(" | Model: MedicalAI-v2.1.0");
        s
    }
}

impl MedicalService {
    /// The whole creation of a record, given the signing service's answers
    /// to the public-key and signature requests: validate, classify, check the
    /// key, then commit on a non-empty signature. Any failure changes nothing.
    pub fn create_diagnosis(
        &mut self,
        image_data: &[u8],
        patient_metadata: PatientMetadata,
        start_time: u64,
        public_key: Result<Vec<u8>, String>,
        signature: Result<Vec<u8>, String>,
        caller: Vec<u8>,
        now: u64,
    ) -> (r: Result<MedicalDiagnosisResult, ServiceError>)
        requires
            old(self).wf(),
            old(self).can_record(),
        ensures
            final(self).wf(),
            (image_data@.len() < MIN_IMAGE_BYTES || image_data@.len() > MAX_IMAGE_BYTES) ==> r matches Err(
                ServiceError::ValidationError(_),
            ),
            MIN_IMAGE_BYTES <= image_data@.len() <= MAX_IMAGE_BYTES && !(public_key is Ok
                && public_key->Ok_0@.len() > 0) ==> r matches Err(ServiceError::SigningError(_)),
            MIN_IMAGE_BYTES <= image_data@.len() <= MAX_IMAGE_BYTES && public_key is Ok
                && public_key->Ok_0@.len() > 0 && !(signature is Ok && signature->Ok_0@.len() > 0)
                ==> r matches Err(ServiceError::SigningError(_)),
            MIN_IMAGE_BYTES <= image_data@.len() <= MAX_IMAGE_BYTES && public_key is Ok
                && public_key->Ok_0@.len() > 0 && signature is Ok && signature->Ok_0@.len() > 0
                ==> (r matches Ok(d) && {
                &&& d.id == old(self).next_diagnosis_id()
                &&& d.diagnosis@ == table_label(2)
                &&& d.confidence_percent == table_confidence(2)
                &&& findings_view(d.medical_findings@) == table_findings(2)
                &&& d.timestamp == start_time
                &&& d.signature@ == signature->Ok_0@
                &&& d.public_key@ == public_key->Ok_0@
                &&& d.fda_compliant && d.hipaa_compliant
                &&& d.model_version@ == model_version()
                &&& d.patient_metadata == patient_metadata
                &&& final(self).records().len() == old(self).records().len() + 1
                &&& final(self).records().drop_last() == old(self).records()
                &&& same_diagnosis(final(self).records().last(), d)
                &&& final(self).audit_entries().len() == old(self).audit_entries().len() + 1
                &&& final(self).audit_entries().drop_last() == old(self).audit_entries()
                &&& is_audit_entry(
                    final(self).audit_entries().last(),
                    old(self).next_audit_id(),
                    d.id,
                    record_created_action(),
                    "Medical image analyzed: "@ + d.diagnosis@,
                    now,
                    caller@,
                )
            }),
            r is Err ==> final(self).records() == old(self).records() && final(self).audit_entries()
                == old(self).audit_entries(),
    {
        let pending = match begin_diagnosis(image_data, patient_metadata, start_time) {
            Ok(p) => p,
            Err(e) => return Err(e),
        };
        let keyed = match attach_public_key(pending, public_key) {
            Ok(k) => k,
            Err(e) => return Err(e),
        };
        self.commit_diagnosis(keyed, signature, caller, now)
    }
}

} // verus!
