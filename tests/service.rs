use medical_ai_backend::{
    analyze_chest_xray, attach_public_key, begin_diagnosis, canonical_message_string,
    classification_bucket, classification_table, confidence_string, decimal_string,
    validate_medical_image, MedicalDiagnosisResult, MedicalService, PatientMetadata, MAX_IMAGE_BYTES, MIN_IMAGE_BYTES,
    ServiceError,
};

const START: u64 = 1_700_000_000_000_000_000;

fn metadata(anonymized_id: &str) -> PatientMetadata {
    PatientMetadata {
        anonymized_id: anonymized_id.to_string(),
        age_range: "40-50".to_string(),
        study_type: "chest-xray".to_string(),
        acquisition_date: "2024-01-01".to_string(),
    }
}

fn hex(bytes: &[u8]) -> String {
    bytes.iter().map(|b| format!("{:02x}", b)).collect()
}

fn create(
    service: &mut MedicalService,
    size: usize,
    anonymized_id: &str,
    now: u64,
) -> Result<MedicalDiagnosisResult, ServiceError> {
    let image = vec![7u8; size];
    let pending = begin_diagnosis(&image, metadata(anonymized_id), now)?;
    let keyed = attach_public_key(pending, Ok(vec![2u8; 33]))?;
    service.commit_diagnosis(keyed, Ok(vec![9u8; 64]), vec![1, 2, 3], now + 5)
}

#[test]
fn rejects_too_small_image() {
    let r = validate_medical_image(&vec![0u8; 1023]);
    match r {
        Err(ServiceError::ValidationError(m)) => {
            assert_eq!(m, "Image file too small - minimum 1KB required")
        }
        _ => panic!("expected a validation error"),
    }
    assert!(matches!(validate_medical_image(&[]), Err(ServiceError::ValidationError(_))));
}

#[test]
fn rejects_too_large_image() {
    let r = validate_medical_image(&vec![0u8; 52_428_801]);
    match r {
        Err(ServiceError::ValidationError(m)) => {
            assert_eq!(m, "Image file too large - maximum 50MB allowed")
        }
        _ => panic!("expected a validation error"),
    }
}

#[test]
fn accepts_bounds_and_reports_whole_kib() {
    let low = validate_medical_image(&vec![0u8; 1024]).unwrap();
    assert_eq!(low.image_size_kb, 1);
    let mid = validate_medical_image(&vec![0u8; 2047]).unwrap();
    assert_eq!(mid.image_size_kb, 1);
    let high = validate_medical_image(&vec![0u8; 52_428_800]).unwrap();
    assert_eq!(high.image_size_kb, 51_200);
    assert_eq!(high.processing_time_ms, 1250);
    assert_eq!(high.model_inference_time_ms, 850);
    assert_eq!(high.preprocessing_time_ms, 400);
    assert_eq!(high.quality_score_percent, 87);
}

#[test]
fn classifier_selects_bucket_two_for_any_content() {
    for content in [vec![0u8; 1024], vec![255u8; 4096], (0..=255u8).collect::<Vec<u8>>()] {
        let (label, confidence, findings) = analyze_chest_xray(&content);
        assert_eq!(label, "Possible pleural effusion - Suggest further imaging");
        assert_eq!(confidence, 78);
        assert_eq!(findings.len(), 1);
        assert_eq!(findings[0].finding, "Blunted costophrenic angle");
        assert_eq!(findings[0].location, "Right lateral");
        assert_eq!(findings[0].severity, "Mild");
        assert_eq!(findings[0].confidence_percent, 78);
    }
    assert_eq!(classification_bucket(&[0u8; 32]), 2);
    assert_eq!(classification_bucket(&[0u8; 1]), 2);
    assert_eq!(classification_bucket(&[0u8; 3]), 0);
    assert_eq!(classification_bucket(&[]), 0);
}

#[test]
fn classification_table_entries() {
    let (label, confidence, findings) = classification_table(0);
    assert_eq!(label, "Normal chest X-ray - No acute cardiopulmonary process");
    assert_eq!(confidence, 92);
    assert_eq!(findings.len(), 2);
    assert_eq!(findings[1].finding, "Normal cardiac silhouette");
    assert_eq!(findings[1].confidence_percent, 89);
    let (label, confidence, findings) = classification_table(4);
    assert_eq!(label, "Bilateral pulmonary edema - Urgent clinical evaluation recommended");
    assert_eq!(confidence, 91);
    assert_eq!(findings[0].severity, "Severe");
    assert_eq!(findings[1].finding, "Kerley B lines");
    assert_eq!(findings[1].confidence_percent, 82);
    let (label, _, findings) = classification_table(5);
    assert_eq!(label, "Pneumothorax detected - Immediate medical attention required");
    assert_eq!(findings[1].finding, "Lung collapse");
}

#[test]
fn decimal_and_confidence_text() {
    assert_eq!(decimal_string(0), "0");
    assert_eq!(decimal_string(7), "7");
    assert_eq!(decimal_string(1024), "1024");
    assert_eq!(decimal_string(u64::MAX), "18446744073709551615");
    assert_eq!(confidence_string(78), "0.78");
    assert_eq!(confidence_string(50), "0.5");
    assert_eq!(confidence_string(5), "0.05");
    assert_eq!(confidence_string(0), "0");
    assert_eq!(confidence_string(100), "1");
}

#[test]
fn canonical_message_and_its_digest() {
    let m = canonical_message_string(
        &"Possible pleural effusion - Suggest further imaging".to_string(),
        78,
        START,
        &"P001".to_string(),
    );
    assert_eq!(m, "Possible pleural effusion - Suggest further imaging|0.78|1700000000000000000|P001");
    let pending = begin_diagnosis(&vec![1u8; 2048], metadata("P001"), START).unwrap();
    assert_eq!(pending.message, m);
    assert_eq!(
        hex(&pending.message_hash),
        "60b63c70db75b2d8942cd87dff811a3f17a830b63077470d2986af2825fc3f45"
    );
    assert_eq!(pending.timestamp, START);
}

#[test]
fn end_to_end_creation() {
    let mut service = MedicalService::new();
    let record = create(&mut service, 2048, "P001", START).unwrap();
    assert_eq!(record.id, 1);
    assert!(!record.signature.is_empty());
    assert!(!record.public_key.is_empty());
    assert!(record.fda_compliant);
    assert!(record.hipaa_compliant);
    assert!(!record.medical_findings.is_empty());
    assert_eq!(record.model_version, "MedicalAI-v2.1.0");
    assert_eq!(record.timestamp, START);
    assert_eq!(record.patient_metadata.anonymized_id, "P001");
    assert_eq!(record.patient_metadata.age_range, "40-50");
    let trail = service.get_medical_audit_trail();
    assert_eq!(trail.len(), 1);
    assert_eq!(trail[0].id, 1);
    assert_eq!(trail[0].diagnosis_id, 1);
    assert_eq!(trail[0].action, "RECORD_CREATED");
    assert_eq!(trail[0].timestamp, START + 5);
    assert_eq!(trail[0].principal, vec![1, 2, 3]);
    assert_eq!(
        trail[0].details,
        "Medical image analyzed: Possible pleural effusion - Suggest further imaging"
    );
    assert_eq!(trail[0].compliance_flags, vec!["FDA_AUDIT".to_string(), "HIPAA_LOG".to_string()]);
}

#[test]
fn compliance_report_for_compliant_record() {
    let mut service = MedicalService::new();
    let record = create(&mut service, 2048, "P001", START).unwrap();
    let before = service.get_audit_trail_for_diagnosis(record.id).len();
    let report = service.get_fda_compliance_report(record.id, vec![4], START + 100).unwrap();
    assert!(report.fda_status.contains("COMPLIANT"));
    assert_eq!(report.fda_status, "COMPLIANT - FDA 21 CFR Part 820");
    assert_eq!(report.hipaa_status, "COMPLIANT - HIPAA Privacy Rule");
    assert!(report.audit_trail_complete);
    assert!(report.signature_verified);
    assert_eq!(report.regulatory_notes.len(), 3);
    assert_eq!(report.certification_level, "Class II Medical Device Software");
    assert_eq!(report.generated_timestamp, START + 100);
    let after = service.get_audit_trail_for_diagnosis(record.id);
    assert_eq!(after.len(), before + 1);
    let last = after.last().unwrap();
    assert_eq!(last.action, "COMPLIANCE_REPORT_GENERATED");
    assert_eq!(last.details, "FDA compliance report requested");
    assert_eq!(last.diagnosis_id, record.id);
}

#[test]
fn ids_count_up_in_two_sequences() {
    let mut service = MedicalService::new();
    let a = create(&mut service, 2048, "A", START).unwrap();
    service.get_fda_compliance_report(a.id, vec![], START + 1).unwrap();
    let b = create(&mut service, 4096, "B", START + 2).unwrap();
    let c = create(&mut service, 1024, "C", START + 3).unwrap();
    assert_eq!((a.id, b.id, c.id), (1, 2, 3));
    let ids: Vec<u64> = service.get_medical_audit_trail().iter().map(|e| e.id).collect();
    assert_eq!(ids, vec![1, 2, 3, 4]);
    let refs: Vec<u64> = service.get_medical_audit_trail().iter().map(|e| e.diagnosis_id).collect();
    assert_eq!(refs, vec![1, 1, 2, 3]);
    let all: Vec<u64> = service.get_all_diagnoses().iter().map(|d| d.id).collect();
    assert_eq!(all, vec![1, 2, 3]);
}

#[test]
fn audit_lookup_filters_in_order() {
    let mut service = MedicalService::new();
    create(&mut service, 2048, "A", START).unwrap();
    create(&mut service, 2048, "B", START).unwrap();
    service.get_fda_compliance_report(1, vec![], START + 1).unwrap();
    service.get_fda_compliance_report(2, vec![], START + 2).unwrap();
    service.get_fda_compliance_report(1, vec![], START + 3).unwrap();
    let for_one = service.get_audit_trail_for_diagnosis(1);
    let ids: Vec<u64> = for_one.iter().map(|e| e.id).collect();
    assert_eq!(ids, vec![1, 3, 5]);
    assert!(for_one.iter().all(|e| e.diagnosis_id == 1));
    let all = service.get_medical_audit_trail();
    let expected: Vec<u64> = all.iter().filter(|e| e.diagnosis_id == 1).map(|e| e.id).collect();
    assert_eq!(ids, expected);
}

#[test]
fn unknown_ids_are_not_found() {
    let mut service = MedicalService::new();
    create(&mut service, 2048, "A", START).unwrap();
    for id in [0u64, 2, u64::MAX] {
        assert!(service.get_diagnosis(id).is_none());
        assert!(service.get_audit_trail_for_diagnosis(id).is_empty());
        match service.verify_diagnosis_signature(id) {
            Err(ServiceError::NotFoundError(m)) => assert_eq!(m, "Diagnosis not found"),
            _ => panic!("expected not found"),
        }
        assert!(matches!(
            service.get_fda_compliance_report(id, vec![], START),
            Err(ServiceError::NotFoundError(_))
        ));
    }
    assert_eq!(service.get_medical_audit_trail().len(), 1);
    assert!(service.get_diagnosis(1).is_some());
    assert_eq!(service.verify_diagnosis_signature(1).unwrap(), true);
}

#[test]
fn signing_failures_store_nothing() {
    let mut service = MedicalService::new();
    let image = vec![3u8; 2048];
    let pending = begin_diagnosis(&image, metadata("P"), START).unwrap();
    match attach_public_key(pending, Err("no key".to_string())) {
        Err(ServiceError::SigningError(m)) => {
            assert_eq!(m, "Signature generation failed: Failed to get public key: no key")
        }
        _ => panic!("expected a signing error"),
    }
    let pending = begin_diagnosis(&image, metadata("P"), START).unwrap();
    assert!(matches!(attach_public_key(pending, Ok(vec![])), Err(ServiceError::SigningError(_))));
    let pending = begin_diagnosis(&image, metadata("P"), START).unwrap();
    let keyed = attach_public_key(pending, Ok(vec![1])).unwrap();
    match service.commit_diagnosis(keyed, Err("refused".to_string()), vec![], START) {
        Err(ServiceError::SigningError(m)) => {
            assert_eq!(m, "Signature generation failed: Failed to create signature: refused")
        }
        _ => panic!("expected a signing error"),
    }
    let pending = begin_diagnosis(&image, metadata("P"), START).unwrap();
    let keyed = attach_public_key(pending, Ok(vec![1])).unwrap();
    assert!(matches!(
        service.commit_diagnosis(keyed, Ok(vec![]), vec![], START),
        Err(ServiceError::SigningError(_))
    ));
    assert!(service.get_all_diagnoses().is_empty());
    assert!(service.get_medical_audit_trail().is_empty());
    let record = create(&mut service, 2048, "P", START).unwrap();
    assert_eq!(record.id, 1);
    assert!(service.get_all_diagnoses().iter().all(|d| !d.signature.is_empty()));
}

#[test]
fn invalid_image_stops_creation() {
    let service = MedicalService::new();
    assert!(matches!(
        begin_diagnosis(&vec![0u8; 10], metadata("P"), START),
        Err(ServiceError::ValidationError(_))
    ));
    assert!(service.get_all_diagnoses().is_empty());
}

#[test]
fn repeated_reports_agree_but_each_is_audited() {
    let mut service = MedicalService::new();
    create(&mut service, 2048, "A", START).unwrap();
    let r1 = service.get_fda_compliance_report(1, vec![], START + 10).unwrap();
    let r2 = service.get_fda_compliance_report(1, vec![], START + 20).unwrap();
    assert_eq!(r1.diagnosis_id, r2.diagnosis_id);
    assert_eq!(r1.fda_status, r2.fda_status);
    assert_eq!(r1.hipaa_status, r2.hipaa_status);
    assert_eq!(r1.audit_trail_complete, r2.audit_trail_complete);
    assert_eq!(r1.signature_verified, r2.signature_verified);
    assert_eq!(r1.regulatory_notes, r2.regulatory_notes);
    assert_eq!(r1.certification_level, r2.certification_level);
    assert_ne!(r1.generated_timestamp, r2.generated_timestamp);
    let trail = service.get_audit_trail_for_diagnosis(1);
    assert_eq!(trail.len(), 3);
    assert_ne!(trail[1].id, trail[2].id);
}

#[test]
fn health_summary() {
    let mut service = MedicalService::new();
    assert_eq!(
        service.get_system_health(),
        "Medical AI System Status: HEALTHY | Diagnoses: 0 | Audit Entries: 0 | Model: MedicalAI-v2.1.0"
    );
    create(&mut service, 2048, "A", START).unwrap();
    service.get_fda_compliance_report(1, vec![], START).unwrap();
    assert_eq!(
        service.get_system_health(),
        "Medical AI System Status: HEALTHY | Diagnoses: 1 | Audit Entries: 2 | Model: MedicalAI-v2.1.0"
    );
}

#[test]
fn error_message_accessor() {
    let e = ServiceError::NotFoundError("Diagnosis not found".to_string());
    assert_eq!(e.message(), "Diagnosis not found");
    assert!(MedicalService::new().has_capacity());
}

#[test]
fn create_in_one_call() {
    let mut service = MedicalService::new();
    let record = service
        .create_diagnosis(&vec![5u8; 2048], metadata("P001"), START, Ok(vec![2u8; 33]), Ok(vec![9u8; 64]), vec![8], START + 1)
        .unwrap();
    assert_eq!(record.id, 1);
    assert_eq!(record.diagnosis, "Possible pleural effusion - Suggest further imaging");
    assert_eq!(record.confidence_percent, 78);
    assert_eq!(record.signature, vec![9u8; 64]);
    assert_eq!(record.public_key, vec![2u8; 33]);
    let trail = service.get_audit_trail_for_diagnosis(1);
    assert_eq!(trail.len(), 1);
    assert_eq!(trail[0].action, "RECORD_CREATED");
    let bad = service.create_diagnosis(&vec![5u8; 100], metadata("X"), START, Ok(vec![1]), Ok(vec![1]), vec![], START);
    assert!(matches!(bad, Err(ServiceError::ValidationError(_))));
    let bad = service.create_diagnosis(&vec![5u8; 2048], metadata("X"), START, Ok(vec![1]), Ok(vec![]), vec![], START);
    assert!(matches!(bad, Err(ServiceError::SigningError(_))));
    assert_eq!(service.get_all_diagnoses().len(), 1);
    assert_eq!(service.get_medical_audit_trail().len(), 1);
    assert_eq!(MIN_IMAGE_BYTES, 1024);
    assert_eq!(MAX_IMAGE_BYTES, 52_428_800);
}
