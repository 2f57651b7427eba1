use vstd::prelude::*;
use crate::model::{ComplianceReport, MedicalAuditEntry, MedicalDiagnosisResult};
use crate::service::{is_report_for, MedicalService};
use crate::validation::{metrics_for, MAX_IMAGE_BYTES, MIN_IMAGE_BYTES};

verus! {

broadcast use {vstd::seq_lib::group_seq_properties, vstd::seq_lib::group_filter_ensures};

/// An accepted image's reported size is its length in bytes divided by 1024,
/// rounded down.
pub proof fn accepted_size_is_whole_kib(len: nat)
    requires
        MIN_IMAGE_BYTES <= len <= MAX_IMAGE_BYTES,
    ensures
        metrics_for(len).image_size_kb as nat == len / 1024,
{
}

/// Record IDs and audit-entry IDs each count up from 1 by steps of 1, in
/// their own sequences: the record at position `i` has ID `i + 1`, and the
/// next ID to be given is one past the last. So no ID is given twice.
pub proof fn ids_count_up_from_one(s: MedicalService)
    requires
        s.wf(),
    ensures
        s.next_diagnosis_id() == s.records().len() + 1,
        s.next_audit_id() == s.audit_entries().len() + 1,
        forall|i: int| 0 <= i < s.records().len() ==> #[trigger] s.records()[i].id == i + 1,
        forall|j: int| 0 <= j < s.audit_entries().len() ==> #[trigger] s.audit_entries()[j].id == j + 1,
        forall|i1: int, i2: int|
            0 <= i1 < s.records().len() && 0 <= i2 < s.records().len() && i1 != i2
                ==> #[trigger] s.records()[i1].id != #[trigger] s.records()[i2].id,
        forall|j1: int, j2: int|
            0 <= j1 < s.audit_entries().len() && 0 <= j2 < s.audit_entries().len() && j1 != j2
                ==> #[trigger] s.audit_entries()[j1].id != #[trigger] s.audit_entries()[j2].id,
{
}

/// When a commit adds one record to a well-formed service, the new record
/// has the ID that was next, and the next ID grows by one; the same holds of
/// an added audit entry. Successive creations therefore get 1, 2, 3, ...
pub proof fn appended_ids_are_consecutive(before: MedicalService, after: MedicalService)
    requires
        before.wf(),
        after.wf(),
        after.records().len() == before.records().len() + 1,
        after.audit_entries().len() == before.audit_entries().len() + 1,
    ensures
        after.records().last().id == before.next_diagnosis_id(),
        after.next_diagnosis_id() == before.next_diagnosis_id() + 1,
        after.audit_entries().last().id == before.next_audit_id(),
        after.next_audit_id() == before.next_audit_id() + 1,
{
}

/// Every committed record carries a non-empty signature and public key.
pub proof fn committed_records_are_signed(s: MedicalService)
    requires
        s.wf(),
    ensures
        forall|i: int|
            0 <= i < s.records().len() ==> (#[trigger] s.records()[i]).signature@.len() > 0
                && s.records()[i].public_key@.len() > 0,
{
}

/// `f` maps each position of `sub` to a position of `full` holding the same
/// entry, and keeps the positions in order.
pub open spec fn embeds<A>(f: spec_fn(int) -> int, sub: Seq<A>, full: Seq<A>) -> bool {
    &&& forall|k: int| 0 <= k < sub.len() ==> 0 <= #[trigger] f(k) < full.len()
    &&& forall|k: int| 0 <= k < sub.len() ==> sub[k] == full[#[trigger] f(k)]
    &&& forall|k1: int, k2: int| 0 <= k1 < k2 < sub.len() ==> #[trigger] f(k1) < #[trigger] f(k2)
}

/// `sub` is `full` with some entries left out and the rest in their order.
pub open spec fn is_ordered_subsequence<A>(sub: Seq<A>, full: Seq<A>) -> bool {
    exists|f: spec_fn(int) -> int| #[trigger] embeds(f, sub, full)
}

/// Filtering the audit trail by record ID keeps exactly the entries about
/// that record, in their order.
pub proof fn audit_lookup_keeps_matching_entries_in_order(
    entries: Seq<MedicalAuditEntry>,
    diagnosis_id: u64,
)
    ensures
        ({
            let sub = entries.filter(|e: MedicalAuditEntry| e.diagnosis_id == diagnosis_id);
            &&& forall|k: int| 0 <= k < sub.len() ==> (#[trigger] sub[k]).diagnosis_id == diagnosis_id
            &&& forall|j: int|
                0 <= j < entries.len() && (#[trigger] entries[j]).diagnosis_id == diagnosis_id
                    ==> sub.contains(entries[j])
            &&& is_ordered_subsequence(sub, entries)
        }),
    decreases entries.len(),
{
    let pred = |e: MedicalAuditEntry| e.diagnosis_id == diagnosis_id;
    let sub = entries.filter(pred);
    assert forall|j: int|
        0 <= j < entries.len() && (#[trigger] entries[j]).diagnosis_id == diagnosis_id implies sub.contains(
        entries[j],
    ) by {
        entries.lemma_filter_contains(pred, j);
    }
    if entries.len() == 0 {
        let f = |k: int| k;
        assert(sub.len() == 0);
        assert(forall|k: int| 0 <= k < sub.len() ==> 0 <= #[trigger] f(k) < entries.len());
        assert(embeds(f, sub, entries));
    } else {
        let init = entries.drop_last();
        let last = entries.last();
        audit_lookup_keeps_matching_entries_in_order(init, diagnosis_id);
        let sub0 = init.filter(pred);
        assert(entries =~= init.push(last));
        init.lemma_filter_push(last, pred);
        let f0 = choose|f: spec_fn(int) -> int| embeds(f, sub0, init);
        if pred(last) {
            assert(sub == sub0.push(last));
            let f = |k: int|
                if k == sub0.len() {
                    entries.len() - 1
                } else {
                    f0(k)
                };
            assert forall|k: int| 0 <= k < sub.len() implies sub[k] == entries[#[trigger] f(k)] by {
                if k < sub0.len() {
                    assert(sub[k] == sub0[k]);
                    assert(entries[f0(k)] == init[f0(k)]);
                }
            }
            assert forall|k1: int, k2: int| 0 <= k1 < k2 < sub.len() implies #[trigger] f(k1)
                < #[trigger] f(k2) by {
                if k2 < sub0.len() {
                    assert(f0(k1) < f0(k2));
                }
            }
            assert(forall|k: int| 0 <= k < sub.len() ==> 0 <= #[trigger] f(k) < entries.len());
            assert(embeds(f, sub, entries));
        } else {
            assert(sub == sub0);
            assert forall|k: int| 0 <= k < sub.len() implies sub[k] == entries[#[trigger] f0(k)] by {
                assert(entries[f0(k)] == init[f0(k)]);
            }
            assert(forall|k: int| 0 <= k < sub.len() ==> 0 <= #[trigger] f0(k) < entries.len());
            assert(embeds(f0, sub, entries));
        }
    }
}

/// A record ID that was never committed has no audit entry.
pub proof fn unknown_record_has_no_audit_entries(s: MedicalService, diagnosis_id: u64)
    requires
        s.wf(),
        !s.has_record(diagnosis_id),
    ensures
        s.audit_entries().filter(|e: MedicalAuditEntry| e.diagnosis_id == diagnosis_id).len() == 0,
{
    let pred = |e: MedicalAuditEntry| e.diagnosis_id == diagnosis_id;
    let sub = s.audit_entries().filter(pred);
    if sub.len() > 0 {
        assert(sub.contains(sub[0]));
        s.audit_entries().lemma_filter_contains_rev(pred, sub[0]);
        assert(s.audit_entries().contains(sub[0]));
        let j = choose|j: int| 0 <= j < s.audit_entries().len() && s.audit_entries()[j] == sub[0];
        assert(1 <= s.audit_entries()[j].diagnosis_id <= s.records().len());
    }
}

/// Two compliance reports of one record agree in everything but the time at
/// which they were generated.
pub proof fn compliance_reports_agree(
    d: MedicalDiagnosisResult,
    r1: ComplianceReport,
    t1: u64,
    r2: ComplianceReport,
    t2: u64,
)
    requires
        is_report_for(r1, d, t1),
        is_report_for(r2, d, t2),
    ensures
        r1.diagnosis_id == r2.diagnosis_id,
        r1.fda_status@ == r2.fda_status@,
        r1.hipaa_status@ == r2.hipaa_status@,
        r1.audit_trail_complete == r2.audit_trail_complete,
        r1.signature_verified == r2.signature_verified,
        r1.regulatory_notes@.len() == r2.regulatory_notes@.len(),
        forall|k: int|
            0 <= k < r1.regulatory_notes@.len() ==> (#[trigger] r1.regulatory_notes@[k])@
                == r2.regulatory_notes@[k]@,
        r1.certification_level@ == r2.certification_level@,
{
    let v1 = r1.regulatory_notes@.map_values(|n: String| n@);
    let v2 = r2.regulatory_notes@.map_values(|n: String| n@);
    assert(v1.len() == r1.regulatory_notes@.len());
    assert(v2.len() == r2.regulatory_notes@.len());
    assert forall|k: int| 0 <= k < r1.regulatory_notes@.len() implies (
    #[trigger] r1.regulatory_notes@[k])@ == r2.regulatory_notes@[k]@ by {
        assert(v1[k] == v2[k]);
    }
}

} // verus!
