use trade_fleet::certificate::{
    bundle_file_names, ensure_valid, evaluate_certificate, staleness_decision, BundlePresence,
    CertOutcome, CertificateCheckService, RegenerateReason, MAX_ENCODABLE_UNIX_SECS,
    RENEWAL_MARGIN_SECS, VALIDITY_WINDOW_SECS,
};
use trade_fleet::host_config::HostConfig;

const NOW: i64 = 1_700_000_000;
const DAY: i64 = 86_400;

fn full_presence() -> BundlePresence {
    BundlePresence {
        request_pem: true,
        request_der: true,
        certificate_pem: true,
        certificate_der: true,
        private_key_pem: true,
        private_key_der: true,
    }
}

#[test]
fn expiry_far_away_schedules_check_at_margin() {
    // expiry four days out: the next check comes in exactly one day
    let outcome = staleness_decision(Some((NOW - DAY, NOW + 4 * DAY)), NOW);
    assert_eq!(outcome, CertOutcome::ValidFor(DAY as u64));
    assert_eq!(outcome.delay_secs(), DAY as u64);
}

#[test]
fn expiry_within_margin_regenerates_with_zero_delay() {
    let outcome = staleness_decision(Some((NOW - DAY, NOW + 2 * DAY)), NOW);
    assert_eq!(outcome, CertOutcome::Regenerate(RegenerateReason::ExpiringSoon));
    assert_eq!(outcome.delay_secs(), 0);
}

#[test]
fn expiry_exactly_at_margin_regenerates() {
    let outcome = staleness_decision(Some((NOW, NOW + RENEWAL_MARGIN_SECS)), NOW);
    assert_eq!(outcome, CertOutcome::Regenerate(RegenerateReason::ExpiringSoon));
}

#[test]
fn scheduled_delay_is_never_zero() {
    // one second past the margin is the smallest scheduled delay
    let outcome = staleness_decision(Some((NOW, NOW + RENEWAL_MARGIN_SECS + 1)), NOW);
    assert_eq!(outcome, CertOutcome::ValidFor(1));
}

#[test]
fn expired_certificate_regenerates_with_zero_delay() {
    let outcome = staleness_decision(Some((NOW - 10 * DAY, NOW - DAY)), NOW);
    assert_eq!(
        outcome,
        CertOutcome::Regenerate(RegenerateReason::OutsideValidityWindow)
    );
    assert_eq!(outcome.delay_secs(), 0);
}

#[test]
fn not_yet_valid_certificate_regenerates() {
    let outcome = staleness_decision(Some((NOW + DAY, NOW + 10 * DAY)), NOW);
    assert_eq!(
        outcome,
        CertOutcome::Regenerate(RegenerateReason::OutsideValidityWindow)
    );
}

#[test]
fn unparsable_certificate_regenerates() {
    let garbage = vec![0u8, 1, 2, 3, 4];
    let outcome = evaluate_certificate(&garbage, NOW);
    assert_eq!(outcome, CertOutcome::Regenerate(RegenerateReason::Unparsable));
}

#[test]
fn missing_artifacts_regenerate_without_reading_bytes() {
    let mut presence = full_presence();
    presence.private_key_der = false;
    let outcome = ensure_valid(&presence, None, NOW);
    assert_eq!(
        outcome,
        CertOutcome::Regenerate(RegenerateReason::MissingArtifacts)
    );
    assert_eq!(outcome.delay_secs(), 0);
}

#[test]
fn bundle_names_match_the_write_plan() {
    let service = CertificateCheckService::new(HostConfig::default());
    let plan = service.generate(NOW).expect("generation failed");
    let planned: Vec<String> = plan.into_iter().map(|(name, _)| name).collect();
    assert_eq!(planned, bundle_file_names());
}

#[test]
fn generated_bundle_plans_all_six_files() {
    let service = CertificateCheckService::new(HostConfig::default());
    let plan = service.generate(NOW).expect("generation failed");
    let names: Vec<&str> = plan.iter().map(|(name, _)| name.as_str()).collect();
    assert_eq!(
        names,
        vec![
            "request.pem",
            "request.der",
            "certificate.pem",
            "certificate.der",
            "private_key.pem",
            "private_key.der",
        ]
    );
    for (_, content) in &plan {
        assert!(!content.is_empty());
    }
}

#[test]
fn generated_certificate_is_valid_for_the_whole_window() {
    let service = CertificateCheckService::new(HostConfig::default());
    let plan = service.generate(NOW).expect("generation failed");
    let der = &plan[3].1;

    // evaluated at issue time, the next check comes at expiry minus the margin
    let outcome = evaluate_certificate(der, NOW);
    assert_eq!(
        outcome,
        CertOutcome::ValidFor((VALIDITY_WINDOW_SECS - RENEWAL_MARGIN_SECS) as u64)
    );

    // within the renewal margin of its expiry it is renewed proactively
    let near_expiry = NOW + VALIDITY_WINDOW_SECS - DAY;
    assert_eq!(
        evaluate_certificate(der, near_expiry),
        CertOutcome::Regenerate(RegenerateReason::ExpiringSoon)
    );

    // long after expiry the same bytes ask for regeneration
    let later = NOW + VALIDITY_WINDOW_SECS + DAY;
    assert_eq!(
        evaluate_certificate(der, later),
        CertOutcome::Regenerate(RegenerateReason::OutsideValidityWindow)
    );

    // before the window begins they are not valid either
    let earlier = NOW - DAY;
    assert_eq!(
        evaluate_certificate(der, earlier),
        CertOutcome::Regenerate(RegenerateReason::OutsideValidityWindow)
    );
}

#[test]
fn full_bundle_with_valid_certificate_schedules_next_check() {
    let service = CertificateCheckService::new(HostConfig::default());
    let plan = service.generate(NOW).expect("generation failed");
    let der = &plan[3].1;
    let outcome = ensure_valid(&full_presence(), Some(der), NOW + DAY);
    assert_eq!(
        outcome,
        CertOutcome::ValidFor((VALIDITY_WINDOW_SECS - RENEWAL_MARGIN_SECS - DAY) as u64)
    );
}

#[test]
fn generation_window_stays_encodable() {
    // the ten-year window always fits the largest encodable year
    assert!(NOW + VALIDITY_WINDOW_SECS <= MAX_ENCODABLE_UNIX_SECS);
    let service = CertificateCheckService::new(HostConfig::default());
    // the latest clock the host may issue at still round-trips its window
    let latest = MAX_ENCODABLE_UNIX_SECS - VALIDITY_WINDOW_SECS;
    let plan = service.generate(latest).expect("generation failed");
    assert_eq!(
        evaluate_certificate(&plan[3].1, latest + DAY),
        CertOutcome::ValidFor((VALIDITY_WINDOW_SECS - RENEWAL_MARGIN_SECS - DAY) as u64)
    );
}
