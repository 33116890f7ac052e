use personal_secretary::{
    candidate_fingerprint, candidate_to_confirmed_fact, is_eligible_for_candidate_extraction,
    validate_memory_candidate, CommitmentMemory, CommitmentStatus, ContentTrustLevel,
    ConversationKind, ConversationRef, MemoryCandidate, MemoryCandidateBatch,
    MemoryCandidateCursor, MemoryCandidateEvent, MemoryCandidateId, MemoryCandidateLeaseToken,
    MemoryCandidateSource, MemoryCandidateStatus, MemoryCandidateVersion, MemoryFactId,
    MemoryFactStatus, MemoryPayload, MessageRole, MessageSource, PersonMemory, ProjectMemory,
    SourceAccountRef, SourceEventId, ThreadActorRef,
};

fn account() -> SourceAccountRef {
    SourceAccountRef::new(MessageSource::NapCat, "account-1").unwrap()
}

fn actor(id: &str) -> ThreadActorRef {
    ThreadActorRef {
        account: account(),
        actor_id: id.into(),
    }
}

fn event(id: &str, text: &str) -> MemoryCandidateEvent {
    MemoryCandidateEvent {
        source_event_id: SourceEventId::new(id).unwrap(),
        actor: actor("alice"),
        role: MessageRole::ExternalObservation,
        occurred_at_unix_secs: 1,
        content_trust_level: ContentTrustLevel::Normal,
        normalized_text: text.into(),
        content_omitted: false,
    }
}

fn batch(events: Vec<MemoryCandidateEvent>) -> MemoryCandidateBatch {
    MemoryCandidateBatch {
        account: account(),
        conversation: ConversationRef::new(ConversationKind::Group, "conv-1").unwrap(),
        lease_token: MemoryCandidateLeaseToken::generate(),
        events,
        next_cursor: MemoryCandidateCursor {
            received_at_unix_micros: 1,
            source_event_id: SourceEventId::new("e0").unwrap(),
        },
    }
}

fn person_candidate(batch: &MemoryCandidateBatch, subject: &str) -> MemoryCandidate {
    let source = MemoryCandidateSource {
        source_event_id: batch.events[0].source_event_id.clone(),
        actor: batch.events[0].actor.clone(),
        occurred_at_unix_secs: 1,
        content_trust_level: ContentTrustLevel::Normal,
    };
    let payload = MemoryPayload::Person(PersonMemory {
        person: actor("alice"),
        relationship: Some("客户".into()),
        responsibilities: Vec::new(),
        communication_preferences: Vec::new(),
    });
    let fingerprint = candidate_fingerprint(
        &account(),
        &payload,
        subject,
        std::slice::from_ref(&source),
        "v1",
    );
    MemoryCandidate {
        candidate_id: MemoryCandidateId::generate(),
        account: account(),
        subject_key: subject.into(),
        payload,
        status: MemoryCandidateStatus::Proposed,
        version: MemoryCandidateVersion::new(1).unwrap(),
        extractor_version: "v1".into(),
        deterministic_fingerprint: fingerprint,
        sources: vec![source],
    }
}

#[test]
fn out_of_batch_sources_actors_and_size_limits_are_rejected() {
    let batch = batch(vec![event("e0", "承诺：给 alice 发送报价单")]);

    let mut candidate = person_candidate(&batch, "person:alice");
    candidate.sources[0].source_event_id = SourceEventId::new("outside").unwrap();
    assert!(validate_memory_candidate(&candidate, &batch).is_err());

    let mut candidate = person_candidate(&batch, "person:alice");
    if let MemoryPayload::Person(person) = &mut candidate.payload {
        person.person.actor_id = "bob".into();
    }
    assert!(validate_memory_candidate(&candidate, &batch).is_err());

    let mut candidate = person_candidate(&batch, "person:alice");
    for index in 1..=20 {
        candidate.sources.push(MemoryCandidateSource {
            source_event_id: SourceEventId::new(&format!("e{index}")).unwrap(),
            actor: actor("alice"),
            occurred_at_unix_secs: index as i64,
            content_trust_level: ContentTrustLevel::Normal,
        });
    }
    assert!(validate_memory_candidate(&candidate, &batch).is_err());

    let mut candidate = person_candidate(&batch, "person:alice");
    if let MemoryPayload::Person(person) = &mut candidate.payload {
        person.relationship = Some("长".repeat(20_000));
    }
    assert!(validate_memory_candidate(&candidate, &batch).is_err());
}

#[test]
fn content_trust_boundaries_gate_extraction_eligibility() {
    assert!(is_eligible_for_candidate_extraction(
        ContentTrustLevel::Normal,
        false
    ));
    assert!(!is_eligible_for_candidate_extraction(
        ContentTrustLevel::LocalOnly,
        false
    ));
    assert!(is_eligible_for_candidate_extraction(
        ContentTrustLevel::LocalOnly,
        true
    ));
    assert!(!is_eligible_for_candidate_extraction(
        ContentTrustLevel::EnvelopeOnly,
        true
    ));
    assert!(!is_eligible_for_candidate_extraction(
        ContentTrustLevel::NeverLongTerm,
        true
    ));

    let batch = batch(vec![event("e0", "x")]);
    let mut candidate = person_candidate(&batch, "person:alice");
    candidate.sources[0].content_trust_level = ContentTrustLevel::EnvelopeOnly;
    assert!(validate_memory_candidate(&candidate, &batch).is_err());
}

#[test]
fn three_kinds_convert_to_confirmed_facts_with_commitment_pending() {
    let batch = batch(vec![event("e0", "x")]);

    let person = person_candidate(&batch, "person:alice");
    let fact =
        candidate_to_confirmed_fact(&person, MemoryFactId::new("fact-person").unwrap()).unwrap();
    assert_eq!(fact.status, MemoryFactStatus::Confirmed);
    assert_eq!(fact.payload.kind(), "person");

    let source = person.sources[0].clone();
    let project_payload = MemoryPayload::Project(ProjectMemory {
        project_key: "alpha".into(),
        goal: "上线".into(),
        member_actor_ids: vec!["alice".into()],
        progress: None,
        decision_ids: Vec::new(),
        risks: Vec::new(),
        blockers: Vec::new(),
        artifact_refs: Vec::new(),
    });
    let project = MemoryCandidate {
        candidate_id: MemoryCandidateId::generate(),
        account: account(),
        subject_key: "project:alpha".into(),
        payload: project_payload.clone(),
        status: MemoryCandidateStatus::Proposed,
        version: MemoryCandidateVersion::new(1).unwrap(),
        extractor_version: "v1".into(),
        deterministic_fingerprint: candidate_fingerprint(
            &account(),
            &project_payload,
            "project:alpha",
            std::slice::from_ref(&source),
            "v1",
        ),
        sources: vec![source.clone()],
    };
    let fact =
        candidate_to_confirmed_fact(&project, MemoryFactId::new("fact-project").unwrap()).unwrap();
    assert_eq!(fact.payload.kind(), "project");

    let commitment_payload = MemoryPayload::Commitment(CommitmentMemory {
        promisor: actor("alice"),
        beneficiary: actor("alice"),
        action: "发送报价单".into(),
        due_at_unix_secs: None,
        status: CommitmentStatus::Proposed,
        completion_source_event_id: None,
    });
    let commitment = MemoryCandidate {
        candidate_id: MemoryCandidateId::generate(),
        account: account(),
        subject_key: "commitment:alice:发送报价单".into(),
        payload: commitment_payload.clone(),
        status: MemoryCandidateStatus::Proposed,
        version: MemoryCandidateVersion::new(1).unwrap(),
        extractor_version: "v1".into(),
        deterministic_fingerprint: candidate_fingerprint(
            &account(),
            &commitment_payload,
            "commitment:alice:发送报价单",
            std::slice::from_ref(&source),
            "v1",
        ),
        sources: vec![source],
    };
    let fact = candidate_to_confirmed_fact(
        &commitment,
        MemoryFactId::new("fact-commitment").unwrap(),
    )
    .unwrap();
    match &fact.payload {
        MemoryPayload::Commitment(commitment) => {
            assert_eq!(commitment.status, CommitmentStatus::Pending);
        }
        _ => panic!("expected commitment payload"),
    }

    let mut rejected = commitment.clone();
    rejected.status = MemoryCandidateStatus::Rejected;
    assert!(
        candidate_to_confirmed_fact(&rejected, MemoryFactId::new("fact-x").unwrap()).is_err()
    );
}
