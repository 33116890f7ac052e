use personal_secretary::{
    validate_memory_fact, CommitmentMemory, CommitmentStatus, MemoryFact, MemoryFactError,
    MemoryFactId, MemoryFactStatus, MemoryPayload, MessageSource, SourceAccountRef,
    SourceEventId, ThreadActorRef,
};

fn account() -> SourceAccountRef {
    SourceAccountRef::new(MessageSource::NapCat, "account").unwrap()
}

#[test]
fn fulfilled_commitment_requires_source_backed_completion() {
    let managed = account();
    let fact = MemoryFact {
        fact_id: MemoryFactId::generate(),
        account: managed.clone(),
        subject_key: "commitment:quote".into(),
        payload: MemoryPayload::Commitment(CommitmentMemory {
            promisor: ThreadActorRef {
                account: managed.clone(),
                actor_id: "alice".into(),
            },
            beneficiary: ThreadActorRef {
                account: managed,
                actor_id: "owner".into(),
            },
            action: "发送报价单".into(),
            due_at_unix_secs: Some(1_800_000_000),
            status: CommitmentStatus::Fulfilled,
            completion_source_event_id: None,
        }),
        status: MemoryFactStatus::Confirmed,
        confidence_bps: 10_000,
        source_event_ids: vec![SourceEventId::new("source").unwrap()],
        valid_until_unix_secs: None,
        supersedes_fact_id: None,
    };
    assert!(matches!(
        validate_memory_fact(&fact),
        Err(MemoryFactError::Invalid(_))
    ));
}
