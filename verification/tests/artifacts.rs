use shared::application::services::artifact_service::{
    ArtifactService, ArtifactServiceError, MetadataKind, StatusSubject,
};
use shared::application::ports::commands::Command;
use shared::application::services::artifact_service::SubmissionStep;
use shared::domain::{
    Artifact, ArtifactIngestion, ArtifactIngestionStatus,
    ArtifactPublicationStatus, ArtifactType,
};

type Artifacts = ArtifactService<(), (), (), (), (), ()>;

fn artifact(artifact_type: ArtifactType, path: Option<&str>, fully_ingested: bool) -> Artifact {
    Artifact { id: 1, artifact_type, path: path.map(|p| p.to_string()), fully_ingested }
}

#[test]
fn only_existing_artifacts_with_metadata_are_published() {
    match Artifacts::require_artifact_to_publish(None) {
        Err(ArtifactServiceError::MissingArtifact(m)) => assert_eq!(m, "Artifact must exist in order to publish it"),
        other => panic!("unexpected {:?}", other),
    }
    let a = Artifacts::require_artifact_to_publish(Some(artifact(ArtifactType::Dataset, None, false))).unwrap();
    assert_eq!(Artifacts::metadata_kind(a.artifact_type), MetadataKind::DatasetMetadata);
    assert_eq!(Artifacts::metadata_kind(ArtifactType::Model), MetadataKind::ModelMetadata);
    match Artifacts::require_metadata_to_publish(false) {
        Err(ArtifactServiceError::MissingMetadata(m)) => assert_eq!(
            m,
            "Artifact must have an associated metadata entry in order to be published. Create a metadata entry for this artifact and try again"
        ),
        other => panic!("unexpected {:?}", other),
    }
    assert!(Artifacts::require_metadata_to_publish(true).is_ok());
}

#[test]
fn ingested_path_is_given_only_for_fully_ingested_artifacts() {
    match Artifacts::get_ingested_artifact_path(&artifact(ArtifactType::Model, Some("/a"), false)) {
        Err(ArtifactServiceError::AritfactNotIngested(m)) => {
            assert_eq!(m, "Attempting to get the path of an Artifact that is not fully ingested")
        }
        other => panic!("unexpected {:?}", other),
    }
    match Artifacts::get_ingested_artifact_path(&artifact(ArtifactType::Model, None, true)) {
        Err(ArtifactServiceError::UnexpectedState(m)) => assert_eq!(
            m,
            "Attempting to access path on a fully ingested artifact, but the path is None"
        ),
        other => panic!("unexpected {:?}", other),
    }
    assert_eq!(
        Artifacts::get_ingested_artifact_path(&artifact(ArtifactType::Model, Some("/data/a"), true)).unwrap(),
        "/data/a"
    );
}

#[test]
fn lookups_report_missing_artifacts() {
    match Artifacts::require_found_artifact(None) {
        Err(ArtifactServiceError::NotFound(m)) => {
            assert_eq!(m, "Cannot find any record of the artifact associated with ID")
        }
        other => panic!("unexpected {:?}", other),
    }
    match Artifacts::require_ingested_artifact(None) {
        Err(ArtifactServiceError::NotFound(m)) => {
            assert_eq!(m, "Cannot find any record of the artifact associated with this ingestion")
        }
        other => panic!("unexpected {:?}", other),
    }
    match Artifacts::artifact_path(&artifact(ArtifactType::Model, None, true)) {
        Err(ArtifactServiceError::NotFound(m)) => assert_eq!(m, "Artifact path is not set"),
        other => panic!("unexpected {:?}", other),
    }
    assert_eq!(Artifacts::artifact_path(&artifact(ArtifactType::Model, Some("/p"), false)).unwrap(), "/p");
}

#[test]
fn model_artifacts_must_be_models() {
    match Artifacts::require_model_artifact(0xabc, artifact(ArtifactType::Dataset, None, false)) {
        Err(ArtifactServiceError::MissingArtifact(m)) => {
            assert_eq!(m, "Cannot find artifact with id 00000000-0000-0000-0000-000000000abc")
        }
        other => panic!("unexpected {:?}", other),
    }
    assert!(Artifacts::require_model_artifact(1, artifact(ArtifactType::Model, None, false)).is_ok());
}

#[test]
fn model_publications_and_ingestions_must_concern_models() {
    let p = Artifacts::new_publication(&artifact(ArtifactType::Dataset, None, false), 1, "hf".into());
    match Artifacts::require_model_publication(Some(p)) {
        Err(ArtifactServiceError::IncorrectArtifactType(m)) => {
            assert_eq!(m, "ArtifactPublication is not associated with a Model artifact")
        }
        other => panic!("unexpected {:?}", other),
    }
    assert!(matches!(Artifacts::require_model_publication(None), Ok(None)));
    let i = Artifacts::new_ingestion(&artifact(ArtifactType::Dataset, None, false), 1, "hf".into(), None);
    match Artifacts::require_model_ingestion(Some(i)) {
        Err(ArtifactServiceError::IncorrectArtifactType(m)) => {
            assert_eq!(m, "ArtifactIngestion is not associated with a Model artifact")
        }
        other => panic!("unexpected {:?}", other),
    }
    let i = Artifacts::new_ingestion(&artifact(ArtifactType::Model, None, false), 1, "hf".into(), None);
    assert!(matches!(Artifacts::require_model_ingestion(Some(i)), Ok(Some(_))));
}

#[test]
fn publications_are_listed_for_existing_model_artifacts() {
    match Artifacts::check_publications_listable(2, &None) {
        Err(ArtifactServiceError::NotFound(m)) => {
            assert_eq!(m, "Artifact with id '00000000-0000-0000-0000-000000000002' not found")
        }
        other => panic!("unexpected {:?}", other),
    }
    match Artifacts::check_publications_listable(2, &Some(artifact(ArtifactType::Dataset, None, false))) {
        Err(ArtifactServiceError::IncorrectArtifactType(m)) => {
            assert_eq!(m, "Expected type Model found type Dataset")
        }
        other => panic!("unexpected {:?}", other),
    }
    assert!(Artifacts::check_publications_listable(2, &Some(artifact(ArtifactType::Model, None, false))).is_ok());
}

#[test]
fn status_changes_report_unknown_records_and_keep_messages() {
    match Artifacts::status_subject_not_found(StatusSubject::Publication, 5) {
        ArtifactServiceError::NotFound(m) => assert_eq!(
            m,
            "Cannot find any record of ArtifactPublication '00000000-0000-0000-0000-000000000005'."
        ),
        other => panic!("unexpected {:?}", other),
    }
    match Artifacts::status_subject_not_found(StatusSubject::Ingestion, 5) {
        ArtifactServiceError::NotFound(m) => assert_eq!(
            m,
            "Cannot find any record of ArtifactIngestion '00000000-0000-0000-0000-000000000005'."
        ),
        other => panic!("unexpected {:?}", other),
    }
    assert_eq!(Artifacts::updated_message(Some("old".into()), None).as_deref(), Some("old"));
    assert_eq!(Artifacts::updated_message(Some("old".into()), Some("new".into())).as_deref(), Some("new"));
}

#[test]
fn missing_files_name_the_artifact_and_path() {
    match Artifacts::missing_files(1, &"/data/x".to_string()) {
        ArtifactServiceError::MissingArtifactFiles(m) => assert_eq!(
            m,
            "No files found for Artifact '00000000-0000-0000-0000-000000000001' at path '/data/x'"
        ),
        other => panic!("unexpected {:?}", other),
    }
}

fn ingestion() -> ArtifactIngestion {
    let a = Artifacts::new_artifact(7, ArtifactType::Model);
    assert!(!a.fully_ingested && a.path.is_none());
    Artifacts::new_ingestion(&a, 9, "huggingface".into(), Some("https://hook".into()))
}

#[test]
fn new_ingestion_is_submitted_for_its_artifact() {
    let i = ingestion();
    assert_eq!(i.id, 9);
    assert_eq!(i.artifact_id, 7);
    assert_eq!(i.artifact_type, ArtifactType::Model);
    assert_eq!(i.platform, "huggingface");
    assert_eq!(i.status, ArtifactIngestionStatus::Submitted);
    match Artifacts::ingestion_command(&i, "{}".into()) {
        Command::IngestArtifactCommand(p) => {
            assert_eq!(p.ingestion_id, 9);
            assert_eq!(p.platform, "huggingface");
            assert_eq!(p.webhook_url.as_deref(), Some("https://hook"));
            assert_eq!(p.serialized_client_request, "{}");
        }
        other => panic!("unexpected {:?}", other),
    }
    assert_eq!((shared::text::fresh_id() >> 76) & 0xf, 7);
}

#[test]
fn an_unpublished_ingestion_is_marked_failed() {
    match Artifacts::after_ingestion_submitted(ingestion(), Err("broker down".into())) {
        SubmissionStep::MarkFailed(i, ArtifactServiceError::PubisherError(m)) => {
            assert_eq!(i.status, ArtifactIngestionStatus::Failed);
            assert_eq!(i.id, 9);
            assert_eq!(m, "broker down");
        }
        other => panic!("unexpected {:?}", other),
    }
    assert!(matches!(
        Artifacts::after_ingestion_submitted(ingestion(), Ok(())),
        SubmissionStep::Submitted(i) if i.status == ArtifactIngestionStatus::Submitted
    ));
}

#[test]
fn an_unpublished_publication_is_marked_failed() {
    let a = artifact(ArtifactType::Model, None, true);
    let p = Artifacts::new_publication(&a, 3, "hf".into());
    assert_eq!(p.status, ArtifactPublicationStatus::Submitted);
    match Artifacts::publication_command(&p, None, "req".into()) {
        Command::PublishArtifactCommand(c) => assert_eq!(c.publication_id, 3),
        other => panic!("unexpected {:?}", other),
    }
    match Artifacts::after_publication_submitted(p, Err("x".into())) {
        SubmissionStep::MarkFailed(p, ArtifactServiceError::PubisherError(m)) => {
            assert_eq!(p.status, ArtifactPublicationStatus::Failed);
            assert_eq!(m, "x");
        }
        other => panic!("unexpected {:?}", other),
    }
}

#[test]
fn status_changes_and_finishing() {
    let i = Artifacts::ingestion_with_status(ingestion(), ArtifactIngestionStatus::Started, Some("go".into()));
    assert_eq!(i.status, ArtifactIngestionStatus::Started);
    assert_eq!(i.last_message.as_deref(), Some("go"));
    let i = Artifacts::ingestion_with_status(i, ArtifactIngestionStatus::Started, None);
    assert_eq!(i.last_message.as_deref(), Some("go"));
    let i = Artifacts::finished_ingestion(i, "/data/9".into());
    assert_eq!(i.status, ArtifactIngestionStatus::Finished);
    assert_eq!(i.artifact_path.as_deref(), Some("/data/9"));
    let p = Artifacts::new_publication(&artifact(ArtifactType::Model, None, true), 3, "hf".into());
    let p = Artifacts::publication_with_status(p, ArtifactPublicationStatus::Finished, None);
    assert_eq!(p.status, ArtifactPublicationStatus::Finished);
    assert!(p.last_message.is_none());
}
