//! The decisions of the artifact service: which artifacts may be published,
//! which lookups fail and with what message, and where an ingested artifact
//! lies.

use vstd::prelude::*;
use crate::application::ports::commands::{
    Command, IngestArtifactCommandPayload, PublishArtifactCommandPayload,
};
use crate::domain::{
    Artifact, ArtifactIngestion, ArtifactIngestionStatus, ArtifactPublication,
    ArtifactPublicationStatus, ArtifactType,
};
use crate::text::{framed, prefixed, uuid_string, uuid_text};

verus! {

#[derive(Debug)]
pub enum ArtifactServiceError {
    /// The message broker refused a command; the message says why.
    PubisherError(String),
    /// A repository failed; the message says why.
    RepoError(String),
    /// An ingestion broke a rule of the domain; the message says which.
    ArtifactIngestionError(String),
    /// A publication broke a rule of the domain; the message says which.
    ArtifactPublicationError(String),
    /// The artifacts' domain service refused; the message says why.
    DomainArtifactServiceError(String),
    NotFound(String),
    MissingArtifactFiles(String),
    MissingArtifact(String),
    MissingMetadata(String),
    AritfactNotIngested(String),
    UnexpectedState(String),
    IncorrectArtifactType(String),
}

/// A request to ingest an artifact of a type from a platform.
pub struct IngestArtifactInput {
    pub artifact_type: ArtifactType,
    pub platform: String,
    pub webhook_url: Option<String>,
    pub serialized_client_request: String,
}

/// A request to publish an existing artifact to a platform.
pub struct PublishArtifactInput {
    pub artifact_id: u128,
    pub target_platform: String,
    pub webhook_url: Option<String>,
    pub serialized_client_request: String,
}

/// What follows the publishing of a submission's command: the submission
/// is returned as it is, or, when the command could not be published, it is
/// stored as failed and the publishing error is returned.
#[derive(Debug)]
pub enum SubmissionStep<T> {
    Submitted(T),
    MarkFailed(T, ArtifactServiceError),
}

/// An identifier given either as a UUID, by its 128 bits, or as text.
#[derive(Debug)]
pub enum UuidOrString {
    Uuid(u128),
    String(String),
}

/// Which metadata an artifact must have before it is published.
#[derive(Clone, Copy, Debug, PartialEq, Eq, Structural)]
pub enum MetadataKind {
    ModelMetadata,
    DatasetMetadata,
}

pub open spec fn metadata_kind_spec(t: ArtifactType) -> MetadataKind {
    match t {
        ArtifactType::Model => MetadataKind::ModelMetadata,
        ArtifactType::Dataset => MetadataKind::DatasetMetadata,
    }
}

pub open spec fn missing_metadata_text() -> Seq<char> {
    "Artifact must have an associated metadata entry in order to be published. Create a metadata entry for this artifact and try again"@
}

/// Whose record could not be found when its status was to change.
#[derive(Clone, Copy, Debug, PartialEq, Eq, Structural)]
pub enum StatusSubject {
    Publication,
    Ingestion,
}

pub open spec fn subject_name(s: StatusSubject) -> Seq<char> {
    match s {
        StatusSubject::Publication => "ArtifactPublication"@,
        StatusSubject::Ingestion => "ArtifactIngestion"@,
    }
}

pub struct ArtifactService<A, I, P, M, D, C> {
    artifact_repo: A,
    ingestion_repo: I,
    publication_repo: P,
    model_metadata_repo: M,
    dataset_metadata_repo: D,
    command_publisher: C,
}

impl<A, I, P, M, D, C> ArtifactService<A, I, P, M, D, C> {
    pub closed spec fn parts(&self) -> (A, I, P, M, D, C) {
        (
            self.artifact_repo,
            self.ingestion_repo,
            self.publication_repo,
            self.model_metadata_repo,
            self.dataset_metadata_repo,
            self.command_publisher,
        )
    }

    pub fn new(
        artifact_repo: A,
        ingestion_repo: I,
        publication_repo: P,
        model_metadata_repo: M,
        dataset_metadata_repo: D,
        command_publisher: C,
    ) -> (s: Self)
        ensures
            s.parts() == (
                artifact_repo,
                ingestion_repo,
                publication_repo,
                model_metadata_repo,
                dataset_metadata_repo,
                command_publisher,
            ),
    {
        ArtifactService {
            artifact_repo,
            ingestion_repo,
            publication_repo,
            model_metadata_repo,
            dataset_metadata_repo,
            command_publisher,
        }
    }

    pub fn artifact_repo(&self) -> (r: &A)
        ensures
            *r == self.parts().0,
    {
        &self.artifact_repo
    }

    pub fn ingestion_repo(&self) -> (r: &I)
        ensures
            *r == self.parts().1,
    {
        &self.ingestion_repo
    }

    pub fn publication_repo(&self) -> (r: &P)
        ensures
            *r == self.parts().2,
    {
        &self.publication_repo
    }

    pub fn model_metadata_repo(&self) -> (r: &M)
        ensures
            *r == self.parts().3,
    {
        &self.model_metadata_repo
    }

    pub fn dataset_metadata_repo(&self) -> (r: &D)
        ensures
            *r == self.parts().4,
    {
        &self.dataset_metadata_repo
    }

    pub fn command_publisher(&self) -> (r: &C)
        ensures
            *r == self.parts().5,
    {
        &self.command_publisher
    }

    /// An artifact is published only if it exists.
    pub fn require_artifact_to_publish(found: Option<Artifact>) -> (r: Result<
        Artifact,
        ArtifactServiceError,
    >)
        ensures
            match found {
                Some(a) => r == Ok::<Artifact, ArtifactServiceError>(a),
                None => r matches Err(ArtifactServiceError::MissingArtifact(m)) && m@
                    == "Artifact must exist in order to publish it"@,
            },
    {
        match found {
            Some(a) => Ok(a),
            None => Err(
                ArtifactServiceError::MissingArtifact(
                    "Artifact must exist in order to publish it".to_owned(),
                ),
            ),
        }
    }

    /// The metadata that an artifact of this type must have to be published.
    pub fn metadata_kind(artifact_type: ArtifactType) -> (k: MetadataKind)
        ensures
            k == metadata_kind_spec(artifact_type),
    {
        match artifact_type {
            ArtifactType::Model => MetadataKind::ModelMetadata,
            ArtifactType::Dataset => MetadataKind::DatasetMetadata,
        }
    }

    /// An artifact is published only if its metadata entry exists.
    pub fn require_metadata_to_publish(has_metadata: bool) -> (r: Result<(), ArtifactServiceError>)
        ensures
            has_metadata <==> r is Ok,
            !has_metadata ==> (r matches Err(ArtifactServiceError::MissingMetadata(m)) && m@
                == missing_metadata_text()),
    {
        if has_metadata {
            Ok(())
        } else {
            Err(
                ArtifactServiceError::MissingMetadata(
                    "Artifact must have an associated metadata entry in order to be published. Create a metadata entry for this artifact and try again".to_owned(),
                ),
            )
        }
    }

    /// The path of an artifact whose ingestion has finished.
    pub fn get_ingested_artifact_path(artifact: &Artifact) -> (r: Result<
        String,
        ArtifactServiceError,
    >)
        ensures
            !artifact.fully_ingested ==> (r matches Err(ArtifactServiceError::AritfactNotIngested(m))
                && m@ == "Attempting to get the path of an Artifact that is not fully ingested"@),
            artifact.fully_ingested && artifact.path is None ==> (r matches Err(
                ArtifactServiceError::UnexpectedState(m),
            ) && m@
                == "Attempting to access path on a fully ingested artifact, but the path is None"@),
            artifact.fully_ingested && artifact.path is Some ==> r == Ok::<
                String,
                ArtifactServiceError,
            >(artifact.path->Some_0),
    {
        if !artifact.fully_ingested {
            return Err(
                ArtifactServiceError::AritfactNotIngested(
                    "Attempting to get the path of an Artifact that is not fully ingested".to_owned(),
                ),
            );
        }
        match &artifact.path {
            Some(p) => Ok(p.clone()),
            None => Err(
                ArtifactServiceError::UnexpectedState(
                    "Attempting to access path on a fully ingested artifact, but the path is None".to_owned(),
                ),
            ),
        }
    }

    /// The artifact found by id; a missing one is an error.
    pub fn require_found_artifact(found: Option<Artifact>) -> (r: Result<
        Artifact,
        ArtifactServiceError,
    >)
        ensures
            match found {
                Some(a) => r == Ok::<Artifact, ArtifactServiceError>(a),
                None => r matches Err(ArtifactServiceError::NotFound(m)) && m@
                    == "Cannot find any record of the artifact associated with ID"@,
            },
    {
        match found {
            Some(a) => Ok(a),
            None => Err(
                ArtifactServiceError::NotFound(
                    "Cannot find any record of the artifact associated with ID".to_owned(),
                ),
            ),
        }
    }

    /// The artifact of an ingestion that was found; a missing one is an error.
    pub fn require_ingested_artifact(found: Option<Artifact>) -> (r: Result<
        Artifact,
        ArtifactServiceError,
    >)
        ensures
            match found {
                Some(a) => r == Ok::<Artifact, ArtifactServiceError>(a),
                None => r matches Err(ArtifactServiceError::NotFound(m)) && m@
                    == "Cannot find any record of the artifact associated with this ingestion"@,
            },
    {
        match found {
            Some(a) => Ok(a),
            None => Err(
                ArtifactServiceError::NotFound(
                    "Cannot find any record of the artifact associated with this ingestion".to_owned(),
                ),
            ),
        }
    }

    /// The path of a found artifact, for download.
    pub fn artifact_path(artifact: &Artifact) -> (r: Result<String, ArtifactServiceError>)
        ensures
            match artifact.path {
                Some(p) => r == Ok::<String, ArtifactServiceError>(p),
                None => r matches Err(ArtifactServiceError::NotFound(m)) && m@
                    == "Artifact path is not set"@,
            },
    {
        match &artifact.path {
            Some(p) => Ok(p.clone()),
            None => Err(ArtifactServiceError::NotFound("Artifact path is not set".to_owned())),
        }
    }

    /// A found artifact is handed out as a model artifact only if it is one.
    pub fn require_model_artifact(artifact_id: u128, artifact: Artifact) -> (r: Result<
        Artifact,
        ArtifactServiceError,
    >)
        ensures
            artifact.artifact_type == ArtifactType::Model ==> r == Ok::<
                Artifact,
                ArtifactServiceError,
            >(artifact),
            artifact.artifact_type != ArtifactType::Model ==> (r matches Err(
                ArtifactServiceError::MissingArtifact(m),
            ) && m@ == "Cannot find artifact with id "@ + uuid_text(artifact_id)),
    {
        if artifact.artifact_type != ArtifactType::Model {
            let id = uuid_string(artifact_id);
            return Err(
                ArtifactServiceError::MissingArtifact(
                    prefixed("Cannot find artifact with id ", id.as_str()),
                ),
            );
        }
        Ok(artifact)
    }

    /// A found publication is handed out as a model publication only if it
    /// publishes a model.
    pub fn require_model_publication(found: Option<ArtifactPublication>) -> (r: Result<
        Option<ArtifactPublication>,
        ArtifactServiceError,
    >)
        ensures
            match found {
                None => r matches Ok(None),
                Some(p) => if p.artifact_type == ArtifactType::Model {
                    r == Ok::<Option<ArtifactPublication>, ArtifactServiceError>(Some(p))
                } else {
                    r matches Err(ArtifactServiceError::IncorrectArtifactType(m)) && m@
                        == "ArtifactPublication is not associated with a Model artifact"@
                },
            },
    {
        match found {
            None => Ok(None),
            Some(p) => {
                if p.artifact_type != ArtifactType::Model {
                    return Err(
                        ArtifactServiceError::IncorrectArtifactType(
                            "ArtifactPublication is not associated with a Model artifact".to_owned(),
                        ),
                    );
                }
                Ok(Some(p))
            },
        }
    }

    /// A found ingestion is handed out as a model ingestion only if it
    /// ingests a model.
    pub fn require_model_ingestion(found: Option<ArtifactIngestion>) -> (r: Result<
        Option<ArtifactIngestion>,
        ArtifactServiceError,
    >)
        ensures
            match found {
                None => r matches Ok(None),
                Some(i) => if i.artifact_type == ArtifactType::Model {
                    r == Ok::<Option<ArtifactIngestion>, ArtifactServiceError>(Some(i))
                } else {
                    r matches Err(ArtifactServiceError::IncorrectArtifactType(m)) && m@
                        == "ArtifactIngestion is not associated with a Model artifact"@
                },
            },
    {
        match found {
            None => Ok(None),
            Some(i) => {
                if i.artifact_type != ArtifactType::Model {
                    return Err(
                        ArtifactServiceError::IncorrectArtifactType(
                            "ArtifactIngestion is not associated with a Model artifact".to_owned(),
                        ),
                    );
                }
                Ok(Some(i))
            },
        }
    }

    /// The publications of an artifact are listed only for a model artifact
    /// that exists.
    pub fn check_publications_listable(artifact_id: u128, found: &Option<Artifact>) -> (r: Result<
        (),
        ArtifactServiceError,
    >)
        ensures
            match found {
                None => r matches Err(ArtifactServiceError::NotFound(m)) && m@ == "Artifact with id '"@
                    + uuid_text(artifact_id) + "' not found"@,
                Some(a) => if a.artifact_type == ArtifactType::Model {
                    r is Ok
                } else {
                    r matches Err(ArtifactServiceError::IncorrectArtifactType(m)) && m@
                        == "Expected type Model found type "@ + a.artifact_type.name_spec()
                },
            },
    {
        match found {
            None => {
                let id = uuid_string(artifact_id);
                Err(ArtifactServiceError::NotFound(framed("Artifact with id '", id.as_str(), "' not found")))
            },
            Some(a) => {
                if a.artifact_type != ArtifactType::Model {
                    let t = a.artifact_type.name();
                    return Err(
                        ArtifactServiceError::IncorrectArtifactType(
                            prefixed("Expected type Model found type ", t.as_str()),
                        ),
                    );
                }
                Ok(())
            },
        }
    }

    /// The error when no publication or ingestion has the id whose status
    /// was to change.
    pub fn status_subject_not_found(subject: StatusSubject, id: u128) -> (e: ArtifactServiceError)
        ensures
            e matches ArtifactServiceError::NotFound(m) && m@ == "Cannot find any record of "@
                + subject_name(subject) + " '"@ + uuid_text(id) + "'."@,
    {
        let id_text = uuid_string(id);
        let name = match subject {
            StatusSubject::Publication => "Cannot find any record of ArtifactPublication '",
            StatusSubject::Ingestion => "Cannot find any record of ArtifactIngestion '",
        };
        proof {
            reveal_strlit("Cannot find any record of ArtifactPublication '");
            reveal_strlit("Cannot find any record of ArtifactIngestion '");
            reveal_strlit("Cannot find any record of ");
            reveal_strlit("ArtifactPublication");
            reveal_strlit("ArtifactIngestion");
            reveal_strlit(" '");
        }
        let m = framed(name, id_text.as_str(), "'.");
        assert(m@ =~= "Cannot find any record of "@ + subject_name(subject) + " '"@ + uuid_text(id)
            + "'."@);
        ArtifactServiceError::NotFound(m)
    }

    /// The message a status change leaves: the one given, or else the one
    /// recorded before.
    pub fn updated_message(recorded: Option<String>, given: Option<String>) -> (m: Option<String>)
        ensures
            m == (if given is Some {
                given
            } else {
                recorded
            }),
    {
        match given {
            Some(msg) => Some(msg),
            None => recorded,
        }
    }

    /// The error when the files of an artifact are not where its ingestion
    /// says they are.
    pub fn missing_files(artifact_id: u128, path: &String) -> (e: ArtifactServiceError)
        ensures
            e matches ArtifactServiceError::MissingArtifactFiles(m) && m@
                == "No files found for Artifact '"@ + uuid_text(artifact_id) + "' at path '"@ + path@
                + "'"@,
    {
        let id = uuid_string(artifact_id);
        let head = framed("No files found for Artifact '", id.as_str(), "' at path '");
        let m = framed(head.as_str(), path.as_str(), "'");
        ArtifactServiceError::MissingArtifactFiles(m)
    }

    /// A new artifact of the type asked for: not yet ingested, with no path.
    pub fn new_artifact(id: u128, artifact_type: ArtifactType) -> (a: Artifact)
        ensures
            a == (Artifact { id, artifact_type, path: None, fully_ingested: false }),
    {
        Artifact { id, artifact_type, path: None, fully_ingested: false }
    }

    /// A new ingestion of the artifact from the platform: submitted, with no
    /// path and no message yet.
    pub fn new_ingestion(
        artifact: &Artifact,
        id: u128,
        platform: String,
        webhook_url: Option<String>,
    ) -> (i: ArtifactIngestion)
        ensures
            i == (ArtifactIngestion {
                id,
                artifact_id: artifact.id,
                artifact_type: artifact.artifact_type,
                platform,
                webhook_url,
                status: ArtifactIngestionStatus::Submitted,
                artifact_path: None,
                last_message: None,
            }),
    {
        ArtifactIngestion {
            id,
            artifact_id: artifact.id,
            artifact_type: artifact.artifact_type,
            platform,
            webhook_url,
            status: ArtifactIngestionStatus::Submitted,
            artifact_path: None,
            last_message: None,
        }
    }

    /// A new publication of the artifact to the platform: submitted, with
    /// no message yet.
    pub fn new_publication(artifact: &Artifact, id: u128, target_platform: String) -> (p:
        ArtifactPublication)
        ensures
            p == (ArtifactPublication {
                id,
                artifact_id: artifact.id,
                artifact_type: artifact.artifact_type,
                target_platform,
                status: ArtifactPublicationStatus::Submitted,
                last_message: None,
            }),
    {
        ArtifactPublication {
            id,
            artifact_id: artifact.id,
            artifact_type: artifact.artifact_type,
            target_platform,
            status: ArtifactPublicationStatus::Submitted,
            last_message: None,
        }
    }

    /// The command that asks the workers to carry out an ingestion.
    pub fn ingestion_command(ingestion: &ArtifactIngestion, serialized_client_request: String) -> (c:
        Command)
        ensures
            c == Command::IngestArtifactCommand(
                IngestArtifactCommandPayload {
                    ingestion_id: ingestion.id,
                    artifact_type: ingestion.artifact_type,
                    platform: ingestion.platform,
                    serialized_client_request,
                    webhook_url: ingestion.webhook_url,
                },
            ),
    {
        Command::IngestArtifactCommand(
            IngestArtifactCommandPayload {
                ingestion_id: ingestion.id,
                artifact_type: ingestion.artifact_type,
                platform: ingestion.platform.clone(),
                serialized_client_request,
                webhook_url: ingestion.webhook_url.clone(),
            },
        )
    }

    /// The command that asks the workers to carry out a publication.
    pub fn publication_command(
        publication: &ArtifactPublication,
        webhook_url: Option<String>,
        serialized_client_request: String,
    ) -> (c: Command)
        ensures
            c == Command::PublishArtifactCommand(
                PublishArtifactCommandPayload {
                    publication_id: publication.id,
                    webhook_url,
                    serialized_client_request,
                },
            ),
    {
        Command::PublishArtifactCommand(
            PublishArtifactCommandPayload {
                publication_id: publication.id,
                webhook_url,
                serialized_client_request,
            },
        )
    }

    /// What follows the publishing of an ingestion's command: the ingestion
    /// stands when the command was published; otherwise it is to be stored
    /// as failed and the publishing error returned.
    pub fn after_ingestion_submitted(ingestion: ArtifactIngestion, published: Result<(), String>) -> (r:
        SubmissionStep<ArtifactIngestion>)
        ensures
            published is Ok ==> r == SubmissionStep::Submitted(ingestion),
            published matches Err(m) ==> (r matches SubmissionStep::MarkFailed(
                i,
                ArtifactServiceError::PubisherError(e),
            ) && e == m && i == (ArtifactIngestion {
                status: ArtifactIngestionStatus::Failed,
                ..ingestion
            })),
    {
        match published {
            Ok(()) => SubmissionStep::Submitted(ingestion),
            Err(m) => SubmissionStep::MarkFailed(
                ArtifactIngestion { status: ArtifactIngestionStatus::Failed, ..ingestion },
                ArtifactServiceError::PubisherError(m),
            ),
        }
    }

    /// What follows the publishing of a publication's command: the
    /// publication stands when the command was published; otherwise it is to
    /// be stored as failed and the publishing error returned.
    pub fn after_publication_submitted(
        publication: ArtifactPublication,
        published: Result<(), String>,
    ) -> (r: SubmissionStep<ArtifactPublication>)
        ensures
            published is Ok ==> r == SubmissionStep::Submitted(publication),
            published matches Err(m) ==> (r matches SubmissionStep::MarkFailed(
                p,
                ArtifactServiceError::PubisherError(e),
            ) && e == m && p == (ArtifactPublication {
                status: ArtifactPublicationStatus::Failed,
                ..publication
            })),
    {
        match published {
            Ok(()) => SubmissionStep::Submitted(publication),
            Err(m) => SubmissionStep::MarkFailed(
                ArtifactPublication { status: ArtifactPublicationStatus::Failed, ..publication },
                ArtifactServiceError::PubisherError(m),
            ),
        }
    }

    /// An ingestion in the status given, with the message given if one was;
    /// otherwise it keeps its message.
    pub fn ingestion_with_status(
        ingestion: ArtifactIngestion,
        status: ArtifactIngestionStatus,
        message: Option<String>,
    ) -> (i: ArtifactIngestion)
        ensures
            i == (ArtifactIngestion {
                status,
                last_message: if message is Some {
                    message
                } else {
                    ingestion.last_message
                },
                ..ingestion
            }),
    {
        let last_message = Self::updated_message(ingestion.last_message, message);
        ArtifactIngestion { status, last_message, ..ingestion }
    }

    /// A publication in the status given, with the message given if one
    /// was; otherwise it keeps its message.
    pub fn publication_with_status(
        publication: ArtifactPublication,
        status: ArtifactPublicationStatus,
        message: Option<String>,
    ) -> (p: ArtifactPublication)
        ensures
            p == (ArtifactPublication {
                status,
                last_message: if message is Some {
                    message
                } else {
                    publication.last_message
                },
                ..publication
            }),
    {
        let last_message = Self::updated_message(publication.last_message, message);
        ArtifactPublication { status, last_message, ..publication }
    }

    /// An ingestion whose files were found at `path`: it records the path
    /// and is finished.
    pub fn finished_ingestion(ingestion: ArtifactIngestion, path: String) -> (i: ArtifactIngestion)
        ensures
            i == (ArtifactIngestion {
                artifact_path: Some(path),
                status: ArtifactIngestionStatus::Finished,
                ..ingestion
            }),
    {
        ArtifactIngestion {
            artifact_path: Some(path),
            status: ArtifactIngestionStatus::Finished,
            ..ingestion
        }
    }
}

} // verus!
