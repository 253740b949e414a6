use vstd::prelude::*;
use crate::domain::ArtifactType;

verus! {

/// Asks the ingestion workers to ingest an artifact from a platform.
#[derive(Clone, Debug)]
pub struct IngestArtifactCommandPayload {
    pub ingestion_id: u128,
    pub artifact_type: ArtifactType,
    pub platform: String,
    pub serialized_client_request: String,
    pub webhook_url: Option<String>,
}

/// Asks the workers to publish an artifact.
#[derive(Clone, Debug)]
pub struct PublishArtifactCommandPayload {
    pub publication_id: u128,
    pub webhook_url: Option<String>,
    pub serialized_client_request: String,
}

/// A command put on the artifact operations broker.
#[derive(Clone, Debug)]
pub enum Command {
    IngestArtifactCommand(IngestArtifactCommandPayload),
    PublishArtifactCommand(PublishArtifactCommandPayload),
}

} // verus!
