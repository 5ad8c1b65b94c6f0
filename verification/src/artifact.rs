//! Composite artifact policy for Gemma 4 checkpoints.

use crate::text::push_item;
use std::collections::BTreeSet;
use vstd::prelude::*;

verus! {

/// Part that a component plays in a composite artifact.
#[derive(Debug, Clone, Copy, PartialEq, Eq, Structural)]
pub enum ArtifactRole {
    /// Primary decoder.
    Decoder,
    /// Sibling media projector.
    Projector,
    /// External assistant.
    Assistant,
}

/// One component of a composite artifact.
#[derive(Debug, Clone)]
pub struct ArtifactComponentSchema {
    /// Component identity.
    pub component: String,
    /// Part it plays.
    pub role: ArtifactRole,
    /// Whether it must be there.
    pub required: bool,
    /// Model identity it must declare.
    pub architecture: String,
}

/// What a component schema says.
pub struct ComponentSchema {
    pub component: Seq<char>,
    pub role: ArtifactRole,
    pub required: bool,
    pub architecture: Seq<char>,
}

impl DeepView for ArtifactComponentSchema {
    type V = ComponentSchema;

    open spec fn deep_view(&self) -> ComponentSchema {
        ComponentSchema {
            component: self.component@,
            role: self.role,
            required: self.required,
            architecture: self.architecture@,
        }
    }
}

/// Primary component and its siblings.
#[derive(Debug, Clone)]
pub struct CompositeArtifactSchema {
    /// Primary component.
    pub primary: ArtifactComponentSchema,
    /// Sibling components.
    pub siblings: Vec<ArtifactComponentSchema>,
}

/// Invalid composite artifact.
#[derive(Debug, Clone, Copy, PartialEq, Eq, Structural)]
pub enum CompositeArtifactError {
    /// Projector and decoder widths differ, or there is no decoder width.
    ProjectorWidthMismatch {
        /// Decoder width.
        decoder: usize,
        /// Projector width.
        projector: usize,
    },
}

/// Stable parameter identities by owning component.
#[derive(Debug, Clone)]
pub struct ComponentParameterCatalog {
    /// Components and their parameters, in order.
    pub components: Vec<(String, Vec<String>)>,
}

/// Facts of a decoder and a projector that must agree.
#[derive(Debug, Clone)]
pub struct ProjectorCompatibility {
    /// Decoder model identity.
    pub decoder_architecture: String,
    /// Projector model identity.
    pub projector_architecture: String,
    /// Decoder hidden width.
    pub decoder_hidden_width: usize,
    /// Projector output width.
    pub projector_output_width: usize,
    /// Placeholder tokens that the decoder declares.
    pub decoder_modality_tokens: BTreeSet<u32>,
    /// Placeholder tokens that the projector declares.
    pub projector_modality_tokens: BTreeSet<u32>,
}

/// Backend-independent artifact geometry needed before weight loading.
#[derive(Debug, Clone, PartialEq, Eq)]
pub struct Gemma4ArtifactConfig {
    /// Whether the primary model uses the unified architecture identity.
    pub unified: bool,
    /// Decoder hidden width.
    pub hidden_size: usize,
    /// Optional image placeholder identity.
    pub image_token_id: Option<u32>,
    /// Optional video placeholder identity.
    pub video_token_id: Option<u32>,
    /// Optional audio placeholder identity.
    pub audio_token_id: Option<u32>,
    /// Whether a sibling media projector is admitted.
    pub projector: bool,
    /// Whether an external assistant artifact is required.
    pub assistant: bool,
}

impl Gemma4ArtifactConfig {
    /// Model identity admitted by the primary artifact.
    pub open spec fn identity(self) -> Seq<char> {
        if self.unified {
            "gemma4_unified"@
        } else {
            "gemma4"@
        }
    }

    /// A component that declares the admitted model identity.
    pub open spec fn component(
        self,
        component: Seq<char>,
        role: ArtifactRole,
        required: bool,
    ) -> ComponentSchema {
        ComponentSchema { component, role, required, architecture: self.identity() }
    }

    /// Siblings of the decoder: an optional projector, then a required assistant.
    pub open spec fn siblings(self) -> Seq<ComponentSchema> {
        let projector = if self.projector {
            seq![self.component("media_projector"@, ArtifactRole::Projector, false)]
        } else {
            Seq::empty()
        };
        if self.assistant {
            projector.push(self.component("assistant"@, ArtifactRole::Assistant, true))
        } else {
            projector
        }
    }

    /// Stable parameters by owning component.
    pub open spec fn parameters(self) -> Seq<(Seq<char>, Seq<Seq<char>>)> {
        let decoder = seq![
            (
                "decoder"@,
                seq!["model.embed_tokens.weight"@, "model.norm.weight"@, "lm_head.weight"@],
            ),
        ];
        let projector = if self.projector {
            decoder.push(
                (
                    "media_projector"@,
                    seq![
                        "model.embed_vision.projection.weight"@,
                        "model.embed_audio.embedding_projection.weight"@,
                    ],
                ),
            )
        } else {
            decoder
        };
        if self.assistant {
            projector.push(
                (
                    "assistant"@,
                    seq![
                        "masked_embedding.centroids.weight"@,
                        "masked_embedding.token_ordering"@,
                    ],
                ),
            )
        } else {
            projector
        }
    }

    /// Placeholder tokens that the decoder declares.
    pub open spec fn modality_tokens(self) -> Set<u32> {
        Set::new(
            |token: u32|
                self.image_token_id == Some(token) || self.video_token_id == Some(token)
                    || self.audio_token_id == Some(token),
        )
    }

    /// Returns the exact model identity admitted by the primary artifact.
    pub fn architecture(&self) -> (r: &'static str)
        ensures
            r@ == self.identity(),
    {
        if self.unified {
            "gemma4_unified"
        } else {
            "gemma4"
        }
    }

    fn schema_of(&self, component: &str, role: ArtifactRole, required: bool) -> (r:
        ArtifactComponentSchema)
        ensures
            r.deep_view() == self.component(component@, role, required),
    {
        ArtifactComponentSchema {
            component: component.to_owned(),
            role,
            required,
            architecture: self.architecture().to_owned(),
        }
    }

    /// Whether `schema` is that of the artifact.
    pub open spec fn is_schema(self, schema: CompositeArtifactSchema) -> bool {
        &&& schema.primary.deep_view() == self.component("decoder"@, ArtifactRole::Decoder, true)
        &&& schema.siblings.deep_view() == self.siblings()
    }

    /// Builds the primary-plus-sibling artifact schema.
    pub fn artifact_schema(&self) -> (r: Result<CompositeArtifactSchema, CompositeArtifactError>)
        ensures
            if self.hidden_size == 0 {
                r == Err::<CompositeArtifactSchema, CompositeArtifactError>(
                    CompositeArtifactError::ProjectorWidthMismatch { decoder: 0, projector: 0 },
                )
            } else {
                r matches Ok(schema) && self.is_schema(schema)
            },
    {
        if self.hidden_size == 0 {
            return Err(
                CompositeArtifactError::ProjectorWidthMismatch { decoder: 0, projector: 0 },
            );
        }
        let mut siblings: Vec<ArtifactComponentSchema> = Vec::new();
        if self.projector {
            push_item(
                &mut siblings,
                self.schema_of("media_projector", ArtifactRole::Projector, false),
            );
        }
        if self.assistant {
            push_item(
                &mut siblings,
                self.schema_of("assistant", ArtifactRole::Assistant, true),
            );
        }
        assert(siblings.deep_view() =~= self.siblings());
        Ok(
            CompositeArtifactSchema {
                primary: self.schema_of("decoder", ArtifactRole::Decoder, true),
                siblings,
            },
        )
    }

    /// Builds component ownership for stable logical parameter identities.
    pub fn parameter_catalog(&self) -> (r: ComponentParameterCatalog)
        ensures
            r.components.deep_view() == self.parameters(),
    {
        let mut components: Vec<(String, Vec<String>)> = Vec::new();
        let decoder = vec![
            "model.embed_tokens.weight".to_owned(),
            "model.norm.weight".to_owned(),
            "lm_head.weight".to_owned(),
        ];
        assert(decoder.deep_view() =~= seq![
            "model.embed_tokens.weight"@,
            "model.norm.weight"@,
            "lm_head.weight"@,
        ]);
        push_item(&mut components, ("decoder".to_owned(), decoder));
        if self.projector {
            let projector = vec![
                "model.embed_vision.projection.weight".to_owned(),
                "model.embed_audio.embedding_projection.weight".to_owned(),
            ];
            assert(projector.deep_view() =~= seq![
                "model.embed_vision.projection.weight"@,
                "model.embed_audio.embedding_projection.weight"@,
            ]);
            push_item(&mut components, ("media_projector".to_owned(), projector));
        }
        if self.assistant {
            let assistant = vec![
                "masked_embedding.centroids.weight".to_owned(),
                "masked_embedding.token_ordering".to_owned(),
            ];
            assert(assistant.deep_view() =~= seq![
                "masked_embedding.centroids.weight"@,
                "masked_embedding.token_ordering"@,
            ]);
            push_item(&mut components, ("assistant".to_owned(), assistant));
        }
        assert(components.deep_view() =~= self.parameters());
        ComponentParameterCatalog { components }
    }

    /// Whether `facts` are those of the decoder and of a projector.
    pub open spec fn compares(
        self,
        facts: ProjectorCompatibility,
        projector_architecture: String,
        projector_output_width: usize,
        projector_modality_tokens: BTreeSet<u32>,
    ) -> bool {
        &&& facts.decoder_architecture@ == self.identity()
        &&& facts.projector_architecture == projector_architecture
        &&& facts.decoder_hidden_width == self.hidden_size
        &&& facts.projector_output_width == projector_output_width
        &&& facts.decoder_modality_tokens@ == self.modality_tokens()
        &&& facts.projector_modality_tokens == projector_modality_tokens
    }

    /// Builds the sibling-projector compatibility proof checked before loading.
    pub fn projector_compatibility(
        &self,
        projector_architecture: String,
        projector_output_width: usize,
        projector_modality_tokens: BTreeSet<u32>,
    ) -> (r: ProjectorCompatibility)
        ensures
            self.compares(
                r,
                projector_architecture,
                projector_output_width,
                projector_modality_tokens,
            ),
    {
        broadcast use vstd::laws_cmp::group_laws_cmp;

        let mut tokens: BTreeSet<u32> = BTreeSet::new();
        if let Some(token) = self.image_token_id {
            tokens.insert(token);
        }
        if let Some(token) = self.video_token_id {
            tokens.insert(token);
        }
        if let Some(token) = self.audio_token_id {
            tokens.insert(token);
        }
        assert(tokens@ =~= self.modality_tokens());
        ProjectorCompatibility {
            decoder_architecture: self.architecture().to_owned(),
            projector_architecture,
            decoder_hidden_width: self.hidden_size,
            projector_output_width,
            decoder_modality_tokens: tokens,
            projector_modality_tokens,
        }
    }
}

} // verus!
