//! Normalized family and processor state retained by artifact inspection.

use crate::errors::{
    Decoded, Fault, ProcessorPlanError, Reading, answers, fault_if, first_of, refuses, says,
    unplanned,
};
use crate::gemma_processor::{
    Gemma4ImageProcessorSource, Gemma4ModelSource, Gemma4ProcessorPlan, Gemma4VideoProcessorSource,
    GemmaDocuments, GemmaMetadata,
};
use crate::inkling::{InklingProcessorPlan, InklingSource, inkling_reading, unresolved_plan};
use crate::media::{GgufSpecialTokenIds, GgufSpecialTokenKind, MediaFraming};
use crate::metadata::MetadataValue;
use crate::muse::{MuseProcessorPlan, MuseProcessorSource, muse_reading, projector_plans};
use crate::names::StringMap;
use crate::qwen::{
    QwenModelSource, QwenProcessorPlan, QwenProjector, QwenVisualSource, documents_reading,
};
use vstd::prelude::*;

verus! {

/// Model family.
#[derive(Debug, Clone, Copy, PartialEq, Eq, Structural)]
pub enum ModelKind {
    /// Llama.
    Llama,
    /// Gemma 4.
    Gemma4,
    /// Inkling.
    Inkling,
    /// Muse-Glimmer.
    MuseGlimmer,
    /// Qwen 3 VL.
    Qwen3Vl,
    /// Qwen 3 VL with routed experts.
    Qwen3VlMoe,
    /// Qwen 3.5.
    Qwen35,
    /// Any further family, by its place in the registry.
    Other {
        /// Place in the registry.
        id: u32,
    },
}

/// Exact GGUF architecture.
#[derive(Debug, Clone, Copy, PartialEq, Eq, Structural)]
pub enum GgufArchitecture {
    /// Llama.
    Llama,
    /// Mistral.
    Mistral,
    /// DeepSeek 4.
    DeepSeek4,
    /// Gemma 4.
    Gemma4,
    /// Inkling.
    Inkling,
    /// Muse-Glimmer.
    MuseGlimmer,
    /// Qwen 3 VL.
    Qwen3Vl,
    /// Qwen 3 VL with routed experts.
    Qwen3VlMoe,
    /// Qwen 3.5.
    Qwen35,
    /// Qwen 3.5 with routed experts.
    Qwen35Moe,
    /// Any further architecture, by its place in the registry.
    Other {
        /// Place in the registry.
        id: u32,
    },
}

/// Admitted SafeTensors architecture.
#[derive(Debug, Clone)]
pub struct SafetensorsArchitecturePlan<S> {
    /// Model family.
    pub model_kind: ModelKind,
    /// Whether the model routes to grouped experts.
    pub grouped_routed_experts: bool,
    /// Typed configuration and checkpoint plan.
    pub detail: S,
}

/// Admitted GGUF architecture.
#[derive(Debug, Clone)]
pub struct GgufArchitecturePlan<G> {
    /// Exact architecture.
    pub architecture: GgufArchitecture,
    /// Model family.
    pub model_kind: ModelKind,
    /// Whether the model routes to grouped experts.
    pub grouped_routed_experts: bool,
    /// Typed geometry and checkpoint plan.
    pub detail: G,
}

/// Admitted architecture, by artifact format.
#[derive(Debug, Clone)]
pub enum ArtifactFamilyPlan<S, G> {
    /// SafeTensors artifact.
    Safetensors(SafetensorsArchitecturePlan<S>),
    /// GGUF artifact.
    Gguf(GgufArchitecturePlan<G>),
}

/// Processor policy, by family.
#[derive(Debug, Clone)]
pub enum NormalizedProcessorPlan {
    /// Gemma 4.
    Gemma4(Gemma4ProcessorPlan),
    /// Inkling.
    Inkling(InklingProcessorPlan),
    /// Muse-Glimmer.
    Muse(MuseProcessorPlan),
    /// Qwen.
    Qwen(QwenProcessorPlan),
}

/// Mechanism for grouped expert products.
#[derive(Debug, Clone, Copy, PartialEq, Eq, Structural)]
pub enum GroupedOperationRequirement {
    /// Gated products of routed experts.
    GatedProduct,
    /// Partial gated products under tensor parallelism.
    GatedProductTensorParallelPartial,
}

/// Authoritative normalized family and processor state retained by inspection.
///
/// Every artifact admitted by the architecture registry contains a concrete typed family plan
/// before processor enrichment or materialization. `S` and `G` are the typed details of either
/// format, `P` is the media projector, and `E` the prediction extension.
#[derive(Debug, Clone)]
pub struct ArtifactArchitecturePlan<S, G, P, E> {
    /// Admitted architecture.
    pub family: ArtifactFamilyPlan<S, G>,
    /// Validated GGUF media projector.
    pub media_projector: Option<P>,
    /// Processor policy.
    pub processor: Option<NormalizedProcessorPlan>,
    /// Additive prediction extension.
    pub prediction_extension: Option<E>,
}

/// Decoded processor documents of a SafeTensors artifact. Each family reads its own.
#[derive(Debug)]
pub enum ProcessorDocuments {
    /// Gemma 4 model, image, and video documents.
    Gemma4 {
        /// Model configuration.
        model: Decoded<Gemma4ModelSource>,
        /// Image processor configuration.
        image: Option<Decoded<Gemma4ImageProcessorSource>>,
        /// Video processor configuration.
        video: Option<Decoded<Gemma4VideoProcessorSource>>,
    },
    /// Inkling model document.
    Inkling {
        /// Model configuration.
        model: Decoded<InklingSource>,
    },
    /// Muse-Glimmer processor document.
    Muse {
        /// Processor configuration.
        processor: Option<Decoded<MuseProcessorSource>>,
    },
    /// Qwen model, image, and video documents.
    Qwen {
        /// Model configuration.
        model: Decoded<QwenModelSource>,
        /// Image processor configuration.
        image: Option<Decoded<QwenVisualSource>>,
        /// Video processor configuration.
        video: Option<Decoded<QwenVisualSource>>,
    },
    /// No documents.
    Absent,
}

/// Which documents a SafeTensors family reads.
#[derive(Debug, Clone, Copy, PartialEq, Eq, Structural)]
pub enum ProcessorFamily {
    /// Gemma 4 documents.
    Gemma4,
    /// Inkling documents.
    Inkling,
    /// Muse-Glimmer documents.
    Muse,
    /// Qwen documents.
    Qwen,
    /// None.
    Absent,
}

/// Documents that a SafeTensors family reads.
pub open spec fn documents_of(kind: ModelKind) -> ProcessorFamily {
    match kind {
        ModelKind::Gemma4 => ProcessorFamily::Gemma4,
        ModelKind::Inkling => ProcessorFamily::Inkling,
        ModelKind::MuseGlimmer => ProcessorFamily::Muse,
        ModelKind::Qwen3Vl => ProcessorFamily::Qwen,
        ModelKind::Qwen3VlMoe => ProcessorFamily::Qwen,
        ModelKind::Qwen35 => ProcessorFamily::Qwen,
        _ => ProcessorFamily::Absent,
    }
}

impl ModelKind {
    /// Documents that the family reads.
    pub fn processor_family(self) -> (r: ProcessorFamily)
        ensures
            r == documents_of(self),
    {
        match self {
            ModelKind::Gemma4 => ProcessorFamily::Gemma4,
            ModelKind::Inkling => ProcessorFamily::Inkling,
            ModelKind::MuseGlimmer => ProcessorFamily::Muse,
            ModelKind::Qwen3Vl => ProcessorFamily::Qwen,
            ModelKind::Qwen3VlMoe => ProcessorFamily::Qwen,
            ModelKind::Qwen35 => ProcessorFamily::Qwen,
            _ => ProcessorFamily::Absent,
        }
    }
}

impl ProcessorDocuments {
    /// Whether the documents are those that `family` reads.
    pub open spec fn belong_to(self, family: ProcessorFamily) -> bool {
        match family {
            ProcessorFamily::Gemma4 => self is Gemma4,
            ProcessorFamily::Inkling => self is Inkling,
            ProcessorFamily::Muse => self is Muse,
            ProcessorFamily::Qwen => self is Qwen,
            ProcessorFamily::Absent => self is Absent,
        }
    }
}

/// The processor that decoded documents declare, if any.
pub open spec fn documents_processor(documents: ProcessorDocuments) -> Reading<
    Option<NormalizedProcessorPlan>,
> {
    match documents {
        ProcessorDocuments::Gemma4 { model, image, video } => match (GemmaDocuments {
            model,
            image,
            video,
        }).reading() {
            Err(fault) => Err(fault),
            Ok(None) => Ok(None),
            Ok(Some(plan)) => Ok(Some(NormalizedProcessorPlan::Gemma4(plan))),
        },
        ProcessorDocuments::Inkling { model } => match inkling_reading(model) {
            Err(fault) => Err(fault),
            Ok(None) => Ok(None),
            Ok(Some(plan)) => Ok(Some(NormalizedProcessorPlan::Inkling(plan))),
        },
        ProcessorDocuments::Muse { processor } => match processor {
            None => Ok(None),
            Some(document) => match muse_reading(document) {
                Err(fault) => Err(fault),
                Ok(plan) => Ok(Some(NormalizedProcessorPlan::Muse(plan))),
            },
        },
        ProcessorDocuments::Qwen { model, image, video } => match documents_reading(
            model,
            image,
            video,
        ) {
            Err(fault) => Err(fault),
            Ok(None) => Ok(None),
            Ok(Some(plan)) => Ok(Some(NormalizedProcessorPlan::Qwen(plan))),
        },
        ProcessorDocuments::Absent => Ok(None),
    }
}

fn plan_documents(documents: ProcessorDocuments) -> (r: Result<
    Option<NormalizedProcessorPlan>,
    ProcessorPlanError,
>)
    ensures
        answers(r, documents_processor(documents)),
{
    match documents {
        ProcessorDocuments::Gemma4 { model, image, video } => {
            match Gemma4ProcessorPlan::from_hf_json(model, image, video)? {
                Some(plan) => Ok(Some(NormalizedProcessorPlan::Gemma4(plan))),
                None => Ok(None),
            }
        },
        ProcessorDocuments::Inkling { model } => match InklingProcessorPlan::from_hf_json(model)? {
            Some(plan) => Ok(Some(NormalizedProcessorPlan::Inkling(plan))),
            None => Ok(None),
        },
        ProcessorDocuments::Muse { processor } => match processor {
            Some(document) => Ok(
                Some(NormalizedProcessorPlan::Muse(MuseProcessorPlan::from_hf_json(document)?)),
            ),
            None => Ok(None),
        },
        ProcessorDocuments::Qwen { model, image, video } => {
            match QwenProcessorPlan::from_hf_json(model, image, video)? {
                Some(plan) => Ok(Some(NormalizedProcessorPlan::Qwen(plan))),
                None => Ok(None),
            }
        },
        ProcessorDocuments::Absent => Ok(None),
    }
}

/// Settings of an admitted projector.
pub open spec fn settings_of(projector: Option<&StringMap<MetadataValue>>) -> Option<
    Map<Seq<char>, MetadataValue>,
> {
    match projector {
        Some(projector) => Some(projector@),
        None => None,
    }
}

/// Whether `r` is the outcome of planning the processor of a GGUF artifact: none without a
/// projector, and none for families without media.
pub open spec fn projector_processor(
    architecture: GgufArchitecture,
    model: Map<Seq<char>, MetadataValue>,
    projector: Option<Map<Seq<char>, MetadataValue>>,
    r: Result<Option<NormalizedProcessorPlan>, ProcessorPlanError>,
) -> bool {
    match (architecture, projector) {
        (_, None) => r matches Ok(None),
        (GgufArchitecture::Gemma4, Some(projector)) => match (GemmaMetadata {
            model,
            projector,
        }).reading() {
            Err(fault) => refuses(r, fault),
            Ok(plan) => r == Ok::<Option<NormalizedProcessorPlan>, ProcessorPlanError>(
                Some(NormalizedProcessorPlan::Gemma4(plan)),
            ),
        },
        (GgufArchitecture::Inkling, Some(_)) => r == Ok::<
            Option<NormalizedProcessorPlan>,
            ProcessorPlanError,
        >(Some(NormalizedProcessorPlan::Inkling(unresolved_plan()))),
        (GgufArchitecture::MuseGlimmer, Some(projector)) => match r {
            Ok(Some(NormalizedProcessorPlan::Muse(plan))) => projector_plans(projector, Ok(plan)),
            Err(error) => projector_plans(projector, Err(error)),
            _ => false,
        },
        (GgufArchitecture::Qwen3Vl, Some(projector)) => qwen_processor(projector, r),
        (GgufArchitecture::Qwen3VlMoe, Some(projector)) => qwen_processor(projector, r),
        (GgufArchitecture::Qwen35, Some(projector)) => qwen_processor(projector, r),
        (GgufArchitecture::Qwen35Moe, Some(projector)) => qwen_processor(projector, r),
        _ => r matches Ok(None),
    }
}

/// Whether `r` is the outcome of planning a Qwen projector.
pub open spec fn qwen_processor(
    projector: Map<Seq<char>, MetadataValue>,
    r: Result<Option<NormalizedProcessorPlan>, ProcessorPlanError>,
) -> bool {
    match r {
        Ok(Some(NormalizedProcessorPlan::Qwen(plan))) => (QwenProjector {
            metadata: projector,
        }).plans(Ok(plan)),
        Err(error) => (QwenProjector { metadata: projector }).plans(Err(error)),
        _ => false,
    }
}

fn plan_projector(
    architecture: GgufArchitecture,
    model: &StringMap<MetadataValue>,
    projector: &StringMap<MetadataValue>,
) -> (r: Result<Option<NormalizedProcessorPlan>, ProcessorPlanError>)
    ensures
        projector_processor(architecture, model@, Some(projector@), r),
{
    match architecture {
        GgufArchitecture::Gemma4 => Ok(
            Some(
                NormalizedProcessorPlan::Gemma4(
                    Gemma4ProcessorPlan::from_gguf_metadata(model, projector)?,
                ),
            ),
        ),
        GgufArchitecture::Inkling => Ok(
            Some(NormalizedProcessorPlan::Inkling(InklingProcessorPlan::from_gguf_metadata()?)),
        ),
        GgufArchitecture::MuseGlimmer => match MuseProcessorPlan::from_gguf_metadata(projector) {
            Ok(plan) => Ok(Some(NormalizedProcessorPlan::Muse(plan))),
            Err(error) => Err(error),
        },
        GgufArchitecture::Qwen3Vl | GgufArchitecture::Qwen3VlMoe | GgufArchitecture::Qwen35
        | GgufArchitecture::Qwen35Moe => match QwenProcessorPlan::from_gguf_metadata(projector) {
            Ok(plan) => Ok(Some(NormalizedProcessorPlan::Qwen(plan))),
            Err(error) => Err(error),
        },
        _ => Ok(None),
    }
}

impl<S, G, P, E> ArtifactArchitecturePlan<S, G, P, E> {
    /// The plan with the processor of `outcome`, or its error.
    pub open spec fn enriched(
        self,
        outcome: Result<Option<NormalizedProcessorPlan>, ProcessorPlanError>,
        r: Result<Self, ProcessorPlanError>,
    ) -> bool {
        match outcome {
            Ok(processor) => r == Ok::<Self, ProcessorPlanError>(
                ArtifactArchitecturePlan { processor, ..self },
            ),
            Err(error) => refuses(r, error.deep_view()),
        }
    }

    /// Normalizes one SafeTensors family and its decoded processor sidecars.
    pub fn with_safetensors_processors(self, documents: ProcessorDocuments) -> (r: Result<
        Self,
        ProcessorPlanError,
    >)
        requires
            self.family matches ArtifactFamilyPlan::Safetensors(plan) ==> documents.belong_to(
                documents_of(plan.model_kind),
            ),
        ensures
            match self.family {
                ArtifactFamilyPlan::Gguf(_) => refuses(
                    r,
                    Fault::Invalid(
                        "SafeTensors processor planning requires a validated architecture plan"@,
                    ),
                ),
                ArtifactFamilyPlan::Safetensors(_) => match documents_processor(documents) {
                    Err(fault) => refuses(r, fault),
                    Ok(processor) => r == Ok::<Self, ProcessorPlanError>(
                        ArtifactArchitecturePlan { processor, ..self },
                    ),
                },
            },
    {
        if self.safetensors_architecture().is_none() {
            return Err(
                unplanned("SafeTensors processor planning requires a validated architecture plan"),
            );
        }
        let processor = plan_documents(documents)?;
        Ok(
            ArtifactArchitecturePlan {
                family: self.family,
                media_projector: self.media_projector,
                processor,
                prediction_extension: self.prediction_extension,
            },
        )
    }

    /// Normalizes one GGUF architecture and its admitted media projector.
    pub fn with_gguf_processors(
        self,
        model: &StringMap<MetadataValue>,
        projector: Option<&StringMap<MetadataValue>>,
    ) -> (r: Result<Self, ProcessorPlanError>)
        ensures
            match self.family {
                ArtifactFamilyPlan::Safetensors(_) => refuses(
                    r,
                    Fault::Invalid("GGUF processor planning requires a resolved architecture"@),
                ),
                ArtifactFamilyPlan::Gguf(plan) => exists|
                    outcome: Result<Option<NormalizedProcessorPlan>, ProcessorPlanError>,
                | #[trigger]
                    projector_processor(
                        plan.architecture,
                        model@,
                        settings_of(projector),
                        outcome,
                    ) && self.enriched(outcome, r),
            },
    {
        let architecture: GgufArchitecture = match self.gguf_architecture() {
            Some(architecture) => architecture,
            None => {
                return Err(unplanned("GGUF processor planning requires a resolved architecture"));
            },
        };
        let outcome: Result<Option<NormalizedProcessorPlan>, ProcessorPlanError> = match projector {
            Some(projector) => plan_projector(architecture, model, projector),
            None => Ok(None),
        };
        let ghost planned = outcome;
        assert(projector_processor(architecture, model@, settings_of(projector), planned));
        let r: Result<Self, ProcessorPlanError> = match outcome {
            Ok(processor) => Ok(
                ArtifactArchitecturePlan {
                    family: self.family,
                    media_projector: self.media_projector,
                    processor,
                    prediction_extension: self.prediction_extension,
                },
            ),
            Err(error) => Err(error),
        };
        assert(self.enriched(planned, r));
        r
    }

    /// Retains the typed SafeTensors architecture and checkpoint plan from resolution.
    pub fn from_safetensors_architecture(architecture: SafetensorsArchitecturePlan<S>) -> (r: Self)
        ensures
            r.family == ArtifactFamilyPlan::<S, G>::Safetensors(architecture),
            r.media_projector is None,
            r.processor is None,
            r.prediction_extension is None,
    {
        ArtifactArchitecturePlan {
            family: ArtifactFamilyPlan::Safetensors(architecture),
            media_projector: None,
            processor: None,
            prediction_extension: None,
        }
    }

    /// Retains the exact GGUF architecture from resolution.
    pub fn from_gguf_architecture(architecture: GgufArchitecturePlan<G>) -> (r: Self)
        ensures
            r.family == ArtifactFamilyPlan::<S, G>::Gguf(architecture),
            r.media_projector is None,
            r.processor is None,
            r.prediction_extension is None,
    {
        ArtifactArchitecturePlan {
            family: ArtifactFamilyPlan::Gguf(architecture),
            media_projector: None,
            processor: None,
            prediction_extension: None,
        }
    }

    /// Retains a validated GGUF media projector.
    pub fn with_gguf_media_projector(self, media_projector: Option<P>) -> (r: Self)
        ensures
            r == (ArtifactArchitecturePlan { media_projector, ..self }),
    {
        ArtifactArchitecturePlan {
            family: self.family,
            media_projector,
            processor: self.processor,
            prediction_extension: self.prediction_extension,
        }
    }

    /// The plan of the target `family` that retains `extension`.
    pub open spec fn targeting(self, family: SafetensorsArchitecturePlan<S>, extension: E) -> Self {
        ArtifactArchitecturePlan {
            family: ArtifactFamilyPlan::<S, G>::Safetensors(family),
            prediction_extension: Some(extension),
            ..self
        }
    }

    /// The plan of the admitted `architecture`.
    pub open spec fn admitting(self, architecture: SafetensorsArchitecturePlan<S>) -> Self {
        ArtifactArchitecturePlan {
            family: ArtifactFamilyPlan::<S, G>::Safetensors(architecture),
            ..self
        }
    }

    /// Separates an admitted embedded-prediction artifact from its ordinary target plan, which
    /// retains the extension. `projection` is the target architecture and extension that
    /// resolution derives, if any; only SafeTensors artifacts read it.
    pub fn prediction_target_projection(
        self,
        projection: Result<Option<(SafetensorsArchitecturePlan<S>, E)>, String>,
    ) -> (r: Result<Option<Self>, String>)
        ensures
            match (self.family, projection) {
                (ArtifactFamilyPlan::Safetensors(_), Ok(Some((family, extension)))) => r == Ok::<
                    Option<Self>,
                    String,
                >(Some(self.targeting(family, extension))),
                (ArtifactFamilyPlan::Safetensors(_), Err(message)) => r matches Err(m) && m
                    == message,
                _ => r matches Ok(None),
            },
    {
        match (self.family, projection) {
            (ArtifactFamilyPlan::Safetensors(_), Ok(Some((family, extension)))) => Ok(
                Some(
                    ArtifactArchitecturePlan {
                        family: ArtifactFamilyPlan::Safetensors(family),
                        media_projector: self.media_projector,
                        processor: self.processor,
                        prediction_extension: Some(extension),
                    },
                ),
            ),
            (ArtifactFamilyPlan::Safetensors(_), Err(message)) => Err(message),
            _ => Ok(None),
        }
    }

    /// Finalizes catalog-dependent SafeTensors admission before processor enrichment. `admitted`
    /// is the retained architecture after it has admitted the catalog; GGUF artifacts have none.
    pub fn admit_safetensors_catalog(
        self,
        admitted: Result<SafetensorsArchitecturePlan<S>, String>,
    ) -> (r: Result<Self, String>)
        ensures
            match (self.family, admitted) {
                (ArtifactFamilyPlan::Gguf(_), _) => says(
                    r,
                    Fault::Invalid(
                        "SafeTensors catalog admission requires a SafeTensors architecture plan"@,
                    ),
                ),
                (ArtifactFamilyPlan::Safetensors(_), Err(message)) => says(
                    r,
                    Fault::Invalid(message@),
                ),
                (ArtifactFamilyPlan::Safetensors(_), Ok(architecture)) => r == Ok::<Self, String>(
                    self.admitting(architecture),
                ),
            },
    {
        if self.safetensors_architecture().is_none() {
            return Err(
                "SafeTensors catalog admission requires a SafeTensors architecture plan".to_owned(),
            );
        }
        let architecture = admitted?;
        Ok(
            ArtifactArchitecturePlan {
                family: ArtifactFamilyPlan::Safetensors(architecture),
                media_projector: self.media_projector,
                processor: self.processor,
                prediction_extension: self.prediction_extension,
            },
        )
    }

    /// Typed additive prediction extension retained by a target projection.
    pub fn prediction_extension(&self) -> (r: Option<&E>)
        ensures
            match r {
                Some(extension) => self.prediction_extension == Some(*extension),
                None => self.prediction_extension is None,
            },
    {
        self.prediction_extension.as_ref()
    }

    /// Removes the additive extension after it has been selected and split into its own exact
    /// materialization contract.
    pub fn without_prediction_extension(self) -> (r: Self)
        ensures
            r == (ArtifactArchitecturePlan { prediction_extension: None::<E>, ..self }),
    {
        ArtifactArchitecturePlan {
            family: self.family,
            media_projector: self.media_projector,
            processor: self.processor,
            prediction_extension: None,
        }
    }

    /// Returns the normalized model family retained during inspection.
    pub fn model_kind(&self) -> (r: ModelKind)
        ensures
            r == match self.family {
                ArtifactFamilyPlan::Safetensors(plan) => plan.model_kind,
                ArtifactFamilyPlan::Gguf(plan) => plan.model_kind,
            },
    {
        match &self.family {
            ArtifactFamilyPlan::Safetensors(plan) => plan.model_kind,
            ArtifactFamilyPlan::Gguf(plan) => plan.model_kind,
        }
    }

    /// Whether the model routes to grouped experts.
    pub open spec fn routed(self) -> bool {
        match self.family {
            ArtifactFamilyPlan::Safetensors(plan) => plan.grouped_routed_experts,
            ArtifactFamilyPlan::Gguf(plan) => plan.grouped_routed_experts,
        }
    }

    /// Grouped mechanisms that the architecture needs over `tensor_parallel` devices.
    pub open spec fn grouped_operations(self, tensor_parallel: Option<usize>) -> Seq<
        GroupedOperationRequirement,
    > {
        if !self.routed() {
            Seq::empty()
        } else if tensor_parallel matches Some(devices) && devices > 1 {
            seq![
                GroupedOperationRequirement::GatedProduct,
                GroupedOperationRequirement::GatedProductTensorParallelPartial,
            ]
        } else {
            seq![GroupedOperationRequirement::GatedProduct]
        }
    }

    /// Exact grouped mechanisms required by this architecture when its tensors are split over
    /// `tensor_parallel` devices.
    pub fn grouped_operation_requirements(&self, tensor_parallel: Option<usize>) -> (r: Vec<
        GroupedOperationRequirement,
    >)
        ensures
            r@ == self.grouped_operations(tensor_parallel),
    {
        let routed: bool = match &self.family {
            ArtifactFamilyPlan::Safetensors(plan) => plan.grouped_routed_experts,
            ArtifactFamilyPlan::Gguf(plan) => plan.grouped_routed_experts,
        };
        let mut required: Vec<GroupedOperationRequirement> = Vec::new();
        if !routed {
            return required;
        }
        required.push(GroupedOperationRequirement::GatedProduct);
        assert(required@ =~= seq![GroupedOperationRequirement::GatedProduct]);
        if let Some(devices) = tensor_parallel {
            if devices > 1 {
                required.push(GroupedOperationRequirement::GatedProductTensorParallelPartial);
                assert(required@ =~= seq![
                    GroupedOperationRequirement::GatedProduct,
                    GroupedOperationRequirement::GatedProductTensorParallelPartial,
                ]);
            }
        }
        required
    }

    /// Returns the exact normalized GGUF architecture, when applicable.
    pub fn gguf_architecture(&self) -> (r: Option<GgufArchitecture>)
        ensures
            r == match self.family {
                ArtifactFamilyPlan::Gguf(plan) => Some(plan.architecture),
                ArtifactFamilyPlan::Safetensors(_) => None,
            },
    {
        match &self.family {
            ArtifactFamilyPlan::Gguf(plan) => Some(plan.architecture),
            ArtifactFamilyPlan::Safetensors(_) => None,
        }
    }

    /// Returns the validated SafeTensors architecture and checkpoint plan.
    pub fn safetensors_architecture(&self) -> (r: Option<&SafetensorsArchitecturePlan<S>>)
        ensures
            match r {
                Some(plan) => self.family == ArtifactFamilyPlan::<S, G>::Safetensors(*plan),
                None => self.family is Gguf,
            },
    {
        match &self.family {
            ArtifactFamilyPlan::Safetensors(plan) => Some(plan),
            ArtifactFamilyPlan::Gguf(_) => None,
        }
    }

    /// Returns the validated GGUF architecture geometry and checkpoint plan.
    pub fn gguf_plan(&self) -> (r: Option<&GgufArchitecturePlan<G>>)
        ensures
            match r {
                Some(plan) => self.family == ArtifactFamilyPlan::<S, G>::Gguf(*plan),
                None => self.family is Safetensors,
            },
    {
        match &self.family {
            ArtifactFamilyPlan::Gguf(plan) => Some(plan),
            ArtifactFamilyPlan::Safetensors(_) => None,
        }
    }

    /// Returns the typed, structurally validated GGUF media-projector plan.
    pub fn gguf_media_projector(&self) -> (r: Option<&P>)
        ensures
            match r {
                Some(projector) => self.media_projector == Some(*projector),
                None => self.media_projector is None,
            },
    {
        self.media_projector.as_ref()
    }

    /// Whether authoritative artifact inspection admitted a media processor.
    pub fn has_processor(&self) -> (r: bool)
        ensures
            r == self.processor is Some,
    {
        self.processor.is_some()
    }

    /// Tokenizer protocol that the plan still lacks.
    pub open spec fn lacking_tokens(self) -> Option<GgufSpecialTokenKind> {
        match self.processor {
            Some(NormalizedProcessorPlan::Qwen(plan)) if plan.framing is None => Some(
                GgufSpecialTokenKind::Qwen,
            ),
            Some(NormalizedProcessorPlan::Inkling(plan)) if !plan.resolved() => Some(
                GgufSpecialTokenKind::Inkling,
            ),
            _ => None,
        }
    }

    /// Tokenizer protocol required to make an admitted GGUF media plan executable.
    pub fn required_gguf_special_tokens(&self) -> (r: Option<GgufSpecialTokenKind>)
        ensures
            r == self.lacking_tokens(),
    {
        match &self.processor {
            Some(NormalizedProcessorPlan::Qwen(plan)) => if plan.has_framing() {
                None
            } else {
                Some(GgufSpecialTokenKind::Qwen)
            },
            Some(NormalizedProcessorPlan::Inkling(plan)) => if plan.has_token_ids() {
                None
            } else {
                Some(GgufSpecialTokenKind::Inkling)
            },
            _ => None,
        }
    }

    /// Fault of binding tokenizer IDs. `bound` is the projector with its placeholders bound.
    pub open spec fn binding_fault(
        self,
        ids: GgufSpecialTokenIds,
        bound: Result<P, String>,
    ) -> Option<Fault> {
        match ids {
            GgufSpecialTokenIds::Qwen { .. } => first_of(
                fault_if(
                    !(self.processor matches Some(NormalizedProcessorPlan::Qwen(_))),
                    "Qwen GGUF special tokens require a processor plan"@,
                ),
                first_of(
                    fault_if(
                        self.media_projector is None,
                        "Qwen GGUF special tokens require an admitted media projector"@,
                    ),
                    match bound {
                        Ok(_) => None,
                        Err(message) => Some(Fault::Invalid(message@)),
                    },
                ),
            ),
            GgufSpecialTokenIds::Inkling { .. } => fault_if(
                !(self.processor matches Some(NormalizedProcessorPlan::Inkling(_))),
                "Inkling GGUF special tokens require a processor plan"@,
            ),
        }
    }

    /// The plan with tokenizer IDs bound.
    pub open spec fn with_tokens(self, ids: GgufSpecialTokenIds, bound: Result<P, String>) -> Self {
        match (ids, self.processor) {
            (
                GgufSpecialTokenIds::Qwen { vision_start_token_id, vision_end_token_id, .. },
                Some(NormalizedProcessorPlan::Qwen(plan)),
            ) => ArtifactArchitecturePlan {
                media_projector: Some(bound->Ok_0),
                processor: Some(
                    NormalizedProcessorPlan::Qwen(
                        QwenProcessorPlan {
                            framing: Some(
                                MediaFraming {
                                    start_token_id: vision_start_token_id,
                                    end_token_id: vision_end_token_id,
                                },
                            ),
                            ..plan
                        },
                    ),
                ),
                ..self
            },
            (
                GgufSpecialTokenIds::Inkling { image_bos_token_id, audio_bos_token_id },
                Some(NormalizedProcessorPlan::Inkling(plan)),
            ) => ArtifactArchitecturePlan {
                processor: Some(
                    NormalizedProcessorPlan::Inkling(
                        InklingProcessorPlan {
                            image_bos_token_id: Some(image_bos_token_id),
                            audio_bos_token_id: Some(audio_bos_token_id),
                            ..plan
                        },
                    ),
                ),
                ..self
            },
            _ => self,
        }
    }

    /// Binds facade-resolved GGUF tokenizer IDs after structural admission. `bound` is the
    /// outcome of binding the image and video placeholders of Qwen to the retained projector;
    /// other families leave it unread. A refused binding leaves the plan as it was.
    pub fn bind_gguf_special_token_ids(
        &mut self,
        ids: GgufSpecialTokenIds,
        bound: Result<P, String>,
    ) -> (r: Result<(), ProcessorPlanError>)
        ensures
            match old(self).binding_fault(ids, bound) {
                Some(fault) => *final(self) == *old(self) && refuses(r, fault),
                None => *final(self) == old(self).with_tokens(ids, bound) && r is Ok,
            },
    {
        match ids {
            GgufSpecialTokenIds::Qwen {
                image_token_id: _,
                video_token_id: _,
                vision_start_token_id,
                vision_end_token_id,
            } => {
                match &mut self.processor {
                    Some(NormalizedProcessorPlan::Qwen(plan)) => {
                        if self.media_projector.is_none() {
                            return Err(
                                unplanned(
                                    "Qwen GGUF special tokens require an admitted media projector",
                                ),
                            );
                        }
                        let projector: P = match bound {
                            Ok(projector) => projector,
                            Err(message) => {
                                return Err(ProcessorPlanError::Invalid(message));
                            },
                        };
                        plan.bind_framing(
                            MediaFraming {
                                start_token_id: vision_start_token_id,
                                end_token_id: vision_end_token_id,
                            },
                        );
                        self.media_projector = Some(projector);
                        Ok(())
                    },
                    _ => Err(unplanned("Qwen GGUF special tokens require a processor plan")),
                }
            },
            GgufSpecialTokenIds::Inkling { image_bos_token_id, audio_bos_token_id } => {
                match &mut self.processor {
                    Some(NormalizedProcessorPlan::Inkling(plan)) => {
                        plan.bind_token_ids(image_bos_token_id, audio_bos_token_id);
                        Ok(())
                    },
                    _ => Err(unplanned("Inkling GGUF special tokens require a processor plan")),
                }
            },
        }
    }

    /// Returns the retained Gemma 4 processor plan, when admitted.
    pub fn gemma4(&self) -> (r: Option<&Gemma4ProcessorPlan>)
        ensures
            match r {
                Some(plan) => self.processor == Some(NormalizedProcessorPlan::Gemma4(*plan)),
                None => !(self.processor matches Some(NormalizedProcessorPlan::Gemma4(_))),
            },
    {
        match &self.processor {
            Some(NormalizedProcessorPlan::Gemma4(plan)) => Some(plan),
            _ => None,
        }
    }

    /// Returns the retained Inkling processor plan, when admitted.
    pub fn inkling(&self) -> (r: Option<&InklingProcessorPlan>)
        ensures
            match r {
                Some(plan) => plan.resolved() && self.processor == Some(
                    NormalizedProcessorPlan::Inkling(*plan),
                ),
                None => !(self.processor matches Some(NormalizedProcessorPlan::Inkling(plan))
                    && plan.resolved()),
            },
    {
        match &self.processor {
            Some(NormalizedProcessorPlan::Inkling(plan)) => if plan.has_token_ids() {
                Some(plan)
            } else {
                None
            },
            _ => None,
        }
    }

    /// Returns the retained Muse-Glimmer processor plan, when admitted.
    pub fn muse(&self) -> (r: Option<&MuseProcessorPlan>)
        ensures
            match r {
                Some(plan) => self.processor == Some(NormalizedProcessorPlan::Muse(*plan)),
                None => !(self.processor matches Some(NormalizedProcessorPlan::Muse(_))),
            },
    {
        match &self.processor {
            Some(NormalizedProcessorPlan::Muse(plan)) => Some(plan),
            _ => None,
        }
    }

    /// Returns the retained Qwen processor plan, when admitted.
    pub fn qwen(&self) -> (r: Option<&QwenProcessorPlan>)
        ensures
            match r {
                Some(plan) => plan.framing is Some && self.processor == Some(
                    NormalizedProcessorPlan::Qwen(*plan),
                ),
                None => !(self.processor matches Some(NormalizedProcessorPlan::Qwen(plan))
                    && plan.framing is Some),
            },
    {
        match &self.processor {
            Some(NormalizedProcessorPlan::Qwen(plan)) => if plan.has_framing() {
                Some(plan)
            } else {
                None
            },
            _ => None,
        }
    }
}

/// Typed model configuration, where families with an external assistant stand apart. `C` is the
/// Gemma 4 configuration, `M` that of Muse-Glimmer, and `O` any other.
#[derive(Debug, Clone)]
pub enum ModelConfig<C, M, O> {
    /// Gemma 4.
    Gemma4(C),
    /// Muse-Glimmer.
    MuseGlimmer(M),
    /// Any further family.
    Other(O),
}

/// Normalized target facts needed to admit an external assistant.
#[derive(Debug, Clone, Copy, PartialEq, Eq)]
pub enum ExternalAssistantTargetProfile<C, M> {
    /// Gemma 4 target.
    Gemma4(C),
    /// Muse-Glimmer target.
    MuseGlimmer(M),
}

impl<C, M, O> ModelConfig<C, M, O> {
    /// Target facts of the configuration, if its family has an external assistant.
    pub open spec fn profiles(self, r: Option<ExternalAssistantTargetProfile<&C, &M>>) -> bool {
        match (self, r) {
            (
                ModelConfig::Gemma4(config),
                Some(ExternalAssistantTargetProfile::Gemma4(target)),
            ) => *target == config,
            (
                ModelConfig::MuseGlimmer(config),
                Some(ExternalAssistantTargetProfile::MuseGlimmer(target)),
            ) => *target == config,
            (ModelConfig::Other(_), None) => true,
            _ => false,
        }
    }

    fn target_profile(&self) -> (r: Option<ExternalAssistantTargetProfile<&C, &M>>)
        ensures
            self.profiles(r),
    {
        match self {
            ModelConfig::Gemma4(config) => Some(ExternalAssistantTargetProfile::Gemma4(config)),
            ModelConfig::MuseGlimmer(config) => Some(
                ExternalAssistantTargetProfile::MuseGlimmer(config),
            ),
            ModelConfig::Other(_) => None,
        }
    }
}

impl<C, M, S, G, P, E> ArtifactArchitecturePlan<
    ModelConfig<C, M, S>,
    ModelConfig<C, M, G>,
    P,
    E,
> {
    /// Returns the exact normalized target facts needed to admit an external assistant.
    ///
    /// This is derived from the retained architecture plan before backend resources or target
    /// payloads exist. Architectures without an external-assistant contract return `None` and
    /// fail cold drafting selection.
    pub fn external_assistant_target_profile(&self) -> (r: Option<
        ExternalAssistantTargetProfile<&C, &M>,
    >)
        ensures
            match self.family {
                ArtifactFamilyPlan::Safetensors(plan) => plan.detail.profiles(r),
                ArtifactFamilyPlan::Gguf(plan) => plan.detail.profiles(r),
            },
    {
        match &self.family {
            ArtifactFamilyPlan::Safetensors(plan) => plan.detail.target_profile(),
            ArtifactFamilyPlan::Gguf(plan) => plan.detail.target_profile(),
        }
    }
}

/// Once tokenizer IDs are bound the plan lacks none, and a bound Qwen or Inkling plan is
/// executable. Family and prediction extension stay as they were.
pub proof fn law_binding_completes_the_plan<S, G, P, E>(
    plan: ArtifactArchitecturePlan<S, G, P, E>,
    ids: GgufSpecialTokenIds,
    bound: Result<P, String>,
)
    requires
        plan.binding_fault(ids, bound) is None,
    ensures
        plan.with_tokens(ids, bound).lacking_tokens() is None,
        plan.with_tokens(ids, bound).family == plan.family,
        plan.with_tokens(ids, bound).prediction_extension == plan.prediction_extension,
        ids is Qwen ==> (plan.with_tokens(ids, bound).processor matches Some(
            NormalizedProcessorPlan::Qwen(qwen),
        ) && qwen.framing is Some),
        ids is Inkling ==> (plan.with_tokens(ids, bound).processor matches Some(
            NormalizedProcessorPlan::Inkling(inkling),
        ) && inkling.resolved()),
{
}

/// Tokenizer IDs of the protocol that a plan lacks are refused only for want of a projector or by
/// the projector itself.
pub proof fn law_lacking_tokens_can_be_bound<S, G, P, E>(
    plan: ArtifactArchitecturePlan<S, G, P, E>,
    ids: GgufSpecialTokenIds,
    bound: Result<P, String>,
)
    requires
        plan.lacking_tokens() == Some(GgufSpecialTokenKind::Inkling) && ids is Inkling || (
        plan.lacking_tokens() == Some(GgufSpecialTokenKind::Qwen) && ids is Qwen
            && plan.media_projector is Some && bound is Ok),
    ensures
        plan.binding_fault(ids, bound) is None,
{
}

} // verus!
