//! Backend-neutral model architecture planning.

pub mod admission_laws;
pub mod artifact;
pub mod artifact_laws;
pub mod artifact_plan;
pub mod block_laws;
pub mod catalog_laws;
pub mod checkpoint_laws;
pub mod config;
pub mod config_laws;
pub mod declaration_laws;
pub mod errors;
pub mod experts;
pub mod family;
pub mod fingerprint;
pub mod float;
pub mod formats;
pub mod gemma_laws;
pub mod gemma_processor;
pub mod geometry;
pub mod gguf_config;
pub mod gguf_plan;
pub mod graph;
pub mod inkling;
pub mod media;
pub mod media_metadata;
pub mod metadata;
pub mod muse;
pub mod muse_laws;
pub mod name_laws;
pub mod name_tables;
pub mod names;
pub mod normalize;
pub mod order;
pub mod pipeline;
pub mod plan;
pub mod plan_laws;
pub mod projector;
pub mod qwen;
pub mod qwen_laws;
pub mod safetensors;
pub mod safetensors_draft;
pub mod safetensors_media;
pub mod safetensors_plan;
pub mod safetensors_text;
pub mod schedule;
pub mod schedule_laws;
pub mod spelling_laws;
pub mod stage_laws;
pub mod text;
pub mod text_laws;
pub mod tower_laws;
pub mod weight_name_laws;
pub mod weight_names;
