//! Deterministic synthetic roof datasets.
//!
//! The crate samples reproducible scenes and camera sequences of buildings, checks plans,
//! records and manifests, and turns a scene into labelled geometry and the numbers of a
//! render. Numbers are those of single precision, held as their bits in [`single::Single`];
//! sines and powers come from functions that callers hand in ([`given`]), and matrices as
//! arguments.
//!
//! Sampling starts at [`sampler::SequenceSampler`] and [`sample_plan`], checking at
//! [`check_sequence::DatasetValidator`] and the [`report::Validate`] trait, geometry at
//! [`mesh::RenderMesh`], textures at [`mip_chain`] and a render at [`view::check_render`].

pub mod appearance;
pub mod assembly;
pub mod assembly_laws;
pub mod assets;
pub mod bounds;
pub mod camera_laws;
pub mod check_composition;
pub mod check_config;
pub mod check_frame;
pub mod check_laws;
pub mod check_manifest;
pub mod check_scene;
pub mod check_sequence;
pub mod check_turned;
pub mod check_values;
pub mod choice;
pub mod composition;
pub mod config;
pub mod config_laws;
pub mod context_laws;
pub mod corridor_laws;
pub mod described_laws;
pub mod deterministic;
pub mod draws;
pub mod framing_laws;
pub mod geometry;
pub mod geometry_laws;
pub mod given;
pub mod image_laws;
pub mod looks;
pub mod manifest;
pub mod mesh;
pub mod mip_chain;
pub mod mips;
pub mod obstacles;
pub mod part_laws;
pub mod patch;
pub mod plan;
pub mod readback;
pub mod record;
pub mod render_error;
pub mod report;
pub mod rounding;
pub mod sample_camera;
pub mod sample_clutter;
pub mod sample_plan;
pub mod sample_sequence;
pub mod sample_shell;
pub mod sample_site;
pub mod sampler;
pub mod scene;
pub mod scene_context;
pub mod scene_sampled;
pub mod shape_laws;
pub mod shapes;
pub mod shell_laws;
pub mod single;
pub mod site_laws;
pub mod split;
pub mod standard;
pub mod standard_rules;
pub mod surface;
pub mod text;
pub mod types;
pub mod validity_laws;
pub mod view;
pub mod view_laws;
pub mod whole;
