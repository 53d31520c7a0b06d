//! Wardrobe: the decision logic of a client-side GTA: San Andreas skin loader
//! for SA-MP, with its rules, caches and layouts stated and proved.

pub mod logging;
pub mod memory;
pub mod model_ids;
pub mod text;
pub mod config;
pub mod gta;
pub mod instance_cache;
pub mod named_map;
pub mod player_map;
pub mod rak_samp;
pub mod refresh;
pub mod runtime;
pub mod samp;
pub mod samp_hooks;
pub mod seq_facts;
pub mod skin_loader;
pub mod source_cache;
