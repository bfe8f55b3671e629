//! Locates a CJK-capable font on the host system and registers it with an
//! egui rendering context.
//!
//! The crate separates the pure policy (which paths to try, in which order;
//! how a font is inserted into a font table) from the effects (file reads,
//! applying a configuration to a context). The policy is fully specified and
//! verified; the effects stand behind small trusted wrappers or are driven by
//! the caller.

mod error;
mod platform;
mod registrar;
mod resolve;
mod table;

pub use error::FontError;
pub use error::FontErrorModel;
pub use error::description_of;
pub use platform::Platform;
pub use platform::candidate_list;
pub use platform::get_chinese_font_paths;
pub use registrar::chosen_font_name;
pub use registrar::custom_font_table;
pub use registrar::setup_custom_chinese_font;
pub use resolve::ResolveModel;
pub use resolve::ResolveState;
pub use resolve::advance_model;
pub use resolve::candidate_count;
pub use resolve::lemma_advance_fails_only_not_found;
pub use resolve::lemma_all_missing_not_found;
pub use resolve::lemma_first_match_wins;
pub use resolve::lemma_resolved_nonempty;
pub use resolve::lemma_run_resolved_nonempty;
pub use resolve::lemma_supported_platform_has_candidates;
pub use resolve::lemma_unsupported_platform;
pub use resolve::not_found_detail;
pub use resolve::outcome_model;
pub use resolve::resolve_advance;
pub use resolve::resolve_start;
pub use resolve::run_from;
pub use resolve::run_model;
pub use resolve::skip_model;
pub use resolve::start_model;
pub use table::FontEntry;
pub use table::FontTable;
pub use table::entries_map;
pub use table::family_model;
pub use table::lemma_register_keeps_existing;
pub use table::lemma_register_twice;
pub use table::registered;
