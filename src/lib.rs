//! Project scaffolding from named architecture templates: a verified model of
//! the template store (built-in definitions, user overrides, legacy migration)
//! and of the plan that materializes a template on disk.

pub mod builtin;
pub mod location;
pub mod materialize;
pub mod path;
pub mod registry;
pub mod store;
pub mod template;

pub use builtin::builtin_templates;
pub use location::{ConfigEnv, get_user_local_templates_file, get_user_templates_dir};
pub use materialize::{
    CreateError, DestState, FileKind, FsOp, file_content, file_kind, join_path,
    plan_create, readme_text,
};
pub use path::{contains_parent_component, is_absolute, is_safe_path, same_text};
pub use registry::{
    AddPlan, Consolidated, LegacyFile, LoadOutcome, Removal, StoreError, fold_legacy,
    list_templates,
    load_templates, lookup, plan_add, remove_local_template, save_local_template, skeleton,
};
pub use store::TemplateSet;
pub use template::{Template, ValidationError, copy_pairs, copy_strings, validate_template};
