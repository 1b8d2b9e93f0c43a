//! Declaration-file emission for TypeScript modules.

pub mod diagnostics;
pub mod emit;
pub mod json;
pub mod laws;
pub mod options;
pub mod syntax;
pub mod text;
pub mod transform;
pub mod type_imports;
pub mod utils;

pub use json::json_to_esm;
pub use options::{DtsPlugin, DtsPluginCompilerOptions};
pub use type_imports::TypeImportVisitor;
pub use utils::{
    get_declaration_path, is_declaration_file, is_json_ext, is_special_query, is_typescript_file,
    strip_bom,
};
