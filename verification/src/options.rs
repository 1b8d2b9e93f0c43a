//! The plugin's configuration and what it tells the host about itself.

use vstd::prelude::*;

verus! {

/// The compiler flags that bear on declaration emission.
#[derive(Debug, Clone, Copy, PartialEq, Eq, Hash, Structural)]
pub struct DtsPluginCompilerOptions {
    pub no_emit: bool,
    pub declaration: bool,
    pub declaration_map: bool,
    pub emit_declaration_only: bool,
}

impl Default for DtsPluginCompilerOptions {
    fn default() -> (options: Self)
        ensures
            options == (DtsPluginCompilerOptions {
                no_emit: false,
                declaration: false,
                declaration_map: false,
                emit_declaration_only: false,
            }),
    {
        DtsPluginCompilerOptions {
            no_emit: false,
            declaration: false,
            declaration_map: false,
            emit_declaration_only: false,
        }
    }
}

impl DtsPluginCompilerOptions {
    /// The flags leave declaration emission switched on.
    pub open spec fn allows_declarations(self) -> bool {
        !self.no_emit && self.declaration
    }
}

/// The plugin that emits a declaration file for every TypeScript module.
#[derive(Debug)]
pub struct DtsPlugin {
    pub respect_external: bool,
    pub tsconfig: Option<String>,
    pub compiler_options: Option<DtsPluginCompilerOptions>,
    pub strip_internal: bool,
}

impl Default for DtsPlugin {
    fn default() -> (plugin: Self)
        ensures
            !plugin.respect_external,
            plugin.tsconfig is None,
            plugin.compiler_options is None,
            !plugin.strip_internal,
    {
        DtsPlugin {
            respect_external: false,
            tsconfig: None,
            compiler_options: None,
            strip_internal: false,
        }
    }
}

/// How the host treats the content of a module.
#[derive(Debug)]
pub enum ModuleType {
    Js,
    Jsx,
    Ts,
    Tsx,
    Json,
    Text,
    Base64,
    Dataurl,
    Binary,
    Empty,
    Css,
    Asset,
    Copy,
    Custom(String),
}

impl ModuleType {
    /// The module is written in TypeScript, with or without JSX.
    pub open spec fn is_typescript(self) -> bool {
        self is Ts || self is Tsx
    }

    /// Whether the module is written in TypeScript.
    pub fn is_ts(&self) -> (r: bool)
        ensures
            r == self.is_typescript(),
    {
        match self {
            ModuleType::Ts => true,
            ModuleType::Tsx => true,
            _ => false,
        }
    }
}

/// Where a hook asks to run among the hooks of its kind.
#[derive(Debug, Clone, Copy, PartialEq, Eq, Structural)]
pub enum PluginOrder {
    Pre,
    Post,
    PinPost,
}

/// What a plugin tells the host about one of its hooks.
#[derive(Debug, Clone, Copy, PartialEq, Eq, Structural)]
pub struct PluginHookMeta {
    pub order: Option<PluginOrder>,
}

/// The kind of transform access that a plugin asks for.
#[derive(Debug, Clone, Copy, PartialEq, Eq, Structural)]
pub enum HookUsage {
    /// The plugin transforms a module's text.
    Transform,
    /// The plugin transforms a module's syntax tree.
    TransformAst,
}

impl DtsPlugin {
    /// The name that marks what comes from this plugin, as text.
    pub open spec fn spec_name() -> Seq<char> {
        "builtin:dts"@
    }

    /// A declaration is emitted for a module of this type: the module is written in
    /// TypeScript, and the compiler options, where there are any, neither forbid all
    /// output nor leave declarations switched off.
    pub open spec fn emits_for(self, module_type: ModuleType) -> bool {
        module_type.is_typescript() && (self.compiler_options matches Some(options)
            ==> options.allows_declarations())
    }

    /// Whether a declaration is emitted for a module of this type.
    pub fn should_emit(&self, module_type: &ModuleType) -> (r: bool)
        ensures
            r == self.emits_for(*module_type),
    {
        if !module_type.is_ts() {
            return false;
        }
        match &self.compiler_options {
            Some(options) => !options.no_emit && options.declaration,
            None => true,
        }
    }

    /// The name that marks what comes from this plugin.
    pub fn name(&self) -> (name: &'static str)
        ensures
            name@ == Self::spec_name(),
    {
        "builtin:dts"
    }

    /// The transform hook asks to run late among the hooks of its kind.
    pub fn transform_ast_meta(&self) -> (meta: Option<PluginHookMeta>)
        ensures
            meta == Some(PluginHookMeta { order: Some(PluginOrder::Post) }),
    {
        Some(PluginHookMeta { order: Some(PluginOrder::Post) })
    }

    /// The plugin works on syntax trees, not on text.
    pub fn register_hook_usage(&self) -> (usage: HookUsage)
        ensures
            usage == HookUsage::TransformAst,
    {
        HookUsage::TransformAst
    }
}

} // verus!
