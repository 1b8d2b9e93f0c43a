//! The per-module transform: what is decided, in which order, and what the host is asked
//! to do.
//!
//! Nothing outside is called from here: not the host's services (resolving, loading,
//! registering a file), and not synthesis, printing or rendering either. The coordinator
//! is a state machine: it hands out the next action, the caller performs it and hands
//! back what happened.

use crate::diagnostics::{aggregate_message, DiagnosticReporter, Severity, SynthesisError};
use crate::text::texts;
use crate::emit::{is_declaration_asset, ArtifactEmitter, EmittedAsset};
use crate::options::{DtsPlugin, ModuleType};
use crate::syntax::SyntaxTree;
use crate::type_imports::{collect_type_imports, tree_specifiers};
use oxc::diagnostics::OxcDiagnostic;
use vstd::prelude::*;
use vstd::string::StringExecFns;

verus! {

/// What the host says of a resolved module: whether it stays outside the bundle.
#[derive(Debug, Clone, Copy, PartialEq, Eq, Structural)]
pub enum ResolvedExternal {
    Bool(bool),
    Absolute,
    Relative,
}

impl ResolvedExternal {
    /// The module is part of the bundle, so it has a declaration of its own to emit.
    pub open spec fn is_internal(self) -> bool {
        self == ResolvedExternal::Bool(false)
    }

    /// Whether the module has to be loaded.
    pub fn needs_load(&self) -> (r: bool)
        ensures
            r == self.is_internal(),
    {
        match self {
            ResolvedExternal::Bool(external) => !*external,
            _ => false,
        }
    }
}

/// Why the transform of a module failed. A failure of the host is handed on as it came.
#[derive(Debug)]
pub enum DtsError<E> {
    /// The host could not resolve a type-only import.
    Resolution(E),
    /// The host could not load a resolved module.
    Load(E),
    /// Declaration synthesis reported diagnostics.
    Synthesis(SynthesisError),
}

/// Where the transform of a module stands.
#[derive(Debug, Clone, Copy, PartialEq, Eq, Structural)]
pub enum Phase {
    /// No declaration is emitted for this module.
    Skip,
    /// The type-only imports are being collected.
    Collecting,
    /// The host is resolving the import at the cursor.
    Resolving,
    /// The host is loading the module that the import at the cursor resolved to.
    Loading,
    /// The declarations are being synthesized.
    Synthesizing,
    /// Synthesis reported diagnostics, which are being rendered.
    Rendering,
    /// The declarations are being printed.
    Printing,
    /// The host is registering the artifact.
    Emitting,
    /// The artifact is registered.
    Done,
    /// The transform failed; no artifact was registered.
    Failed,
}

/// What happened since the last action was handed out.
#[derive(Debug)]
pub enum Event<E> {
    Collected { specifiers: Vec<String> },
    Resolved { id: String, external: ResolvedExternal },
    ResolveFailed { error: E },
    Loaded,
    LoadFailed { error: E },
    /// Synthesis ended with `diagnostics` for the module with the text `source`.
    Synthesized { diagnostics: Vec<OxcDiagnostic>, source: String },
    /// The diagnostics are rendered: `texts` holds the text of each.
    Rendered { texts: Vec<String> },
    Printed { code: String },
    Emitted,
}

/// What the caller has to do next.
#[derive(Debug)]
pub enum Action<E> {
    /// Collect the type-only imports of the module.
    Collect,
    /// Resolve `specifier`, with the module `importer` as the one that imports it.
    Resolve { specifier: String, importer: String },
    /// Load the module `id`.
    Load { id: String },
    /// Synthesize the declarations of the module.
    Synthesize { strip_internal: bool },
    /// Render each of `diagnostics` with its place in `source`, the text of the module
    /// `id`: as a diagnostic of the severity `severity`, marked with `kind`.
    Render {
        diagnostics: Vec<OxcDiagnostic>,
        source: String,
        id: String,
        kind: String,
        severity: Severity,
    },
    /// Print the synthesized declarations.
    Print,
    /// Register `asset` with the host.
    Emit { asset: EmittedAsset },
    /// Hand the module's syntax tree back as it came.
    Return,
    /// Give up with `error`.
    Fail { error: DtsError<E> },
}

/// The state of the transform of one module.
#[derive(Debug)]
pub struct TransformCoordinator {
    pub phase: Phase,
    /// The id of the module, as the host knows it.
    pub id: String,
    /// The stabilized id of the module, from which the artifact's path is derived.
    pub stable_id: String,
    pub strip_internal: bool,
    /// The type-only imports, in source order.
    pub specifiers: Vec<String>,
    /// The number of imports that are dealt with.
    pub cursor: usize,
}

impl Phase {
    /// How far the transform has come. No step goes back.
    pub open spec fn rank(self) -> nat {
        match self {
            Phase::Collecting => 0,
            Phase::Resolving => 1,
            Phase::Loading => 1,
            Phase::Synthesizing => 2,
            Phase::Rendering => 3,
            Phase::Printing => 3,
            Phase::Emitting => 4,
            Phase::Done => 5,
            Phase::Failed => 5,
            Phase::Skip => 5,
        }
    }

    /// The transform is over: the syntax tree is handed back, or the failure is.
    pub open spec fn is_final(self) -> bool {
        self is Skip || self is Done || self is Failed
    }

    /// The number of artifacts that can still be registered.
    pub open spec fn artifacts_ahead(self) -> nat {
        if self.rank() <= 3 {
            1
        } else {
            0
        }
    }
}

impl DtsPlugin {
    /// The phase in which the transform of a module of this type begins: the module is
    /// skipped unless a declaration is emitted for it.
    pub open spec fn first_phase(self, module_type: ModuleType) -> Phase {
        if self.emits_for(module_type) {
            Phase::Collecting
        } else {
            Phase::Skip
        }
    }
}

impl<E> Action<E> {
    /// The action asks the host to resolve or to load a module.
    pub open spec fn is_request(self) -> bool {
        self is Resolve || self is Load
    }
}

impl TransformCoordinator {
    /// The cursor is within the imports, and on one of them while the host works on it.
    pub open spec fn wf(self) -> bool {
        &&& self.cursor <= self.specifiers@.len()
        &&& (self.phase is Resolving || self.phase is Loading) ==> self.cursor
            < self.specifiers@.len()
    }

    /// This state in another phase.
    pub open spec fn in_phase(self, phase: Phase) -> TransformCoordinator {
        TransformCoordinator {
            phase,
            id: self.id,
            stable_id: self.stable_id,
            strip_internal: self.strip_internal,
            specifiers: self.specifiers,
            cursor: self.cursor,
        }
    }

    /// The event is one that the phase waits for.
    pub open spec fn accepts<E>(self, event: Event<E>) -> bool {
        match event {
            Event::Collected { .. } => self.phase is Collecting,
            Event::Resolved { .. } => self.phase is Resolving,
            Event::ResolveFailed { .. } => self.phase is Resolving,
            Event::Loaded => self.phase is Loading,
            Event::LoadFailed { .. } => self.phase is Loading,
            Event::Synthesized { .. } => self.phase is Synthesizing,
            Event::Rendered { .. } => self.phase is Rendering,
            Event::Printed { .. } => self.phase is Printing,
            Event::Emitted => self.phase is Emitting,
        }
    }

    /// With the imports before `cursor` dealt with, the transform goes on in `post` with
    /// `action`: the next import is resolved, or, after the last, synthesis begins.
    pub open spec fn moves_on<E>(self, cursor: int, post: TransformCoordinator, action: Action<E>) -> bool {
        &&& post.id == self.id
        &&& post.stable_id == self.stable_id
        &&& post.strip_internal == self.strip_internal
        &&& post.specifiers == self.specifiers
        &&& post.cursor == cursor
        &&& if cursor < self.specifiers@.len() {
            post.phase is Resolving && action == (Action::<E>::Resolve {
                specifier: self.specifiers@[cursor],
                importer: self.id,
            })
        } else {
            post.phase is Synthesizing && action == (Action::<E>::Synthesize {
                strip_internal: self.strip_internal,
            })
        }
    }

    /// The step that `event` causes: from this state to `post`, with `action` as the
    /// next thing to do.
    pub open spec fn steps_to<E>(self, event: Event<E>, post: TransformCoordinator, action: Action<E>) -> bool {
        match event {
            Event::Collected { specifiers } => {
                &&& self.phase is Collecting
                &&& (TransformCoordinator {
                    phase: self.phase,
                    id: self.id,
                    stable_id: self.stable_id,
                    strip_internal: self.strip_internal,
                    specifiers,
                    cursor: 0,
                }).moves_on(0, post, action)
            },
            Event::Resolved { id, external } => {
                &&& self.phase is Resolving
                &&& if external.is_internal() {
                    post == self.in_phase(Phase::Loading) && action == (Action::<E>::Load { id })
                } else {
                    self.moves_on(self.cursor + 1, post, action)
                }
            },
            Event::ResolveFailed { error } => {
                &&& self.phase is Resolving
                &&& post == self.in_phase(Phase::Failed)
                &&& action == (Action::Fail { error: DtsError::Resolution(error) })
            },
            Event::Loaded => {
                &&& self.phase is Loading
                &&& self.moves_on(self.cursor + 1, post, action)
            },
            Event::LoadFailed { error } => {
                &&& self.phase is Loading
                &&& post == self.in_phase(Phase::Failed)
                &&& action == (Action::Fail { error: DtsError::Load(error) })
            },
            Event::Synthesized { diagnostics, source } => {
                &&& self.phase is Synthesizing
                &&& if diagnostics@.len() > 0 {
                    &&& post == self.in_phase(Phase::Rendering)
                    &&& action matches Action::Render {
                        diagnostics: handed,
                        source: text,
                        id,
                        kind,
                        severity,
                    }
                    &&& handed == diagnostics
                    &&& text == source
                    &&& id == self.id
                    &&& kind@ == DtsPlugin::spec_name()
                    &&& severity == Severity::Error
                } else {
                    post == self.in_phase(Phase::Printing) && action == Action::<E>::Print
                }
            },
            Event::Rendered { texts: rendered } => {
                &&& self.phase is Rendering
                &&& post == self.in_phase(Phase::Failed)
                &&& action matches Action::Fail { error: DtsError::Synthesis(failure) }
                &&& failure.message@ == aggregate_message(texts(rendered@))
            },
            Event::Printed { code } => {
                &&& self.phase is Printing
                &&& post == self.in_phase(Phase::Emitting)
                &&& action matches Action::Emit { asset }
                &&& is_declaration_asset(asset, self.stable_id@, code@)
            },
            Event::Emitted => {
                &&& self.phase is Emitting
                &&& post == self.in_phase(Phase::Done)
                &&& action == Action::<E>::Return
            },
        }
    }

    /// Whether the cursor is within the imports, and on one of them while the host works
    /// on it.
    pub fn is_wf(&self) -> (r: bool)
        ensures
            r == self.wf(),
    {
        let count = self.specifiers.len();
        match self.phase {
            Phase::Resolving => self.cursor < count,
            Phase::Loading => self.cursor < count,
            _ => self.cursor <= count,
        }
    }

    /// Begins the transform of a module. A module that is not written in TypeScript, or
    /// for which the compiler options switch declarations off, is skipped: its syntax
    /// tree goes back as it came and nothing else happens.
    pub fn start<E>(plugin: &DtsPlugin, module_type: &ModuleType, id: &str, stable_id: &str) -> (r:
        (TransformCoordinator, Action<E>))
        ensures
            r.0.wf(),
            r.0.id@ == id@,
            r.0.stable_id@ == stable_id@,
            r.0.strip_internal == plugin.strip_internal,
            r.0.specifiers@.len() == 0,
            r.0.cursor == 0,
            r.0.phase == plugin.first_phase(*module_type),
            r.0.phase is Collecting ==> r.1 == Action::<E>::Collect,
            r.0.phase is Skip ==> r.1 == Action::<E>::Return,
    {
        let emits = plugin.should_emit(module_type);
        let state = TransformCoordinator {
            phase: if emits {
                Phase::Collecting
            } else {
                Phase::Skip
            },
            id: String::from_str(id),
            stable_id: String::from_str(stable_id),
            strip_internal: plugin.strip_internal,
            specifiers: Vec::new(),
            cursor: 0,
        };
        if emits {
            (state, Action::Collect)
        } else {
            (state, Action::Return)
        }
    }

    /// Goes on behind the imports before `cursor`.
    fn move_on<E>(&mut self, cursor: usize) -> (action: Action<E>)
        requires
            cursor <= old(self).specifiers@.len(),
        ensures
            old(self).moves_on(cursor as int, *final(self), action),
            final(self).wf(),
    {
        self.cursor = cursor;
        if cursor < self.specifiers.len() {
            self.phase = Phase::Resolving;
            Action::Resolve { specifier: self.specifiers[cursor].clone(), importer: self.id.clone() }
        } else {
            self.phase = Phase::Synthesizing;
            Action::Synthesize { strip_internal: self.strip_internal }
        }
    }

    /// Takes in what happened and hands out the next action. An event that the phase
    /// does not wait for changes nothing and gets no action.
    pub fn step<E>(&mut self, event: Event<E>) -> (r: Option<Action<E>>)
        requires
            old(self).wf(),
        ensures
            final(self).wf(),
            r matches Some(action) ==> old(self).steps_to(event, *final(self), action),
            r is Some <==> old(self).accepts(event),
            r is None ==> *final(self) == *old(self),
    {
        match event {
            Event::Collected { specifiers } => {
                match self.phase {
                    Phase::Collecting => {
                        self.specifiers = specifiers;
                        Some(self.move_on(0))
                    },
                    _ => None,
                }
            },
            Event::Resolved { id, external } => {
                match self.phase {
                    Phase::Resolving => {
                        if external.needs_load() {
                            self.phase = Phase::Loading;
                            Some(Action::Load { id })
                        } else {
                            assert(self.cursor < self.specifiers.len());
                            let next = self.cursor + 1;
                            Some(self.move_on(next))
                        }
                    },
                    _ => None,
                }
            },
            Event::ResolveFailed { error } => {
                match self.phase {
                    Phase::Resolving => {
                        self.phase = Phase::Failed;
                        Some(Action::Fail { error: DtsError::Resolution(error) })
                    },
                    _ => None,
                }
            },
            Event::Loaded => {
                match self.phase {
                    Phase::Loading => {
                        assert(self.cursor < self.specifiers.len());
                        let next = self.cursor + 1;
                        Some(self.move_on(next))
                    },
                    _ => None,
                }
            },
            Event::LoadFailed { error } => {
                match self.phase {
                    Phase::Loading => {
                        self.phase = Phase::Failed;
                        Some(Action::Fail { error: DtsError::Load(error) })
                    },
                    _ => None,
                }
            },
            Event::Synthesized { diagnostics, source } => {
                match self.phase {
                    Phase::Synthesizing => {
                        if diagnostics.len() > 0 {
                            self.phase = Phase::Rendering;
                            Some(
                                Action::Render {
                                    diagnostics,
                                    source,
                                    id: self.id.clone(),
                                    kind: String::from_str("builtin:dts"),
                                    severity: Severity::Error,
                                },
                            )
                        } else {
                            self.phase = Phase::Printing;
                            Some(Action::Print)
                        }
                    },
                    _ => None,
                }
            },
            Event::Rendered { texts } => {
                match self.phase {
                    Phase::Rendering => {
                        let failure = DiagnosticReporter::aggregate(&texts);
                        self.phase = Phase::Failed;
                        Some(Action::Fail { error: DtsError::Synthesis(failure) })
                    },
                    _ => None,
                }
            },
            Event::Printed { code } => {
                match self.phase {
                    Phase::Printing => {
                        let asset = ArtifactEmitter::declaration_asset(
                            self.stable_id.as_str(),
                            code,
                        );
                        self.phase = Phase::Emitting;
                        Some(Action::Emit { asset })
                    },
                    _ => None,
                }
            },
            Event::Emitted => {
                match self.phase {
                    Phase::Emitting => {
                        self.phase = Phase::Done;
                        Some(Action::Return)
                    },
                    _ => None,
                }
            },
        }
    }

    /// Collects the type-only imports of `tree` and takes them in: the first of them is
    /// resolved next, or, where there is none, synthesis begins.
    pub fn collect<E>(&mut self, tree: &SyntaxTree) -> (r: Option<Action<E>>)
        requires
            old(self).wf(),
        ensures
            final(self).wf(),
            r is Some <==> old(self).phase is Collecting,
            r is None ==> *final(self) == *old(self),
            r matches Some(action) ==> texts(final(self).specifiers@) == tree_specifiers(*tree)
                && old(self).steps_to(
                Event::<E>::Collected { specifiers: final(self).specifiers },
                *final(self),
                action,
            ),
    {
        match self.phase {
            Phase::Collecting => {
                let specifiers = collect_type_imports(tree);
                self.step(Event::Collected { specifiers })
            },
            _ => None,
        }
    }
}

} // verus!
