use arcstr::ArcStr;
use oxc::allocator::Allocator;
use oxc::codegen::Codegen;
use oxc::isolated_declarations::{IsolatedDeclarations, IsolatedDeclarationsOptions};
use oxc::parser::Parser;
use oxc::span::SourceType;
use rolldown_error::{BuildDiagnostic, EventKind};
use rolldown_plugin_dts::diagnostics::Severity;
use rolldown_plugin_dts::emit::EmittedAsset;
use rolldown_plugin_dts::options::{DtsPlugin, ModuleType};
use rolldown_plugin_dts::syntax::SyntaxTree;
use rolldown_plugin_dts::transform::{Action, DtsError, Event, Phase, TransformCoordinator};

type Host = String;

fn declarations(plugin: &DtsPlugin, stable_id: &str, source: &str) -> Result<EmittedAsset, String> {
    let allocator = Allocator::default();
    let parsed = Parser::new(&allocator, source, SourceType::ts()).parse();
    assert!(parsed.errors.is_empty());
    let before = Codegen::new().build(&parsed.program).code;
    let (mut run, _) =
        TransformCoordinator::start::<Host>(plugin, &ModuleType::Ts, "/project/src/a.ts", stable_id);
    let action = match run.collect::<Host>(&SyntaxTree::new()).unwrap() {
        Action::Synthesize { strip_internal } => {
            assert_eq!(strip_internal, plugin.strip_internal);
            let options = IsolatedDeclarationsOptions { strip_internal };
            let ret = IsolatedDeclarations::new(&allocator, options).build(&parsed.program);
            let text = if ret.errors.is_empty() { String::new() } else { source.to_string() };
            let event = Event::Synthesized { diagnostics: ret.errors, source: text };
            match run.step::<Host>(event).unwrap() {
                Action::Print => {
                    assert_eq!(run.phase, Phase::Printing);
                    let code = Codegen::new().build(&ret.program).code;
                    run.step::<Host>(Event::Printed { code }).unwrap()
                }
                other => other,
            }
        }
        other => panic!("{other:?}"),
    };
    assert_eq!(Codegen::new().build(&parsed.program).code, before);
    match action {
        Action::Emit { asset } => {
            assert_eq!(run.phase, Phase::Emitting);
            Ok(asset)
        }
        Action::Render { diagnostics, source: text, id, kind, severity } => {
            assert_eq!(run.phase, Phase::Rendering);
            assert!(!diagnostics.is_empty());
            assert_eq!(text, source);
            assert_eq!(id, "/project/src/a.ts");
            assert_eq!(kind, plugin.name());
            assert_eq!(severity, Severity::Error);
            let texts = BuildDiagnostic::from_oxc_diagnostics(
                diagnostics,
                &ArcStr::from(text),
                "src/a.ts",
                rolldown_error::Severity::Error,
                EventKind::TransformError,
            )
            .iter()
            .map(|error| error.to_diagnostic().with_kind(kind.clone()).to_color_string())
            .collect();
            match run.step::<Host>(Event::Rendered { texts }).unwrap() {
                Action::Fail { error: DtsError::Synthesis(failure) } => {
                    assert_eq!(run.phase, Phase::Failed);
                    Err(failure.message)
                }
                other => panic!("{other:?}"),
            }
        }
        other => panic!("{other:?}"),
    }
}

#[test]
fn interface_and_function_are_declared() {
    let source = "export interface A { x: number }\nexport function f(a: A): A { return a }\n";
    let asset = declarations(&DtsPlugin::default(), "src/a.ts", source).unwrap();
    assert_eq!(asset.file_name, Some("src/a.d.ts".to_string()));
    assert_eq!(asset.name, None);
    assert_eq!(asset.original_file_name, None);
    assert!(asset.source.contains("interface A"), "{}", asset.source);
    assert!(asset.source.contains("x: number"), "{}", asset.source);
    assert!(asset.source.contains("export declare function f(a: A): A;"), "{}", asset.source);
    assert!(!asset.source.contains("return"), "{}", asset.source);
}

#[test]
fn internal_declarations_are_stripped_on_request() {
    let source = "/** @internal */\nexport function hidden(): void {}\nexport function shown(): void {}\n";
    let kept = declarations(&DtsPlugin::default(), "a.ts", source).unwrap();
    assert!(kept.source.contains("hidden"), "{}", kept.source);
    assert!(kept.source.contains("shown"), "{}", kept.source);
    let plugin = DtsPlugin { strip_internal: true, ..DtsPlugin::default() };
    let stripped = declarations(&plugin, "a.ts", source).unwrap();
    assert!(!stripped.source.contains("hidden"), "{}", stripped.source);
    assert!(stripped.source.contains("shown"), "{}", stripped.source);
}

#[test]
fn a_diagnostic_fails_the_module() {
    let source = "export const a = compute();\nexport function g() { return compute() }\n";
    let message = declarations(&DtsPlugin::default(), "a.ts", source).unwrap_err();
    assert!(message.starts_with('\n'), "{message}");
    assert!(message.contains("builtin:dts"), "{message}");
    assert!(message.contains("isolatedDeclarations"), "{message}");
    assert!(message.contains("\n\n"), "{message}");
    assert!(message.contains("src/a.ts"), "{message}");
}
