[package]
name = "rolldown_plugin_dts"
version = "0.1.0"
edition = "2021"
publish = false

[dependencies]
anyhow = "=1.0.104"
arcstr = "=1.2.0"
itertools = "=0.14.0"
memchr = "=2.8.3"
oxc = { version = "=0.133.0", features = ["ast_visit", "codegen", "isolated_declarations"] }
oxc_resolver = "=11.19.1"
rolldown_common = "=1.0.3"
rolldown_error = "=1.0.3"
rolldown_fs = "=1.0.3"
rolldown_plugin = "=1.0.3"
rolldown_sourcemap = "=1.0.3"
rolldown_utils = "=1.0.3"
serde_json = "=1.0.154"
string_wizard = "=1.0.3"
sugar_path = "=1.2.1"
