use rolldown_plugin_dts::emit::ArtifactEmitter;

#[test]
fn typescript_extensions_become_the_declaration_extension() {
    assert_eq!(ArtifactEmitter::replace_extension("foo.ts"), "foo.d.ts");
    assert_eq!(ArtifactEmitter::replace_extension("foo.tsx"), "foo.d.ts");
    assert_eq!(ArtifactEmitter::replace_extension("src/a/foo.ts"), "src/a/foo.d.ts");
    assert_eq!(ArtifactEmitter::replace_extension("../foo.tsx"), "../foo.d.ts");
    assert_eq!(ArtifactEmitter::declaration_file_name("src/foo.ts"), "src/foo.d.ts");
}

#[test]
fn only_the_last_extension_is_replaced() {
    assert_eq!(ArtifactEmitter::replace_extension("foo.test.ts"), "foo.test.d.ts");
    assert_eq!(ArtifactEmitter::replace_extension("a.ts/b.tsx"), "a.ts/b.d.ts");
    assert_eq!(ArtifactEmitter::replace_extension("foo.d.ts"), "foo.d.d.ts");
    assert_eq!(ArtifactEmitter::replace_extension("foo.js"), "foo.d.ts");
}

#[test]
fn a_name_without_extension_gets_one() {
    assert_eq!(ArtifactEmitter::replace_extension("foo"), "foo.d.ts");
    assert_eq!(ArtifactEmitter::replace_extension("dir.x/foo"), "dir.x/foo.d.ts");
    assert_eq!(ArtifactEmitter::replace_extension(".hidden"), ".hidden.d.ts");
    assert_eq!(ArtifactEmitter::replace_extension("dir/.ts"), "dir/.ts.d.ts");
    assert_eq!(ArtifactEmitter::replace_extension("foo."), "foo.d.ts");
    assert_eq!(ArtifactEmitter::replace_extension("..foo"), "..d.ts");
    assert_eq!(ArtifactEmitter::replace_extension("é.ts"), "é.d.ts");
}

#[test]
fn a_path_without_file_name_stays() {
    assert_eq!(ArtifactEmitter::replace_extension(""), "");
    assert_eq!(ArtifactEmitter::replace_extension("/"), "/");
    assert_eq!(ArtifactEmitter::replace_extension("."), ".");
    assert_eq!(ArtifactEmitter::replace_extension(".."), "..");
    assert_eq!(ArtifactEmitter::replace_extension("a/.."), "a/..");
    assert_eq!(ArtifactEmitter::replace_extension("./"), "./");
    assert_eq!(ArtifactEmitter::replace_extension("//"), "//");
}

#[test]
fn what_trails_the_last_component_is_dropped() {
    assert_eq!(ArtifactEmitter::replace_extension("foo.ts/"), "foo.d.ts");
    assert_eq!(ArtifactEmitter::replace_extension("foo.ts/."), "foo.d.ts");
    assert_eq!(ArtifactEmitter::replace_extension("a/foo.ts/.//"), "a/foo.d.ts");
    assert_eq!(ArtifactEmitter::replace_extension("a/foo/"), "a/foo.d.ts");
}

#[test]
fn replace_extension_agrees_with_the_standard_library() {
    let paths = [
        "foo.ts", "foo.tsx", "src/a/foo.ts", "foo.test.ts", "a.ts/b.tsx", "foo", ".hidden",
        "dir/.ts", "foo.", "..foo", "", "/", ".", "..", "a/..", "./", "foo.ts/", "foo.ts/.",
        "a/foo.ts/.//", "a/foo/", "/abs/x.y.z", "a//b.ts", "./x.ts", "a/./b.ts", "...",
    ];
    for path in paths {
        let mut expected = std::path::PathBuf::from(path);
        expected.set_extension("d.ts");
        assert_eq!(
            ArtifactEmitter::replace_extension(path),
            expected.to_str().unwrap(),
            "for {path:?}"
        );
    }
}

#[test]
fn declaration_asset_is_anonymous() {
    let asset = ArtifactEmitter::declaration_asset("src/foo.tsx", "export {};\n".to_string());
    assert_eq!(asset.name, None);
    assert_eq!(asset.original_file_name, None);
    assert_eq!(asset.file_name, Some("src/foo.d.ts".to_string()));
    assert_eq!(asset.source, "export {};\n");
}
