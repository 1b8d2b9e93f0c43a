//! The declaration artifact of a module: where it goes and what is registered.
//!
//! The output path is derived from the module's stabilized id by looking at its text
//! alone: the extension of the last path component is taken off and `.d.ts` is put in its
//! place. Components are separated by `/`, on every platform; a `\` is a character of a
//! name like any other, also where the platform's own paths take it for a separator.

use crate::text::chars_of;
use sugar_path::SugarPath;
use vstd::prelude::*;
use vstd::string::StrSliceExecFns;
use vstd::string::StringExecFns;

verus! {

/// A file handed to the host's output set. A declaration artifact has neither a logical
/// name nor an original file name.
#[derive(Debug)]
pub struct EmittedAsset {
    pub name: Option<String>,
    pub original_file_name: Option<String>,
    pub file_name: Option<String>,
    pub source: String,
}

/// The length of `path` without the `/` and `/.` that may trail its last component.
pub open spec fn trimmed_len(path: Seq<char>) -> int
    decreases path.len(),
{
    let n = path.len() as int;
    if n >= 1 && path[n - 1] == '/' {
        trimmed_len(path.take(n - 1))
    } else if n >= 2 && path[n - 1] == '.' && path[n - 2] == '/' {
        trimmed_len(path.take(n - 1))
    } else {
        n
    }
}

/// Where the component that ends at `end` starts: behind the last `/` before `end`.
pub open spec fn name_start(path: Seq<char>, end: int) -> int
    decreases end,
{
    if end <= 0 || end > path.len() || path[end - 1] == '/' {
        end
    } else {
        name_start(path, end - 1)
    }
}

/// The index of the last `.` of the component from `start` to `end` that is not its
/// first character; `end` where there is none.
pub open spec fn stem_end(path: Seq<char>, start: int, end: int) -> int {
    stem_end_from(path, start, end, end)
}

/// The search of `stem_end`, with the dots from `scan` on already ruled out.
pub open spec fn stem_end_from(path: Seq<char>, start: int, end: int, scan: int) -> int
    decreases scan - start,
{
    if scan <= start + 1 || scan > path.len() {
        end
    } else if path[scan - 1] == '.' {
        scan - 1
    } else {
        stem_end_from(path, start, end, scan - 1)
    }
}

/// The component from `start` to `end` is a file name: it is not empty and is neither
/// `.` nor `..`.
pub open spec fn is_file_name(path: Seq<char>, start: int, end: int) -> bool {
    let name = path.subrange(start, end);
    name.len() > 0 && name != seq!['.'] && name != seq!['.', '.']
}

/// `path` with the extension of its last component replaced by `.d.ts`. A path without a
/// file name stays as it is.
pub open spec fn with_declaration_extension(path: Seq<char>) -> Seq<char> {
    let end = trimmed_len(path);
    let start = name_start(path, end);
    if 0 <= start <= end <= path.len() && is_file_name(path, start, end) {
        path.take(stem_end(path, start, end)) + ".d.ts"@
    } else {
        path
    }
}

/// `out` is `path` with separators written as `/`: the two agree but where `path` has
/// `\` and `out` has `/`.
pub open spec fn slashed(path: Seq<char>, out: Seq<char>) -> bool {
    &&& out.len() == path.len()
    &&& forall|i: int|
        0 <= i < path.len() ==> #[trigger] out[i] == path[i] || (path[i] == '\\' && out[i]
            == '/')
}

/// The declaration artifact for the module `stable_id` with the text `source`.
pub open spec fn is_declaration_asset(asset: EmittedAsset, stable_id: Seq<char>, source: Seq<char>) -> bool {
    &&& asset.name is None
    &&& asset.original_file_name is None
    &&& asset.file_name matches Some(file_name) && slashed(
        with_declaration_extension(stable_id),
        file_name@,
    )
    &&& asset.source@ == source
}

/// Calls `SugarPath::to_slash_lossy` on the path `path`: the path as text, with each
/// main separator of the platform written as `/`. That separator is `/` or `\`.
#[verifier::external_body]
fn to_slash(path: &str) -> (r: String)
    ensures
        slashed(path@, r@),
{
    std::path::Path::new(path).to_slash_lossy().into_owned()
}

/// The end of the last component of `path`.
fn trim_end(path: &Vec<char>) -> (end: usize)
    ensures
        end == trimmed_len(path@),
        end <= path@.len(),
{
    let mut end = path.len();
    assert(path@.take(end as int) =~= path@);
    loop
        invariant
            end <= path@.len(),
            trimmed_len(path@) == trimmed_len(path@.take(end as int)),
        ensures
            end == trimmed_len(path@),
            end <= path@.len(),
        decreases end,
    {
        let ghost shorter = path@.take(end as int);
        if end >= 1 && path[end - 1] == '/' {
            end -= 1;
            assert(shorter.take(end as int) =~= path@.take(end as int));
        } else if end >= 2 && path[end - 1] == '.' && path[end - 2] == '/' {
            end -= 1;
            assert(shorter.take(end as int) =~= path@.take(end as int));
        } else {
            break ;
        }
    }
    end
}

/// The start of the component that ends at `end`.
fn find_name_start(path: &Vec<char>, end: usize) -> (start: usize)
    requires
        end <= path@.len(),
    ensures
        start == name_start(path@, end as int),
        start <= end,
{
    let mut start = end;
    while start > 0 && path[start - 1] != '/'
        invariant
            start <= end <= path@.len(),
            name_start(path@, end as int) == name_start(path@, start as int),
        decreases start,
    {
        start -= 1;
    }
    start
}

/// The end of the stem of the component from `start` to `end`.
fn find_stem_end(path: &Vec<char>, start: usize, end: usize) -> (stem: usize)
    requires
        start <= end <= path@.len(),
    ensures
        stem == stem_end(path@, start as int, end as int),
        start <= stem <= end,
{
    let mut scan = end;
    while scan - start > 1
        invariant
            start <= scan <= end <= path@.len(),
            stem_end(path@, start as int, end as int) == stem_end_from(
                path@,
                start as int,
                end as int,
                scan as int,
            ),
        decreases scan,
    {
        if path[scan - 1] == '.' {
            return scan - 1;
        }
        scan -= 1;
    }
    end
}

/// Whether the component from `start` to `end` is a file name.
fn has_file_name(path: &Vec<char>, start: usize, end: usize) -> (r: bool)
    requires
        start <= end <= path@.len(),
    ensures
        r == is_file_name(path@, start as int, end as int),
{
    let ghost name = path@.subrange(start as int, end as int);
    let len = end - start;
    if len == 0 {
        false
    } else if len == 1 {
        assert(name[0] == path@[start as int]);
        assert(path@[start as int] == '.' ==> name =~= seq!['.']);
        path[start] != '.'
    } else if len == 2 {
        assert(name[0] == path@[start as int] && name[1] == path@[start + 1]);
        assert(path@[start as int] == '.' && path@[start + 1] == '.' ==> name =~= seq!['.', '.']);
        !(path[start] == '.' && path[start + 1] == '.')
    } else {
        true
    }
}

/// Derives output paths and builds the artifact that is registered.
pub struct ArtifactEmitter;

impl ArtifactEmitter {
    /// `path` with the extension of its last component replaced by `.d.ts`.
    pub fn replace_extension(path: &str) -> (r: String)
        ensures
            r@ == with_declaration_extension(path@),
    {
        let chars = chars_of(path);
        let end = trim_end(&chars);
        let start = find_name_start(&chars, end);
        if has_file_name(&chars, start, end) {
            let stem = find_stem_end(&chars, start, end);
            assert(path@.take(stem as int) =~= path@.subrange(0, stem as int));
            String::from_str(path.substring_char(0, stem)).concat(".d.ts")
        } else {
            String::from_str(path)
        }
    }

    /// The path of the declaration file of the module `stable_id`, with `/` between its
    /// components.
    pub fn declaration_file_name(stable_id: &str) -> (r: String)
        ensures
            slashed(with_declaration_extension(stable_id@), r@),
    {
        let replaced = Self::replace_extension(stable_id);
        to_slash(replaced.as_str())
    }

    /// The artifact that holds the declarations `source` of the module `stable_id`: it
    /// has a file name and a content, and nothing else.
    pub fn declaration_asset(stable_id: &str, source: String) -> (asset: EmittedAsset)
        ensures
            is_declaration_asset(asset, stable_id@, source@),
    {
        EmittedAsset {
            name: None,
            original_file_name: None,
            file_name: Some(Self::declaration_file_name(stable_id)),
            source,
        }
    }
}

/// The component that ends at `end` starts at or before `end`, right behind a `/` or at
/// the start of the path, and holds no `/`.
pub proof fn lemma_name_start(path: Seq<char>, end: int)
    requires
        0 <= end <= path.len(),
    ensures
        0 <= name_start(path, end) <= end,
        name_start(path, end) == 0 || path[name_start(path, end) - 1] == '/',
        forall|k: int| name_start(path, end) <= k < end ==> path[k] != '/',
    decreases end,
{
    if end > 0 && path[end - 1] != '/' {
        lemma_name_start(path, end - 1);
    }
}

/// Where the last `.` of a component stands at `dot`, behind the component's first
/// character, the stem ends there.
pub proof fn lemma_stem_ends_at_last_dot(path: Seq<char>, start: int, end: int, scan: int, dot: int)
    requires
        0 <= start < dot < scan <= end <= path.len(),
        path[dot] == '.',
        forall|k: int| dot < k < scan ==> path[k] != '.',
    ensures
        stem_end_from(path, start, end, scan) == dot,
    decreases scan,
{
    if path[scan - 1] != '.' {
        lemma_stem_ends_at_last_dot(path, start, end, scan - 1, dot);
    }
}

/// A path without `\` is written with `/` already.
pub proof fn lemma_slashed_without_backslash(path: Seq<char>, out: Seq<char>)
    requires
        slashed(path, out),
        forall|i: int| 0 <= i < path.len() ==> path[i] != '\\',
    ensures
        out == path,
{
    assert(out =~= path);
}

/// A path whose last component has a name and an extension maps to the same name with
/// `.d.ts` in place of the extension: the old extension does not stay.
pub proof fn lemma_extension_is_replaced(base: Seq<char>, extension: Seq<char>)
    requires
        base.len() > 0,
        base.last() != '/',
        extension.len() > 0,
        forall|k: int| 0 <= k < extension.len() ==> extension[k] != '/' && extension[k] != '.',
    ensures
        with_declaration_extension(base + seq!['.'] + extension) == base + ".d.ts"@,
{
    let path = base + seq!['.'] + extension;
    let n = path.len() as int;
    let dot = base.len() as int;
    assert(path[n - 1] == extension[extension.len() - 1]);
    assert(trimmed_len(path) == n);
    lemma_name_start(path, n);
    let start = name_start(path, n);
    assert(start < dot) by {
        if start >= dot {
            assert(path[dot - 1] == base.last());
            assert(path[dot] == '.');
            if start - 1 > dot {
                assert(path[start - 1] == extension[start - 1 - dot - 1]);
            }
        }
    }
    assert(path[dot] == '.');
    assert forall|k: int| dot < k < n implies path[k] != '.' by {
        assert(path[k] == extension[k - dot - 1]);
    }
    lemma_stem_ends_at_last_dot(path, start, n, n, dot);
    assert(path.subrange(start, n).len() >= 3);
    assert(is_file_name(path, start, n));
    assert(path.take(dot) =~= base);
}

/// A module id that ends in `.ts` or `.tsx` behind a name maps to that name with the
/// single suffix `.d.ts`, and both extensions map to the same path.
pub proof fn lemma_typescript_extensions_map_to_one_suffix(base: Seq<char>)
    requires
        base.len() > 0,
        base.last() != '/',
    ensures
        with_declaration_extension(base + ".ts"@) == base + ".d.ts"@,
        with_declaration_extension(base + ".tsx"@) == base + ".d.ts"@,
{
    reveal_strlit(".ts");
    reveal_strlit(".tsx");
    assert(base + ".ts"@ =~= base + seq!['.'] + seq!['t', 's']);
    assert(base + ".tsx"@ =~= base + seq!['.'] + seq!['t', 's', 'x']);
    lemma_extension_is_replaced(base, seq!['t', 's']);
    lemma_extension_is_replaced(base, seq!['t', 's', 'x']);
}

/// The declaration file of a module whose id ends in `.ts` or `.tsx` behind a name, and
/// holds no `\\`, is that name with the single suffix `.d.ts`, on every platform.
pub proof fn lemma_declaration_file_of_typescript_module(base: Seq<char>, file_name: Seq<char>)
    requires
        base.len() > 0,
        base.last() != '/',
        forall|i: int| 0 <= i < base.len() ==> base[i] != '\\',
        slashed(with_declaration_extension(base + ".ts"@), file_name) || slashed(
            with_declaration_extension(base + ".tsx"@),
            file_name,
        ),
    ensures
        file_name == base + ".d.ts"@,
{
    reveal_strlit(".d.ts");
    lemma_typescript_extensions_map_to_one_suffix(base);
    lemma_slashed_without_backslash(base + ".d.ts"@, file_name);
}

/// Whatever extension a module's id has, the file name of its artifact ends in `.d.ts`,
/// provided that the id has a file name at all.
pub proof fn lemma_artifact_has_declaration_extension(stable_id: Seq<char>, file_name: Seq<char>)
    requires
        ({
            let end = trimmed_len(stable_id);
            let start = name_start(stable_id, end);
            0 <= start <= end <= stable_id.len() && is_file_name(stable_id, start, end)
        }),
        slashed(with_declaration_extension(stable_id), file_name),
    ensures
        crate::text::ends_with(with_declaration_extension(stable_id), ".d.ts"@),
        crate::text::ends_with(file_name, ".d.ts"@),
{
    reveal_strlit(".d.ts");
    let path = with_declaration_extension(stable_id);
    let n = path.len() as int;
    assert(path.subrange(n - 5, n) =~= ".d.ts"@);
    assert(file_name.subrange(n - 5, n) =~= ".d.ts"@) by {
        assert forall|k: int| n - 5 <= k < n implies file_name[k] == path[k] by {
            assert(path[k] == ".d.ts"@[k - (n - 5)]);
        }
    }
}

} // verus!
