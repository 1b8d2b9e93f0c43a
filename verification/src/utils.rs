//! File-name and source-text helpers.

pub use crate::json::{json_to_esm, THRESHOLD_SIZE};
use crate::text::{bytes_match_at, chars_of, ends_with, has_suffix, last_occurrence, occurs_at};
use vstd::prelude::*;
use vstd::string::StrSliceExecFns;
use vstd::string::StringExecFns;
use vstd::string::StringSliceAdditionalSpecFns;

verus! {

/// `code` without a byte-order mark at its start.
pub open spec fn without_bom(code: Seq<char>) -> Seq<char> {
    if code.len() > 0 && code[0] == '\u{FEFF}' {
        code.subrange(1, code.len() as int)
    } else {
        code
    }
}

/// A path with the extension of a TypeScript source or declaration file.
pub open spec fn typescript_file(path: Seq<char>) -> bool {
    ends_with(path, ".ts"@) || ends_with(path, ".tsx"@) || ends_with(path, ".d.ts"@)
}

/// A path with the extension of a declaration file.
pub open spec fn declaration_file(path: Seq<char>) -> bool {
    ends_with(path, ".d.ts"@)
}

/// `path` without its last `count` characters.
pub open spec fn without_tail(path: Seq<char>, count: int) -> Seq<char> {
    path.take(path.len() - count)
}

/// The declaration path that belongs to `path`: the extension `.ts` or `.tsx` at the end
/// of the path gives way to `.d.ts` and the rest of the path stays; a path with another
/// ending gets `.d.ts` appended.
pub open spec fn declaration_path(path: Seq<char>) -> Seq<char> {
    if ends_with(path, ".ts"@) {
        without_tail(path, ".ts"@.len() as int) + ".d.ts"@
    } else if ends_with(path, ".tsx"@) {
        without_tail(path, ".tsx"@.len() as int) + ".d.ts"@
    } else {
        path + ".d.ts"@
    }
}

/// The byte `?`.
pub const QUESTION_MARK: u8 = 0x3f;

/// The byte `&`.
pub const AMPERSAND: u8 = 0x26;

/// The byte `_`.
pub const UNDERSCORE: u8 = 0x5f;

/// The byte `0`.
pub const DIGIT_0: u8 = 0x30;

/// The byte `9`.
pub const DIGIT_9: u8 = 0x39;

/// The byte `A`.
pub const UPPER_A: u8 = 0x41;

/// The byte `Z`.
pub const UPPER_Z: u8 = 0x5a;

/// The byte `a`.
pub const LOWER_A: u8 = 0x61;

/// The byte `z`.
pub const LOWER_Z: u8 = 0x7a;

/// A byte that can stand inside a word: an ASCII letter, an ASCII digit or `_`.
pub open spec fn word_byte(b: u8) -> bool {
    (DIGIT_0 <= b && b <= DIGIT_9) || (LOWER_A <= b && b <= LOWER_Z) || (UPPER_A <= b && b <= UPPER_Z)
        || b == UNDERSCORE
}

/// `keyword` stands in `bytes` at position `at` and a word ends behind it: the text ends
/// there or goes on with a byte that is no word byte.
pub open spec fn keyword_at(bytes: Seq<u8>, keyword: Seq<u8>, at: int) -> bool {
    occurs_at(bytes, keyword, at) && (at + keyword.len() == bytes.len() || !word_byte(
        bytes[at + keyword.len()],
    ))
}

/// At position `at` of `bytes` stands `?` or `&` and, right behind it, one of the words
/// `worker`, `sharedworker`, `raw` and `url`.
pub open spec fn special_query_at(bytes: Seq<u8>, at: int) -> bool {
    &&& 0 <= at < bytes.len()
    &&& (bytes[at] == QUESTION_MARK || bytes[at] == AMPERSAND)
    &&& (keyword_at(bytes, "raw".spec_bytes(), at + 1) || keyword_at(
        bytes,
        "url".spec_bytes(),
        at + 1,
    ) || keyword_at(bytes, "worker".spec_bytes(), at + 1) || keyword_at(
        bytes,
        "sharedworker".spec_bytes(),
        at + 1,
    ))
}

/// The bytes hold a query parameter that asks for a worker, a raw text or a URL.
pub open spec fn special_query(bytes: Seq<u8>) -> bool {
    exists|at: int| special_query_at(bytes, at)
}

/// The bytes name a JSON file: they end in `.json`, or they hold `.json?` and what
/// follows the last `.json?` is neither `commonjs-proxy` nor `commonjs-external`.
pub open spec fn json_ext(bytes: Seq<u8>) -> bool {
    ends_with(bytes, ".json".spec_bytes()) || exists|at: int|
        last_occurrence(bytes, ".json?".spec_bytes(), at) && json_query_kept(bytes, at)
}

/// What follows the `.json?` at position `at` is neither `commonjs-proxy` nor
/// `commonjs-external`.
pub open spec fn json_query_kept(bytes: Seq<u8>, at: int) -> bool {
    let postfix = bytes.subrange(at + ".json?".spec_bytes().len(), bytes.len() as int);
    postfix != "commonjs-proxy".spec_bytes() && postfix != "commonjs-external".spec_bytes()
}

/// Calls `memchr::memmem::rfind`, which returns the index of the last occurrence of
/// `needle` in `haystack`, and `None` where there is none.
#[verifier::external_body]
fn rfind(haystack: &[u8], needle: &[u8]) -> (r: Option<usize>)
    ensures
        r matches Some(at) ==> last_occurrence(haystack@, needle@, at as int),
        r is None ==> forall|at: int| !occurs_at(haystack@, needle@, at),
{
    memchr::memmem::rfind(haystack, needle)
}

/// Calls `memchr::memrchr2_iter`, which walks over all occurrences of the two needles in
/// `haystack` from the back, and collects the indices it yields: every index of a byte
/// equal to one of the needles, and no other, from the highest down.
#[verifier::external_body]
fn memrchr2_positions(needle1: u8, needle2: u8, haystack: &[u8]) -> (r: Vec<usize>)
    ensures
        forall|k: int|
            0 <= k < r@.len() ==> #[trigger] r@[k] < haystack@.len() && (haystack@[r@[k] as int]
                == needle1 || haystack@[r@[k] as int] == needle2),
        forall|k: int, l: int| 0 <= k < l < r@.len() ==> r@[k] > r@[l],
        forall|at: int|
            0 <= at < haystack@.len() && (#[trigger] haystack@[at] == needle1 || haystack@[at]
                == needle2) ==> r@.contains(at as usize),
{
    memchr::memrchr2_iter(needle1, needle2, haystack).collect()
}

/// Whether the byte can stand inside a word.
fn is_word_byte(b: u8) -> (r: bool)
    ensures
        r == word_byte(b),
{
    (DIGIT_0 <= b && b <= DIGIT_9) || (LOWER_A <= b && b <= LOWER_Z) || (UPPER_A <= b && b <= UPPER_Z)
        || b == UNDERSCORE
}

/// Whether `keyword` stands at `at` with the end of a word behind it.
fn has_keyword_at(bytes: &[u8], keyword: &str, at: usize) -> (r: bool)
    ensures
        r == keyword_at(bytes@, keyword.spec_bytes(), at as int),
{
    let word = keyword.as_bytes();
    let n = bytes.len();
    if !bytes_match_at(bytes, word, at) {
        return false;
    }
    let end = at + word.len();
    end == n || !is_word_byte(bytes[end])
}

/// Whether `ext` names a JSON file, with or without a query behind it. The queries
/// `commonjs-proxy` and `commonjs-external` do not count.
pub fn is_json_ext(ext: &str) -> (r: bool)
    ensures
        r == json_ext(ext.spec_bytes()),
{
    let bytes = ext.as_bytes();
    let n = bytes.len();
    let suffix = ".json".as_bytes();
    if suffix.len() <= n && bytes_match_at(bytes, suffix, n - suffix.len()) {
        return true;
    }
    assert(!ends_with(bytes@, suffix@));
    let needle = ".json?".as_bytes();
    match rfind(bytes, needle) {
        None => {
            assert forall|at: int| !last_occurrence(bytes@, needle@, at) by {
                assert(!occurs_at(bytes@, needle@, at));
            }
            false
        },
        Some(at) => {
            let start = at + needle.len();
            let kept = !postfix_is(bytes, start, "commonjs-proxy") && !postfix_is(
                bytes,
                start,
                "commonjs-external",
            );
            proof {
                assert(kept == json_query_kept(bytes@, at as int));
                assert forall|other: int|
                    last_occurrence(bytes@, needle@, other) implies other == at by {
                    if other < at {
                        assert(!occurs_at(bytes@, needle@, at as int));
                    } else if other > at {
                        assert(!occurs_at(bytes@, needle@, other));
                    }
                }
            }
            kept
        },
    }
}

/// Whether what stands in `bytes` from `start` on is exactly `word`.
fn postfix_is(bytes: &[u8], start: usize, word: &str) -> (r: bool)
    requires
        start <= bytes@.len(),
    ensures
        r == (bytes@.subrange(start as int, bytes@.len() as int) == word.spec_bytes()),
{
    let w = word.as_bytes();
    if bytes.len() - start != w.len() {
        return false;
    }
    bytes_match_at(bytes, w, start)
}

/// Whether `ext` holds one of the query parameters `worker`, `sharedworker`, `raw` and
/// `url`, written behind `?` or `&` as a whole word.
pub fn is_special_query(ext: &str) -> (r: bool)
    ensures
        r == special_query(ext.spec_bytes()),
{
    let bytes = ext.as_bytes();
    let n = bytes.len();
    let positions = memrchr2_positions(QUESTION_MARK, AMPERSAND, bytes);
    let mut k: usize = 0;
    while k < positions.len()
        invariant
            k <= positions@.len(),
            bytes@ == ext.spec_bytes(),
            n == bytes@.len(),
            forall|at: int|
                0 <= at < bytes@.len() && (#[trigger] bytes@[at] == QUESTION_MARK || bytes@[at]
                    == AMPERSAND) ==> positions@.contains(at as usize),
            forall|j: int|
                0 <= j < positions@.len() ==> #[trigger] positions@[j] < bytes@.len() && (
                bytes@[positions@[j] as int] == QUESTION_MARK || bytes@[positions@[j] as int] == AMPERSAND),
            forall|j: int| 0 <= j < k ==> !special_query_at(bytes@, #[trigger] positions@[j] as int),
        decreases positions@.len() - k,
    {
        let after = positions[k] + 1;
        if has_keyword_at(bytes, "raw", after) || has_keyword_at(bytes, "url", after)
            || has_keyword_at(bytes, "worker", after) || has_keyword_at(
            bytes,
            "sharedworker",
            after,
        ) {
            assert(special_query_at(bytes@, positions@[k as int] as int));
            return true;
        }
        k += 1;
    }
    proof {
        assert forall|at: int| !special_query_at(bytes@, at) by {
            if special_query_at(bytes@, at) {
                let found = at as usize;
                assert(bytes@[at] == QUESTION_MARK || bytes@[at] == AMPERSAND);
                assert(positions@.contains(found));
                let j = choose|j: int| 0 <= j < positions@.len() && positions@[j] == found;
                assert(!special_query_at(bytes@, positions@[j] as int));
            }
        }
    }
    false
}

/// Drops one leading byte-order mark, if there is one.
pub fn strip_bom<'a>(code: &'a str) -> (r: &'a str)
    ensures
        r@ == without_bom(code@),
{
    let n = code.unicode_len();
    if n > 0 && code.get_char(0) == '\u{FEFF}' {
        code.substring_char(1, n)
    } else {
        code
    }
}

/// Whether `path` names a TypeScript file, declaration files included.
pub fn is_typescript_file(path: &str) -> (r: bool)
    ensures
        r == typescript_file(path@),
{
    let chars = chars_of(path);
    has_suffix(&chars, &chars_of(".ts")) || has_suffix(&chars, &chars_of(".tsx")) || has_suffix(
        &chars,
        &chars_of(".d.ts"),
    )
}

/// Whether `path` names a declaration file.
pub fn is_declaration_file(path: &str) -> (r: bool)
    ensures
        r == declaration_file(path@),
{
    has_suffix(&chars_of(path), &chars_of(".d.ts"))
}

/// `path` without the last `count` of its characters, with `.d.ts` behind it.
fn swap_extension(path: &str, length: usize, count: usize) -> (r: String)
    requires
        length == path@.len(),
        count <= length,
    ensures
        r@ == without_tail(path@, count as int) + ".d.ts"@,
{
    let kept = length - count;
    assert(path@.subrange(0, kept as int) =~= without_tail(path@, count as int));
    String::from_str(path.substring_char(0, kept)).concat(".d.ts")
}

/// The path of the declaration file that belongs to `path`: only the extension at the
/// end of the path is replaced.
pub fn get_declaration_path(path: &str) -> (r: String)
    ensures
        r@ == declaration_path(path@),
{
    let chars = chars_of(path);
    let ts = chars_of(".ts");
    let tsx = chars_of(".tsx");
    if has_suffix(&chars, &ts) {
        swap_extension(path, chars.len(), ts.len())
    } else if has_suffix(&chars, &tsx) {
        swap_extension(path, chars.len(), tsx.len())
    } else {
        String::from_str(path).concat(".d.ts")
    }
}

/// A path that ends in `.ts` maps to what stands before that extension, with `.d.ts`
/// behind it, whatever stands before: the old extension does not stay, and nothing
/// else changes.
pub proof fn lemma_declaration_path_of_ts(base: Seq<char>)
    ensures
        declaration_path(base + ".ts"@) == base + ".d.ts"@,
{
    reveal_strlit(".ts");
    let s = base + ".ts"@;
    assert(s.subrange(s.len() - 3, s.len() as int) =~= ".ts"@);
    assert(without_tail(s, 3) =~= base);
}

/// A path that ends in `.tsx` maps to what stands before that extension, with `.d.ts`
/// behind it, whatever stands before.
pub proof fn lemma_declaration_path_of_tsx(base: Seq<char>)
    ensures
        declaration_path(base + ".tsx"@) == base + ".d.ts"@,
{
    reveal_strlit(".ts");
    reveal_strlit(".tsx");
    let s = base + ".tsx"@;
    assert(s.subrange(s.len() - 4, s.len() as int) =~= ".tsx"@);
    assert(!ends_with(s, ".ts"@)) by {
        assert(s.subrange(s.len() - 3, s.len() as int)[2] == 'x');
    }
    assert(without_tail(s, 4) =~= base);
}

} // verus!
