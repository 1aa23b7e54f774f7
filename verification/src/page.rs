//! Composing the bundled page: the markup file with its script file spliced
//! in at the placeholder line, and the loader decision over the two files.

use vstd::prelude::*;
use vstd::string::StringSliceAdditionalSpecFns;
use vstd::utf8::is_ascii_chars;
use crate::splice::{replaced, replace_bytes, push_all, occurs, occurs_at};
use crate::splice::{lemma_replaced_absent, lemma_replaced_single};

verus! {

/// The placeholder line the bundled markup holds for its script.
pub open spec fn placeholder() -> Seq<u8> {
    ("<script src=\"/index.js\" type=\"module\"></script>").spec_bytes()
}

/// The opening tag the script text is wrapped in.
pub open spec fn script_open() -> Seq<u8> {
    ("<script type=\"module\">").spec_bytes()
}

/// The closing tag the script text is wrapped in.
pub open spec fn script_close() -> Seq<u8> {
    ("</script>").spec_bytes()
}

/// The script text wrapped in an inline script tag.
pub open spec fn inline_script(script: Seq<u8>) -> Seq<u8> {
    script_open() + script + script_close()
}

/// The composed page: the markup with every occurrence of the placeholder
/// replaced by the inlined script.
pub open spec fn composed_page(markup: Seq<u8>, script: Seq<u8>) -> Seq<u8> {
    replaced(markup, placeholder(), inline_script(script))
}

/// The bytes of a string slice.
pub(crate) fn bytes_of(s: &str) -> (v: Vec<u8>)
    ensures
        v@ == s.spec_bytes(),
{
    vstd::slice::slice_to_vec(s.as_bytes())
}

/// The placeholder bytes as a vector.
pub fn placeholder_bytes() -> (v: Vec<u8>)
    ensures
        v@ == placeholder(),
{
    bytes_of("<script src=\"/index.js\" type=\"module\"></script>")
}

/// Splices the script into the markup at the placeholder.
pub fn compose_page(markup: &Vec<u8>, script: &Vec<u8>) -> (page: Vec<u8>)
    ensures
        page@ == composed_page(markup@, script@),
{
    let ph = placeholder_bytes();
    let mut repl = bytes_of("<script type=\"module\">");
    push_all(&mut repl, script);
    let close = bytes_of("</script>");
    push_all(&mut repl, &close);
    assert(repl@ =~= inline_script(script@));
    replace_bytes(markup, &ph, &repl)
}

/// Why the bundled content could not be loaded.
#[derive(Clone, Copy, Debug, PartialEq, Eq, Structural)]
pub enum LoadError {
    /// The markup file was absent or unreadable.
    MissingMarkup,
    /// The script file was absent or unreadable.
    MissingScript,
    /// The program folder could not be determined from the program path.
    NoParentFolder,
}

/// The loader decision: the composed page when both files were read,
/// otherwise the error naming the first file that was not.
pub open spec fn loaded_page(markup: Option<Seq<u8>>, script: Option<Seq<u8>>) -> Result<
    Seq<u8>,
    LoadError,
> {
    match markup {
        None => Err(LoadError::MissingMarkup),
        Some(m) => match script {
            None => Err(LoadError::MissingScript),
            Some(s) => Ok(composed_page(m, s)),
        },
    }
}

/// The loader result agrees with its model.
pub open spec fn page_result_matches(r: Result<Vec<u8>, LoadError>, m: Result<
    Seq<u8>,
    LoadError,
>) -> bool {
    match (r, m) {
        (Ok(p), Ok(pm)) => p@ == pm,
        (Err(e), Err(em)) => e == em,
        _ => false,
    }
}

/// Composes the page from the two content files, each given as the bytes
/// that were read, or `None` where reading failed. Fails exactly when a
/// file is missing, and succeeds with the composed page otherwise.
pub fn compose_from_files(markup: &Option<Vec<u8>>, script: &Option<Vec<u8>>) -> (r: Result<
    Vec<u8>,
    LoadError,
>)
    ensures
        page_result_matches(r, loaded_page(markup.deep_view(), script.deep_view())),
{
    let r: Result<Vec<u8>, LoadError> = match markup {
        None => Err(LoadError::MissingMarkup),
        Some(m) => match script {
            None => Err(LoadError::MissingScript),
            Some(s) => Ok(compose_page(m, s)),
        },
    };
    proof {
        if markup is Some && script is Some {
            assert(markup->0.deep_view() =~= markup->0@);
            assert(script->0.deep_view() =~= script->0@);
        }
    }
    r
}

/// The placeholder is never empty.
pub proof fn lemma_placeholder_nonempty()
    ensures
        placeholder().len() > 0,
{
    reveal_strlit("<script src=\"/index.js\" type=\"module\"></script>");
    let s = ("<script src=\"/index.js\" type=\"module\"></script>")@;
    assert(is_ascii_chars(s));
    vstd::utf8::is_ascii_chars_encode_utf8(s);
}

/// Markup holding the placeholder exactly once composes to the page with
/// just that occurrence replaced by the inlined script; the bytes before
/// and after it are kept byte-identical.
pub proof fn lemma_compose_single_placeholder(markup: Seq<u8>, script: Seq<u8>, i: int)
    requires
        occurs_at(markup, placeholder(), i),
        forall|j: int| occurs_at(markup, placeholder(), j) ==> j == i,
    ensures
        composed_page(markup, script) == markup.subrange(0, i) + inline_script(script)
            + markup.subrange(i + placeholder().len() as int, markup.len() as int),
{
    lemma_placeholder_nonempty();
    lemma_replaced_single(markup, placeholder(), inline_script(script), i);
}

/// Markup without the placeholder composes to itself, byte-identical.
pub proof fn lemma_compose_without_placeholder(markup: Seq<u8>, script: Seq<u8>)
    requires
        !occurs(markup, placeholder()),
    ensures
        composed_page(markup, script) == markup,
{
    lemma_replaced_absent(markup, placeholder(), inline_script(script));
}

/// A loader handed a missing file fails, whichever file it is: no page is
/// composed, so no webview is built from one.
pub proof fn lemma_missing_file_fails(markup: Option<Seq<u8>>, script: Option<Seq<u8>>)
    requires
        markup is None || script is None,
    ensures
        loaded_page(markup, script) is Err,
{
}

} // verus!
