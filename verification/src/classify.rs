use vstd::prelude::*;
use vstd::string::*;

use crate::names::ends_with;

verus! {

/// The type that sniffing reports for every RIFF container.
pub open spec fn riff_type() -> Seq<char> {
    "application/x-riff"@
}

/// The type of WebP images, which are RIFF containers.
pub open spec fn webp_type() -> Seq<char> {
    "image/webp"@
}

/// Whether `name` ends in `.webp`.
pub open spec fn has_webp_extension(name: Seq<char>) -> bool {
    ".webp"@.is_suffix_of(name)
}

/// The content type recorded for bytes that were sniffed as `sniffed` and
/// uploaded under `declared_name`: the sniffed type, except that a RIFF
/// container declared as `.webp` is a WebP image.
pub open spec fn corrected_type(sniffed: Seq<char>, declared_name: Seq<char>) -> Seq<char> {
    if sniffed == riff_type() && has_webp_extension(declared_name) {
        webp_type()
    } else {
        sniffed
    }
}

/// Whatever was sniffed, a name that ends in `.webp` never leaves the generic
/// RIFF type standing.
pub proof fn lemma_webp_is_never_riff(sniffed: Seq<char>, declared_name: Seq<char>)
    requires
        has_webp_extension(declared_name),
    ensures
        corrected_type(sniffed, declared_name) != riff_type(),
        sniffed == riff_type() ==> corrected_type(sniffed, declared_name) == webp_type(),
{
    reveal_strlit("application/x-riff");
    reveal_strlit("image/webp");
    assert(riff_type().len() == 18);
    assert(webp_type().len() == 10);
}

/// Calls `tree_magic::from_u8`, which walks its tree of MIME types and
/// returns the most specific one whose magic numbers match the bytes. The
/// types come from the magic files of the machine where there are any, so
/// nothing is claimed of the result.
#[verifier::external_body]
fn sniff(bytes: &[u8]) -> (mime: String) {
    tree_magic::from_u8(bytes)
}

/// Applies the WebP correction to a sniffed type.
pub fn correct_sniffed(sniffed: String, declared_name: &str) -> (mime: String)
    ensures
        mime@ == corrected_type(sniffed@, declared_name@),
{
    let riff = "application/x-riff".to_owned();
    if sniffed == riff && ends_with(declared_name, ".webp") {
        "image/webp".to_owned()
    } else {
        sniffed
    }
}

/// The content type of `bytes`, sniffed from their magic numbers and
/// corrected for WebP images. The extension in `declared_name` is not
/// trusted: it only decides between the RIFF types.
pub fn classify(bytes: &[u8], declared_name: &str) -> (mime: String)
    ensures
        has_webp_extension(declared_name@) ==> mime@ != riff_type(),
{
    let sniffed = sniff(bytes);
    proof {
        if has_webp_extension(declared_name@) {
            lemma_webp_is_never_riff(sniffed@, declared_name@);
        }
    }
    correct_sniffed(sniffed, declared_name)
}

} // verus!
