use vstd::prelude::*;
use vstd::string::StringExecFns;
use vstd::utf8::encode_utf8;

use crate::codec::{base64_encode, base64_of};
use crate::state::FileDetails;

verus! {

/// Opening of the fixed output document: the 500 x 500 display-unit root and
/// the group scaling its content by 10 in both axes, exactly as the document
/// serializer writes them.
pub open spec fn document_prefix() -> Seq<char> {
    "<svg height=\"500px\" width=\"500px\" xmlns=\"http://www.w3.org/2000/svg\">\n<g transform=\"scale(10 10)\">\n"@
}

/// Closing of the fixed output document.
pub open spec fn document_suffix() -> Seq<char> {
    "\n</g>\n</svg>"@
}

/// The full output document around a serialized shape tree.
pub open spec fn document_markup(fragment: Seq<char>) -> Seq<char> {
    document_prefix() + fragment + document_suffix()
}

/// Wrap the generator's serialized shape tree in the fixed root document: a
/// 500 x 500 display-unit canvas holding one group that scales its content by
/// 10 in both axes, whatever the source image's native resolution was.
pub fn assemble_document(fragment: &str) -> (doc: String)
    ensures
        doc@ == document_markup(fragment@),
{
    let mut doc =
        "<svg height=\"500px\" width=\"500px\" xmlns=\"http://www.w3.org/2000/svg\">\n<g transform=\"scale(10 10)\">\n".to_owned();
    doc.append(fragment);
    doc.append("\n</g>\n</svg>");
    proof {
        assert(doc@ =~= document_markup(fragment@));
    }
    doc
}

/// The media element the preview list embeds for one ingested file.
pub enum PreviewMedia {
    /// An image preview, embedded under the given data URI.
    Image(String),
    /// A video preview, embedded under the given data URI.
    Video(String),
    /// Neither an image nor a video mime type: an empty media slot.
    Empty,
}

/// A byte-level substring test.
pub open spec fn bytes_contain(hay: Seq<u8>, needle: Seq<u8>) -> bool {
    exists|i: int|
        0 <= i && i + needle.len() <= hay.len() && #[trigger] hay.subrange(i, i + needle.len())
            == needle
}

/// Whether a mime type mentions a word, compared over the UTF-8 bytes of both.
pub open spec fn mime_mentions(file_type: Seq<char>, word: Seq<char>) -> bool {
    bytes_contain(encode_utf8(file_type), encode_utf8(word))
}

/// The data URI embedding a file's bytes under its mime type.
pub open spec fn data_uri(file_type: Seq<char>, data: Seq<u8>) -> Seq<char> {
    "data:"@ + file_type + ";base64,"@ + base64_of(data)
}

/// Whether the needle stands in the hay starting exactly at `at`.
fn matches_at(hay: &[u8], needle: &[u8], at: usize) -> (r: bool)
    requires
        at + needle@.len() <= hay@.len(),
    ensures
        r == (hay@.subrange(at as int, at as int + needle@.len() as int) == needle@),
{
    let ghost sub = hay@.subrange(at as int, at as int + needle@.len() as int);
    let hay_len = hay.len();
    let mut j: usize = 0;
    while j < needle.len()
        invariant
            hay_len == hay@.len(),
            at + needle@.len() <= hay_len,
            j <= needle@.len(),
            sub == hay@.subrange(at as int, at as int + needle@.len() as int),
            forall|k: int| 0 <= k < j ==> hay@[at + k] == needle@[k],
        decreases needle@.len() - j,
    {
        if hay[at + j] != needle[j] {
            proof {
                assert(sub[j as int] == hay@[at + j]);
                assert(sub != needle@);
            }
            return false;
        }
        j += 1;
    }
    proof {
        assert(sub =~= needle@);
    }
    true
}

/// Whether the needle stands anywhere in the hay.
fn contains_bytes(hay: &[u8], needle: &[u8]) -> (r: bool)
    ensures
        r == bytes_contain(hay@, needle@),
{
    if needle.len() > hay.len() {
        return false;
    }
    if needle.len() == 0 {
        proof {
            assert(bytes_contain(hay@, needle@)) by {
                assert(hay@.subrange(0, 0 + needle@.len() as int) =~= needle@);
            }
        }
        return true;
    }
    let hay_len = hay.len();
    let last = hay_len - needle.len();
    let mut i: usize = 0;
    while i <= last
        invariant
            hay_len == hay@.len(),
            1 <= needle@.len() <= hay@.len(),
            last == hay@.len() - needle@.len(),
            i <= last + 1,
            forall|s: int|
                0 <= s < i ==> #[trigger] hay@.subrange(s, s + needle@.len() as int) != needle@,
        decreases last + 1 - i,
    {
        if matches_at(hay, needle, i) {
            proof {
                assert(0 <= i as int && i as int + needle@.len() <= hay@.len() && hay@.subrange(
                    i as int,
                    i as int + needle@.len() as int,
                ) == needle@);
            }
            return true;
        }
        i += 1;
    }
    false
}

/// The data URI embedding this file's bytes under its mime type.
fn make_data_uri(file: &FileDetails) -> (r: String)
    ensures
        r@ == data_uri(file@.file_type, file@.data),
{
    let payload = base64_encode(&file.data);
    let mut uri = "data:".to_owned();
    uri.append(file.file_type.as_str());
    uri.append(";base64,");
    uri.append(payload.as_str());
    proof {
        assert(uri@ =~= data_uri(file@.file_type, file@.data));
    }
    uri
}

/// The preview list's media decision for one ingested file: an image embedded
/// under a data URI when the mime type mentions "image", a video embedded the
/// same way when it mentions "video", and an empty media slot otherwise.
pub fn preview_media(file: &FileDetails) -> (r: PreviewMedia)
    ensures
        (mime_mentions(file@.file_type, "image"@) ==> (r matches PreviewMedia::Image(u) && u@
            == data_uri(file@.file_type, file@.data))),
        (!mime_mentions(file@.file_type, "image"@) && mime_mentions(file@.file_type, "video"@)
            ==> (r matches PreviewMedia::Video(u) && u@ == data_uri(file@.file_type, file@.data))),
        (!mime_mentions(file@.file_type, "image"@) && !mime_mentions(file@.file_type, "video"@)
            ==> r == PreviewMedia::Empty),
{
    if contains_bytes(file.file_type.as_str().as_bytes(), "image".as_bytes()) {
        PreviewMedia::Image(make_data_uri(file))
    } else if contains_bytes(file.file_type.as_str().as_bytes(), "video".as_bytes()) {
        PreviewMedia::Video(make_data_uri(file))
    } else {
        PreviewMedia::Empty
    }
}

} // verus!
