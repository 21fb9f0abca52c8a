//! The type sniffer: a best-effort media type for a stored file, from the signature in its
//! first bytes and, where that says nothing, from the extension in its path.

use vstd::prelude::*;
use vstd::slice::slice_subrange;

verus! {

/// How many leading bytes of a file the signature check looks at.
pub const SNIFF_LIMIT: usize = 8192;

/// The media type that `infer::get` reads from the signature at the start of `head`, if it
/// knows one.
pub uninterp spec fn sniffed_mime(head: Seq<u8>) -> Option<Seq<char>>;

/// The first media type that `mime_guess::from_path` lists for the extension of `path`, if it
/// lists any.
pub uninterp spec fn guessed_mime(path: Seq<char>) -> Option<Seq<char>>;

/// Calls `infer::get` and takes the media type of the match. The answer depends on the bytes
/// alone: the signatures are a table compiled into that crate.
#[verifier::external_body]
fn sniff(head: &[u8]) -> (found: Option<&'static str>)
    ensures
        match found {
            Some(mime) => sniffed_mime(head@) == Some(mime@),
            None => sniffed_mime(head@) is None,
        },
{
    match infer::get(head) {
        Some(kind) => Some(kind.mime_type()),
        None => None,
    }
}

/// Calls `mime_guess::from_path` and takes the first raw media type of the guess. No file is
/// opened: the answer depends on the text of the path alone.
#[verifier::external_body]
fn guess(path: &str) -> (found: Option<&'static str>)
    ensures
        match found {
            Some(mime) => guessed_mime(path@) == Some(mime@),
            None => guessed_mime(path@) is None,
        },
{
    mime_guess::from_path(path).first_raw()
}

/// The part of a file that the signature check sees: its first `SNIFF_LIMIT` bytes, or all
/// of it where it is shorter.
pub open spec fn sniff_window(content: Seq<u8>) -> Seq<u8> {
    if content.len() <= SNIFF_LIMIT {
        content
    } else {
        content.take(SNIFF_LIMIT as int)
    }
}

/// The rule of the sniffer: the signature wins, the extension is the fallback, and a file
/// that neither knows is an opaque byte stream.
pub open spec fn chosen_mime(sniffed: Option<Seq<char>>, guessed: Option<Seq<char>>) -> Seq<
    char,
> {
    match sniffed {
        Some(mime) => mime,
        None => match guessed {
            Some(mime) => mime,
            None => "application/octet-stream"@,
        },
    }
}

/// The media type of a file whose first bytes are `head` and which is stored at `path`.
pub open spec fn file_mime(head: Seq<u8>, path: Seq<char>) -> Seq<char> {
    chosen_mime(sniffed_mime(sniff_window(head)), guessed_mime(path))
}

/// How many bytes to read from the start of a file of `file_size` bytes before asking for
/// its type.
pub fn sniff_len(file_size: u64) -> (len: usize)
    ensures
        len == if file_size <= SNIFF_LIMIT {
            file_size as int
        } else {
            SNIFF_LIMIT as int
        },
{
    if file_size <= SNIFF_LIMIT as u64 {
        file_size as usize
    } else {
        SNIFF_LIMIT
    }
}

/// Settles the media type from what the two checks found.
pub fn choose_mime(sniffed: Option<&'static str>, guessed: Option<&'static str>) -> (mime:
    &'static str)
    ensures
        mime@ == chosen_mime(
            match sniffed {
                Some(s) => Some(s@),
                None => None,
            },
            match guessed {
                Some(g) => Some(g@),
                None => None,
            },
        ),
{
    match sniffed {
        Some(mime) => mime,
        None => match guessed {
            Some(mime) => mime,
            None => "application/octet-stream",
        },
    }
}

/// The media type of a file, given the bytes at its start and the path it is stored at.
/// Bytes past `SNIFF_LIMIT` are not looked at. An unknown type is no failure: the answer is
/// then `application/octet-stream`.
pub fn compute_file_mime(head: &[u8], path: &str) -> (mime: &'static str)
    ensures
        mime@ == file_mime(head@, path@),
{
    let window = if head.len() <= SNIFF_LIMIT {
        head
    } else {
        slice_subrange(head, 0, SNIFF_LIMIT)
    };
    let sniffed = sniff(window);
    let guessed = match sniffed {
        Some(_) => None,
        None => guess(path),
    };
    choose_mime(sniffed, guessed)
}

} // verus!
