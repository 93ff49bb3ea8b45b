use vstd::prelude::*;
use vstd::utf8::{decode_utf8, encode_utf8, valid_utf8};

use crate::text::{chars_of, decode_utf8_bytes, join2, owned, push_char, string_from_chars, utf8_error_text};

verus! {

/// Project file storage on the server's own disk, rooted at a directory.
#[derive(Debug, Clone)]
pub struct LocalFsStore {
    pub root: String,
}

impl LocalFsStore {
    /// A store rooted at `root`.
    pub fn at(root: String) -> (s: LocalFsStore)
        ensures
            s.root == root,
    {
        LocalFsStore { root }
    }

    /// Where the object `key` lives: `key` under the root, as `Path::join` puts it (an absolute
    /// key stands on its own; a separator is added when the root lacks one at its end).
    pub fn object_path(&self, key: &str) -> (p: String)
        ensures
            p@ == joined_path(self.root@, key@),
    {
        let k = chars_of(key);
        if k.len() > 0 && k[0] == '/' {
            return owned(key);
        }
        let r = chars_of(self.root.as_str());
        if r.len() == 0 {
            return owned(key);
        }
        if r[r.len() - 1] == '/' {
            join2(self.root.as_str(), key)
        } else {
            let mut base = owned(self.root.as_str());
            push_char(&mut base, '/');
            join2(base.as_str(), key)
        }
    }
}

/// `key` joined onto `root` the way `Path::join` does it on Unix.
pub open spec fn joined_path(root: Seq<char>, key: Seq<char>) -> Seq<char> {
    if key.len() > 0 && key[0] == '/' {
        key
    } else if root.len() == 0 {
        key
    } else if root.last() == '/' {
        root + key
    } else {
        root + seq!['/'] + key
    }
}

/// Why a filesystem operation of the store failed.
#[derive(Debug, Clone, PartialEq, Eq)]
pub enum LocalFsError {
    /// The operating system refused; the text is its error.
    Io(String),
    /// A stored file was not UTF-8 text; the text is the decoding error.
    Utf8(String),
}

/// How a filesystem call failed: whether the thing was simply not there, and the error's text.
#[derive(Debug, Clone, PartialEq, Eq)]
pub struct FsFailure {
    pub not_found: bool,
    pub message: String,
}

/// The bytes written for a file's content: its UTF-8 encoding.
pub fn content_bytes(content: &str) -> (b: Vec<u8>)
    ensures
        b@ == encode_utf8(content@),
{
    let bytes = content.as_bytes();
    let mut out: Vec<u8> = Vec::new();
    let mut i: usize = 0;
    while i < bytes.len()
        invariant
            bytes@ == encode_utf8(content@),
            i <= bytes@.len(),
            out@ == bytes@.take(i as int),
        decreases bytes.len() - i,
    {
        out.push(bytes[i]);
        assert(bytes@.take(i + 1) =~= bytes@.take(i as int).push(bytes@[i as int]));
        i = i + 1;
    }
    assert(bytes@.take(bytes@.len() as int) =~= bytes@);
    out
}

/// What reading an object gives: its text; nothing when the file does not exist (not an
/// error); a decoding error when the file is not UTF-8; otherwise the operating system's error.
pub open spec fn read_result(read: Result<Seq<u8>, (bool, Seq<char>)>) -> Result<Option<Seq<char>>, (bool, Seq<char>)> {
    match read {
        Ok(bytes) => if valid_utf8(bytes) {
            Ok(Some(decode_utf8(bytes)))
        } else {
            Err((false, utf8_error_text(bytes)))
        },
        Err((not_found, message)) => if not_found {
            Ok(None)
        } else {
            Err((true, message))
        },
    }
}

/// The plain value of a read's outcome: the text, or (whether it is an I/O error, its text).
pub open spec fn read_view(r: Result<Option<String>, LocalFsError>) -> Result<Option<Seq<char>>, (bool, Seq<char>)> {
    match r {
        Ok(o) => Ok(o.deep_view()),
        Err(LocalFsError::Io(m)) => Err((true, m@)),
        Err(LocalFsError::Utf8(m)) => Err((false, m@)),
    }
}

/// Turns what reading a file gave into the object read's outcome.
pub fn read_outcome(read: Result<Vec<u8>, FsFailure>) -> (r: Result<Option<String>, LocalFsError>)
    ensures
        read_view(r) == read_result(
            match read {
                Ok(b) => Ok(b@),
                Err(f) => Err((f.not_found, f.message@)),
            },
        ),
{
    match read {
        Ok(bytes) => match decode_utf8_bytes(bytes) {
            Ok(s) => Ok(Some(s)),
            Err(m) => Err(LocalFsError::Utf8(m)),
        },
        Err(f) => if f.not_found {
            Ok(None)
        } else {
            Err(LocalFsError::Io(f.message))
        },
    }
}

/// Turns what removing a file (or a directory of files) gave into the deletion's outcome: a
/// thing already gone counts as deleted.
pub fn delete_outcome(removed: Result<(), FsFailure>) -> (r: Result<(), LocalFsError>)
    ensures
        match removed {
            Ok(()) => r is Ok,
            Err(f) => if f.not_found {
                r is Ok
            } else {
                r == Err::<(), LocalFsError>(LocalFsError::Io(f.message))
            },
        },
{
    match removed {
        Ok(()) => Ok(()),
        Err(f) => if f.not_found {
            Ok(())
        } else {
            Err(LocalFsError::Io(f.message))
        },
    }
}

/// Reading back a file that was written with some content gives that content.
pub proof fn lemma_read_gives_back_written(content: Seq<char>)
    ensures
        read_result(Ok(encode_utf8(content))) == Ok::<Option<Seq<char>>, (bool, Seq<char>)>(Some(content)),
{
    vstd::utf8::encode_utf8_valid_utf8(content);
    vstd::utf8::encode_utf8_decode_utf8(content);
}

/// Reading a file that is not there gives nothing, and no error.
pub proof fn lemma_missing_file_reads_as_none(message: Seq<char>)
    ensures
        read_result(Err((true, message))) == Ok::<Option<Seq<char>>, (bool, Seq<char>)>(None),
{
}

/// An upload URL the browser can PUT an object to, and the URL the object is then served at.
#[derive(Debug, Clone)]
pub struct PresignedUpload {
    pub upload_url: String,
    pub public_url: String,
}

/// `s` without the `c` characters at its end.
pub open spec fn without_trailing(s: Seq<char>, c: char) -> Seq<char>
    decreases s.len(),
{
    if s.len() > 0 && s.last() == c {
        without_trailing(s.drop_last(), c)
    } else {
        s
    }
}

/// Where an uploaded object is served: the public base URL without its trailing slashes, a
/// slash, then the object's key.
pub fn public_url(base: &str, key: &str) -> (u: String)
    ensures
        u@ == without_trailing(base@, '/') + seq!['/'] + key@,
{
    let cs = chars_of(base);
    let mut n: usize = cs.len();
    assert(cs@.take(n as int) =~= base@);
    while n > 0 && cs[n - 1] == '/'
        invariant
            cs@ == base@,
            n <= cs.len(),
            without_trailing(base@, '/') == without_trailing(cs@.take(n as int), '/'),
        decreases n,
    {
        assert(cs@.take(n as int).drop_last() =~= cs@.take(n - 1));
        n = n - 1;
    }
    let mut kept: Vec<char> = Vec::new();
    let mut i: usize = 0;
    while i < n
        invariant
            n <= cs.len(),
            i <= n,
            kept@ == cs@.take(i as int),
        decreases n - i,
    {
        kept.push(cs[i]);
        assert(cs@.take(i + 1) =~= cs@.take(i as int).push(cs@[i as int]));
        i = i + 1;
    }
    let mut u = string_from_chars(&kept);
    push_char(&mut u, '/');
    join2(u.as_str(), key)
}

} // verus!
