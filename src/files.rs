use vstd::prelude::*;
use vstd::string::{StrSliceExecFns, StringExecFns};
use crate::errors::{ApiError, Backend, BackendFailure};
use crate::ids::{collection_name, id_text, object_path, underscored};
use crate::text::{byte_len, lowercase, same_text, texts, to_lower};

verus! {

/// Size limit, in bytes, of the text chunks an upload is split into.
pub const CHUNK_SIZE: usize = 500;

/// A file row as the handlers read it.
#[derive(Debug)]
pub struct StoredFile {
    pub id: u128,
    pub user_id: u128,
    pub filename: String,
    pub object_path: String,
    pub file_size: i64,
    pub mime_type: Option<String>,
}

/// Where an accepted upload goes and what is recorded of it.
#[derive(Debug)]
pub struct UploadPlan {
    pub collection: String,
    pub object_path: String,
    pub file_size: i64,
    pub mime_type: String,
    pub chunks: Vec<String>,
}

/// What a delete removes besides the row: the stored object and the file's vectors.
#[derive(Debug)]
pub struct DeletePlan {
    pub file_id: u128,
    pub object_path: String,
    pub collection: String,
}

/// Where a download's bytes are read from, and the headers that go with them.
#[derive(Debug)]
pub struct DownloadPlan {
    pub object_path: String,
    pub content_type: String,
    pub disposition: String,
}

/// The part of a file name after its last dot; the whole name where it has none.
pub open spec fn last_segment(s: Seq<char>) -> Seq<char>
    decreases s.len(),
{
    if s.len() == 0 {
        s
    } else if s.last() == '.' {
        Seq::empty()
    } else {
        last_segment(s.drop_last()).push(s.last())
    }
}

/// The media type for a lower-case file extension.
pub open spec fn mime_of(ext: Seq<char>) -> Seq<char> {
    if ext == "pdf"@ {
        "application/pdf"@
    } else if ext == "txt"@ {
        "text/plain"@
    } else if ext == "md"@ {
        "text/markdown"@
    } else if ext == "json"@ {
        "application/json"@
    } else if ext == "xml"@ {
        "application/xml"@
    } else if ext == "html"@ || ext == "htm"@ {
        "text/html"@
    } else if ext == "css"@ {
        "text/css"@
    } else if ext == "js"@ {
        "application/javascript"@
    } else if ext == "png"@ {
        "image/png"@
    } else if ext == "jpg"@ || ext == "jpeg"@ {
        "image/jpeg"@
    } else if ext == "gif"@ {
        "image/gif"@
    } else if ext == "svg"@ {
        "image/svg+xml"@
    } else if ext == "webp"@ {
        "image/webp"@
    } else if ext == "mp4"@ {
        "video/mp4"@
    } else if ext == "mp3"@ {
        "audio/mpeg"@
    } else if ext == "wav"@ {
        "audio/wav"@
    } else if ext == "zip"@ {
        "application/zip"@
    } else if ext == "tar"@ {
        "application/x-tar"@
    } else if ext == "gz"@ {
        "application/gzip"@
    } else if ext == "csv"@ {
        "text/csv"@
    } else if ext == "doc"@ {
        "application/msword"@
    } else if ext == "docx"@ {
        "application/vnd.openxmlformats-officedocument.wordprocessingml.document"@
    } else if ext == "xls"@ {
        "application/vnd.ms-excel"@
    } else if ext == "xlsx"@ {
        "application/vnd.openxmlformats-officedocument.spreadsheetml.sheet"@
    } else if ext == "ppt"@ {
        "application/vnd.ms-powerpoint"@
    } else if ext == "pptx"@ {
        "application/vnd.openxmlformats-officedocument.presentationml.presentation"@
    } else {
        "application/octet-stream"@
    }
}

/// The media type for an extension already in lower case.
pub fn mime_for_extension(ext: &str) -> (r: &'static str)
    ensures
        r@ == mime_of(ext@),
{
    if same_text(ext, "pdf") {
        "application/pdf"
    } else if same_text(ext, "txt") {
        "text/plain"
    } else if same_text(ext, "md") {
        "text/markdown"
    } else if same_text(ext, "json") {
        "application/json"
    } else if same_text(ext, "xml") {
        "application/xml"
    } else if same_text(ext, "html") || same_text(ext, "htm") {
        "text/html"
    } else if same_text(ext, "css") {
        "text/css"
    } else if same_text(ext, "js") {
        "application/javascript"
    } else if same_text(ext, "png") {
        "image/png"
    } else if same_text(ext, "jpg") || same_text(ext, "jpeg") {
        "image/jpeg"
    } else if same_text(ext, "gif") {
        "image/gif"
    } else if same_text(ext, "svg") {
        "image/svg+xml"
    } else if same_text(ext, "webp") {
        "image/webp"
    } else if same_text(ext, "mp4") {
        "video/mp4"
    } else if same_text(ext, "mp3") {
        "audio/mpeg"
    } else if same_text(ext, "wav") {
        "audio/wav"
    } else if same_text(ext, "zip") {
        "application/zip"
    } else if same_text(ext, "tar") {
        "application/x-tar"
    } else if same_text(ext, "gz") {
        "application/gzip"
    } else if same_text(ext, "csv") {
        "text/csv"
    } else if same_text(ext, "doc") {
        "application/msword"
    } else if same_text(ext, "docx") {
        "application/vnd.openxmlformats-officedocument.wordprocessingml.document"
    } else if same_text(ext, "xls") {
        "application/vnd.ms-excel"
    } else if same_text(ext, "xlsx") {
        "application/vnd.openxmlformats-officedocument.spreadsheetml.sheet"
    } else if same_text(ext, "ppt") {
        "application/vnd.ms-powerpoint"
    } else if same_text(ext, "pptx") {
        "application/vnd.openxmlformats-officedocument.presentationml.presentation"
    } else {
        "application/octet-stream"
    }
}

/// The part of a file name after its last dot.
pub fn file_extension(filename: &str) -> (r: &str)
    ensures
        r@ == last_segment(filename@),
{
    let n = filename.unicode_len();
    let mut start: usize = n;
    proof {
        assert(filename@.take(n as int) =~= filename@);
        assert(last_segment(filename@) + filename@.subrange(n as int, n as int) =~= last_segment(filename@));
    }
    while start > 0 && filename.get_char(start - 1) != '.'
        invariant
            n == filename@.len(),
            start <= n,
            last_segment(filename@) == last_segment(filename@.take(start as int)) + filename@.subrange(
                start as int,
                n as int,
            ),
        decreases start,
    {
        proof {
            let s = filename@.take(start as int);
            assert(s.drop_last() =~= filename@.take(start - 1));
            assert(filename@.subrange(start - 1, n as int) =~= seq![s.last()] + filename@.subrange(
                start as int,
                n as int,
            ));
            assert(last_segment(s) == last_segment(s.drop_last()).push(s.last()));
            assert(last_segment(s.drop_last()).push(s.last()) + filename@.subrange(start as int, n as int)
                =~= last_segment(s.drop_last()) + filename@.subrange(start - 1, n as int));
        }
        start = start - 1;
    }
    proof {
        if start > 0 {
            assert(filename@.take(start as int).last() == '.');
        }
        assert(last_segment(filename@.take(start as int)) =~= Seq::<char>::empty());
        assert(last_segment(filename@) =~= filename@.subrange(start as int, n as int));
    }
    filename.substring_char(start, n)
}

/// The media type guessed from a file name's extension, in any letter case.
pub fn guess_mime_type(filename: &str) -> (r: &'static str)
    ensures
        r@ == mime_of(lowercase(last_segment(filename@))),
{
    let ext = to_lower(file_extension(filename));
    mime_for_extension(ext.as_str())
}

/// The words of a text: its maximal runs of non-whitespace characters, in order.
pub uninterp spec fn whitespace_words(s: Seq<char>) -> Seq<Seq<char>>;

/// The text that a byte sequence reads as, with each invalid UTF-8 sequence
/// replaced by U+FFFD.
pub uninterp spec fn lossy_text(bytes: Seq<u8>) -> Seq<char>;

/// Relies on std's `str::split_whitespace`.
#[verifier::external_body]
fn split_words(text: &str) -> (r: Vec<String>)
    ensures
        r@.map_values(|w: String| w@) == whitespace_words(text@),
{
    text.split_whitespace().map(|w| w.to_string()).collect()
}

/// Relies on std's `String::from_utf8_lossy`.
#[verifier::external_body]
fn utf8_lossy(data: &[u8]) -> (r: String)
    ensures
        r@ == lossy_text(data@),
{
    String::from_utf8_lossy(data).to_string()
}

/// Packing words in order: the chunks closed so far and the chunk being filled.
/// A word that would push a non-empty chunk past `size` bytes (counting the
/// joining space) closes it first; words in a chunk are joined by one space.
pub open spec fn pack_words(words: Seq<Seq<char>>, size: usize) -> (Seq<Seq<char>>, Seq<char>)
    decreases words.len(),
{
    if words.len() == 0 {
        (Seq::empty(), Seq::empty())
    } else {
        let prev = pack_words(words.drop_last(), size);
        let w = words.last();
        let full = prev.1.len() > 0 && byte_len(prev.1) + byte_len(w) + 1 > size;
        let closed = if full {
            prev.0.push(prev.1)
        } else {
            prev.0
        };
        let open = if full {
            Seq::<char>::empty()
        } else {
            prev.1
        };
        (closed, if open.len() > 0 {
            open + seq![' '] + w
        } else {
            w
        })
    }
}

/// The chunks of a word sequence: the closed ones, then the last one if non-empty.
pub open spec fn chunks_of(words: Seq<Seq<char>>, size: usize) -> Seq<Seq<char>> {
    let p = pack_words(words, size);
    if p.1.len() > 0 {
        p.0.push(p.1)
    } else {
        p.0
    }
}

/// Packs words, in order, into chunks of at most `chunk_size` bytes (a single
/// longer word makes a chunk of its own), joining the words of a chunk by one space.
pub fn chunk_words(words: &Vec<String>, chunk_size: usize) -> (r: Vec<String>)
    ensures
        texts(r@) == chunks_of(texts(words@), chunk_size),
{
    let ghost ws = texts(words@);
    let mut chunks: Vec<String> = Vec::new();
    let mut current = String::new();
    let mut i: usize = 0;
    while i < words.len()
        invariant
            ws == texts(words@),
            i <= words.len(),
            texts(chunks@) == pack_words(ws.take(i as int), chunk_size).0,
            current@ == pack_words(ws.take(i as int), chunk_size).1,
        decreases words.len() - i,
    {
        let word = words[i].as_str();
        let cur_len = current.as_str().len();
        let word_len = word.len();
        let full = !current.as_str().is_empty() && (word_len >= chunk_size || cur_len > chunk_size
            - word_len - 1);
        proof {
            assert(ws.take(i + 1).drop_last() =~= ws.take(i as int));
            assert(ws.take(i + 1).last() == word@);
        }
        if full {
            let closed = current;
            chunks.push(closed);
            current = String::new();
            proof {
                assert(texts(chunks@) =~= pack_words(ws.take(i as int), chunk_size).0.push(
                    pack_words(ws.take(i as int), chunk_size).1,
                ));
            }
        }
        if !current.as_str().is_empty() {
            current.append(" ");
            proof {
                reveal_strlit(" ");
            }
        }
        current.append(word);
        i = i + 1;
    }
    proof {
        assert(ws.take(words.len() as int) =~= ws);
    }
    if !current.as_str().is_empty() {
        chunks.push(current);
        proof {
            assert(texts(chunks@) =~= pack_words(ws, chunk_size).0.push(pack_words(ws, chunk_size).1));
        }
    }
    chunks
}

/// Splits a text into chunks of whole words, each at most `chunk_size` bytes
/// unless a single word is longer.
pub fn chunk_text(text: &str, chunk_size: usize) -> (r: Vec<String>)
    ensures
        texts(r@) == chunks_of(whitespace_words(text@), chunk_size),
{
    let words = split_words(text);
    chunk_words(&words, chunk_size)
}

/// The chunks of an upload's content, read as text.
pub fn upload_chunks(data: &[u8]) -> (r: Vec<String>)
    ensures
        texts(r@) == chunks_of(whitespace_words(lossy_text(data@)), CHUNK_SIZE),
{
    let text = utf8_lossy(data);
    chunk_text(text.as_str(), CHUNK_SIZE)
}

/// Checks an upload and plans it: where the bytes and the vectors go, what is
/// recorded of the file, and the text chunks indexed for it. A missing name or
/// empty content is refused.
pub fn upload_file(user_id: u128, filename: &str, data: &[u8]) -> (r: Result<UploadPlan, ApiError>)
    ensures
        match r {
            Ok(p) => {
                &&& filename@.len() > 0 && data@.len() > 0
                &&& p.collection@ == "user_"@ + underscored(id_text(user_id))
                &&& p.object_path@ == "user-"@ + id_text(user_id) + "/"@ + filename@
                &&& p.file_size == data@.len() as i64
                &&& p.mime_type@ == mime_of(lowercase(last_segment(filename@)))
                &&& texts(p.chunks@) == chunks_of(whitespace_words(lossy_text(data@)), CHUNK_SIZE)
            },
            Err(e) => (filename@.len() == 0 || data@.len() == 0) && e == ApiError::NoFileUploaded,
        },
{
    if filename.is_empty() || data.len() == 0 {
        return Err(ApiError::NoFileUploaded);
    }
    Ok(UploadPlan {
        collection: collection_name(user_id),
        object_path: object_path(user_id, filename),
        file_size: data.len() as i64,
        mime_type: String::from_str(guess_mime_type(filename)),
        chunks: upload_chunks(data),
    })
}

/// Upload, after the object-store write: a failed write ends the upload with a
/// storage error, before any row is recorded or any vector indexed.
pub fn upload_stored(stored: Result<(), BackendFailure>) -> (r: Result<(), ApiError>)
    ensures
        r == match stored {
            Err(_) => Err(ApiError::Downstream(Backend::Storage)),
            Ok(()) => Ok::<(), ApiError>(()),
        },
{
    match stored {
        Err(_) => Err(ApiError::Downstream(Backend::Storage)),
        Ok(()) => Ok(()),
    }
}

/// Upload, after a vector-index call (the collection check before the write, the
/// vector upsert after the row): a failure ends the upload with an index error.
pub fn upload_indexed(indexed: Result<(), BackendFailure>) -> (r: Result<(), ApiError>)
    ensures
        r == match indexed {
            Err(_) => Err(ApiError::Downstream(Backend::VectorIndex)),
            Ok(()) => Ok::<(), ApiError>(()),
        },
{
    match indexed {
        Err(_) => Err(ApiError::Downstream(Backend::VectorIndex)),
        Ok(()) => Ok(()),
    }
}

/// What a lookup of a row that must exist and belong to the caller comes to.
pub open spec fn owned_lookup<T>(found: Result<Option<T>, BackendFailure>, missing: ApiError) -> Result<T, ApiError> {
    match found {
        Err(_) => Err(ApiError::Downstream(Backend::Database)),
        Ok(None) => Err(missing),
        Ok(Some(t)) => Ok(t),
    }
}

/// Download and delete, first step: the caller's file, or `FileNotFound`.
pub fn file_lookup(found: Result<Option<StoredFile>, BackendFailure>) -> (r: Result<StoredFile, ApiError>)
    ensures
        r == owned_lookup(found, ApiError::FileNotFound),
{
    match found {
        Err(_) => Err(ApiError::Downstream(Backend::Database)),
        Ok(None) => Err(ApiError::FileNotFound),
        Ok(Some(f)) => Ok(f),
    }
}

/// Delete, first step, after looking the file up by id and owner: what to clean
/// up, or `FileNotFound` (and nothing is touched).
pub fn delete_file(found: Result<Option<StoredFile>, BackendFailure>) -> (r: Result<DeletePlan, ApiError>)
    ensures
        match owned_lookup(found, ApiError::FileNotFound) {
            Err(e) => r == Err::<DeletePlan, ApiError>(e),
            Ok(f) => r matches Ok(p) && p.file_id == f.id && p.object_path == f.object_path
                && p.collection@ == "user_"@ + underscored(id_text(f.user_id)),
        },
{
    match file_lookup(found) {
        Err(e) => Err(e),
        Ok(f) => Ok(DeletePlan {
            file_id: f.id,
            object_path: f.object_path,
            collection: collection_name(f.user_id),
        }),
    }
}

/// What a delete comes to once the object-store and vector-index clean-ups
/// have run and the row has been deleted: the clean-ups are best effort, so only
/// the row deletion decides.
pub open spec fn delete_outcome(
    storage: Result<(), BackendFailure>,
    vectors: Result<(), BackendFailure>,
    removed: Result<bool, BackendFailure>,
) -> Result<(), ApiError> {
    match removed {
        Err(_) => Err(ApiError::Downstream(Backend::Database)),
        Ok(_) => Ok(()),
    }
}

/// Delete, last step, given the outcomes of the clean-ups and of the row deletion.
pub fn delete_file_finish(
    storage: Result<(), BackendFailure>,
    vectors: Result<(), BackendFailure>,
    removed: Result<bool, BackendFailure>,
) -> (r: Result<(), ApiError>)
    ensures
        r == delete_outcome(storage, vectors, removed),
{
    match removed {
        Err(_) => Err(ApiError::Downstream(Backend::Database)),
        Ok(_) => Ok(()),
    }
}

/// The content type a download is served with.
pub open spec fn content_type_of(file: StoredFile) -> Seq<char> {
    match file.mime_type {
        Some(m) => m@,
        None => "application/octet-stream"@,
    }
}

/// Download, after looking the file up by id and owner: where to read it from and
/// the headers to serve it with, or `FileNotFound` (and the store is not read).
pub fn download_file(found: Result<Option<StoredFile>, BackendFailure>) -> (r: Result<DownloadPlan, ApiError>)
    ensures
        match owned_lookup(found, ApiError::FileNotFound) {
            Err(e) => r == Err::<DownloadPlan, ApiError>(e),
            Ok(f) => r matches Ok(p) && p.object_path == f.object_path
                && p.content_type@ == content_type_of(f)
                && p.disposition@ == "inline; filename=\""@ + f.filename@ + "\""@,
        },
{
    match file_lookup(found) {
        Err(e) => Err(e),
        Ok(f) => {
            let content_type = match &f.mime_type {
                Some(m) => m.clone(),
                None => String::from_str("application/octet-stream"),
            };
            let disposition = String::from_str("inline; filename=\"");
            let disposition = disposition.concat(f.filename.as_str());
            let disposition = disposition.concat("\"");
            Ok(DownloadPlan { object_path: f.object_path, content_type, disposition })
        },
    }
}

/// Download, after reading the stored object: its bytes, or a storage error.
pub fn download_read(data: Result<Vec<u8>, BackendFailure>) -> (r: Result<Vec<u8>, ApiError>)
    ensures
        match data {
            Err(_) => r == Err::<Vec<u8>, ApiError>(ApiError::Downstream(Backend::Storage)),
            Ok(d) => r matches Ok(b) && b@ == d@,
        },
{
    match data {
        Err(_) => Err(ApiError::Downstream(Backend::Storage)),
        Ok(d) => Ok(d),
    }
}

/// Deleting a file succeeds whether or not its stored object and vectors could be
/// removed; once its row is gone, a download finds no row and reports
/// `FileNotFound` without reading the store, and a second delete does the same.
pub proof fn lemma_deleted_file_gone(
    storage: Result<(), BackendFailure>,
    vectors: Result<(), BackendFailure>,
)
    ensures
        delete_outcome(storage, vectors, Ok(true)) == Ok::<(), ApiError>(()),
        delete_outcome(storage, vectors, Ok(true)) == delete_outcome(Ok(()), Ok(()), Ok(true)),
        owned_lookup(Ok::<Option<StoredFile>, BackendFailure>(None), ApiError::FileNotFound)
            == Err::<StoredFile, ApiError>(ApiError::FileNotFound),
{
}

} // verus!
