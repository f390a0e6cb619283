//! The request handling of the demo actors: `greet` answers every request
//! with a fixed greeting, `uppercase` echoes its query string upper-cased,
//! and `fileserver` maps HTTP requests onto a blob store.

use crate::registry::Registry;
use crate::text::same_text;
use vstd::prelude::*;

verus! {

/// An HTTP response as the actors build it.
pub struct HttpResponse {
    /// The status code.
    pub status_code: u32,
    /// The status text.
    pub status: String,
    /// The header fields.
    pub header: Registry<String>,
    /// The body.
    pub body: Vec<u8>,
}

impl HttpResponse {
    /// A response with this status, no header field and an empty body.
    fn bare(status_code: u32, status: &str) -> (r: Self)
        ensures
            r.status_code == status_code,
            r.status@ == status@,
            r.header.wf(),
            r.header@ == Map::<Seq<char>, String>::empty(),
            r.body@ == Seq::<u8>::empty(),
    {
        HttpResponse {
            status_code,
            status: String::from_str(status),
            header: Registry::new(),
            body: Vec::new(),
        }
    }

    /// 200, "OK", with an empty body.
    pub fn ok() -> (r: Self)
        ensures
            r.status_code == 200,
            r.status@ == "OK"@,
            r.header.wf(),
            r.header@ == Map::<Seq<char>, String>::empty(),
            r.body@ == Seq::<u8>::empty(),
    {
        Self::bare(200, "OK")
    }

    /// 404, "Not Found", with an empty body.
    pub fn not_found() -> (r: Self)
        ensures
            r.status_code == 404,
            r.status@ == "Not Found"@,
            r.header.wf(),
            r.header@ == Map::<Seq<char>, String>::empty(),
            r.body@ == Seq::<u8>::empty(),
    {
        Self::bare(404, "Not Found")
    }

    /// 400, "Bad Request", with an empty body.
    pub fn bad_request() -> (r: Self)
        ensures
            r.status_code == 400,
            r.status@ == "Bad Request"@,
            r.header.wf(),
            r.header@ == Map::<Seq<char>, String>::empty(),
            r.body@ == Seq::<u8>::empty(),
    {
        Self::bare(400, "Bad Request")
    }
}

/// The body of the `greet` actor's answer.
pub const GREETING: &'static str = "Hello, world!\n";

/// The bytes of an ASCII text.
pub open spec fn ascii_bytes(s: Seq<char>) -> Seq<u8> {
    s.map_values(|c: char| c as u8)
}

/// The `greet` actor's answer to any request.
pub fn greet() -> (r: HttpResponse)
    ensures
        r.status_code == 200,
        r.status@ == "OK"@,
        r.header.wf(),
        r.header@ == Map::<Seq<char>, String>::empty(),
        r.body@ == ascii_bytes(GREETING@),
{
    let mut r = HttpResponse::ok();
    proof {
        reveal_strlit("Hello, world!\n");
    }
    r.body = vec![72u8, 101, 108, 108, 111, 44, 32, 119, 111, 114, 108, 100, 33, 10];
    proof {
        assert(r.body@ =~= ascii_bytes(GREETING@));
    }
    r
}

/// The upper-case form of a character: ASCII letters `a` to `z` become `A`
/// to `Z`, every other character stays as it is.
pub open spec fn ascii_upper(c: char) -> char {
    if 'a' <= c && c <= 'z' {
        ((c as u32) - 32) as char
    } else {
        c
    }
}

/// The upper-case form of a text.
pub open spec fn ascii_uppercase(s: Seq<char>) -> Seq<char> {
    s.map_values(|c: char| ascii_upper(c))
}

/// Calls `str::to_ascii_uppercase`, which std documents as mapping the ASCII
/// letters `a` to `z` to `A` to `Z` and leaving every other character
/// unchanged.
#[verifier::external_body]
fn to_ascii_uppercase(s: &str) -> (r: String)
    ensures
        r@ == ascii_uppercase(s@),
{
    s.to_ascii_uppercase()
}

/// The `uppercase` actor's answer: the query string, and its upper-case form.
pub struct UppercaseResponse {
    /// The query string as received.
    pub original: String,
    /// The query string upper-cased.
    pub uppercased: String,
}

/// The `uppercase` actor's answer to a request with this query string.
pub fn uppercase(query_string: &str) -> (r: UppercaseResponse)
    ensures
        r.original@ == query_string@,
        r.uppercased@ == ascii_uppercase(query_string@),
{
    UppercaseResponse {
        original: String::from_str(query_string),
        uppercased: to_ascii_uppercase(query_string),
    }
}

/// Upper-casing twice is upper-casing once.
pub proof fn uppercase_is_idempotent(s: Seq<char>)
    ensures
        ascii_uppercase(ascii_uppercase(s)) == ascii_uppercase(s),
        ascii_uppercase(s).len() == s.len(),
        forall|i: int|
            0 <= i < s.len() ==> !('a' <= #[trigger] ascii_uppercase(s)[i] && ascii_uppercase(
                s,
            )[i] <= 'z'),
{
    assert(ascii_uppercase(ascii_uppercase(s)) =~= ascii_uppercase(s));
}

/// Upper-casing turns each letter `a` to `z` into the letter 32 code points
/// below it (`A` to `Z`), keeps every other character, and keeps the length.
pub proof fn uppercase_maps_only_ascii_letters(s: Seq<char>)
    ensures
        ascii_uppercase(s).len() == s.len(),
        forall|i: int|
            0 <= i < s.len() && 'a' <= s[i] && s[i] <= 'z' ==> (#[trigger] ascii_uppercase(s)[i])
                as u32 + 32 == s[i] as u32 && 'A' <= ascii_uppercase(s)[i] && ascii_uppercase(
                s,
            )[i] <= 'Z',
        forall|i: int|
            0 <= i < s.len() && !('a' <= s[i] && s[i] <= 'z') ==> #[trigger] ascii_uppercase(s)[i]
                == s[i],
{
}

/// A path with every leading `/` removed.
pub open spec fn trim_leading_slashes(s: Seq<char>) -> Seq<char>
    decreases s.len(),
{
    if s.len() > 0 && s[0] == '/' {
        trim_leading_slashes(s.drop_first())
    } else {
        s
    }
}

proof fn lemma_trim_skip(s: Seq<char>, i: int)
    requires
        0 <= i <= s.len(),
        forall|j: int| 0 <= j < i ==> s[j] == '/',
    ensures
        trim_leading_slashes(s) == trim_leading_slashes(s.skip(i)),
    decreases i,
{
    if i > 0 {
        assert(s.drop_first().skip(i - 1) =~= s.skip(i));
        lemma_trim_skip(s.drop_first(), i - 1);
    } else {
        assert(s.skip(0) =~= s);
    }
}

/// A trimmed path starts with no `/`, is what is left of the path after some
/// leading slashes, and trimming it again changes nothing.
pub proof fn trimmed_path_is_clean(s: Seq<char>)
    ensures
        trim_leading_slashes(s).len() > 0 ==> trim_leading_slashes(s)[0] != '/',
        trim_leading_slashes(trim_leading_slashes(s)) == trim_leading_slashes(s),
        exists|i: int|
            0 <= i <= s.len() && trim_leading_slashes(s) == s.skip(i) && (forall|j: int|
                0 <= j < i ==> s[j] == '/'),
    decreases s.len(),
{
    if s.len() > 0 && s[0] == '/' {
        trimmed_path_is_clean(s.drop_first());
        let i: int = choose|i: int|
            0 <= i <= s.drop_first().len() && trim_leading_slashes(s.drop_first())
                == s.drop_first().skip(i) && (forall|j: int|
                0 <= j < i ==> s.drop_first()[j] == '/');
        assert(s.drop_first().skip(i) =~= s.skip(i + 1));
        assert forall|j: int| 0 <= j < i + 1 implies s[j] == '/' by {
            if j > 0 {
                assert(s[j] == s.drop_first()[j - 1]);
            }
        }
    } else {
        assert(s.skip(0) =~= s);
    }
}

/// Removes every leading `/` from a path.
pub fn strip_leading_slashes(path: &str) -> (r: String)
    ensures
        r@ == trim_leading_slashes(path@),
{
    let n: usize = path.unicode_len();
    let mut i: usize = 0;
    while i < n && path.get_char(i) == '/'
        invariant
            n == path@.len(),
            i <= n,
            forall|j: int| 0 <= j < i ==> path@[j] == '/',
        decreases n - i,
    {
        i = i + 1;
    }
    proof {
        lemma_trim_skip(path@, i as int);
        assert(path@.skip(i as int) =~= path@.subrange(i as int, n as int));
    }
    path.substring_char(i, n).to_owned()
}

/// What a request to the file server asks for.
pub enum FileRequest {
    /// The information on the blob at `path`.
    Get { path: String },
    /// Storing `body` as the blob at `path`.
    Post { path: String, body: Vec<u8> },
    /// Removing the blob at `path`.
    Delete { path: String },
    /// A method the file server does not serve.
    Unsupported,
}

/// Reads a request to the file server: the path loses its leading slashes
/// and the method picks what is to be done.
pub fn route_file_request(method: &str, path: &str, body: Vec<u8>) -> (r: FileRequest)
    ensures
        match r {
            FileRequest::Get { path: p } => method@ == "GET"@ && p@ == trim_leading_slashes(path@),
            FileRequest::Post { path: p, body: b } => {
                &&& method@ != "GET"@
                &&& method@ == "POST"@
                &&& p@ == trim_leading_slashes(path@)
                &&& b@ == body@
            },
            FileRequest::Delete { path: p } => {
                &&& method@ != "GET"@
                &&& method@ != "POST"@
                &&& method@ == "DELETE"@
                &&& p@ == trim_leading_slashes(path@)
            },
            FileRequest::Unsupported => method@ != "GET"@ && method@ != "POST"@ && method@
                != "DELETE"@,
        },
{
    let trimmed = strip_leading_slashes(path);
    if same_text(method, "GET") {
        FileRequest::Get { path: trimmed }
    } else if same_text(method, "POST") {
        FileRequest::Post { path: trimmed, body }
    } else if same_text(method, "DELETE") {
        FileRequest::Delete { path: trimmed }
    } else {
        FileRequest::Unsupported
    }
}

/// Whether the blob store found a blob: it answers with the id `none` when
/// there is none.
pub fn blob_exists(blob_id: &str) -> (r: bool)
    ensures
        r == (blob_id@ != "none"@),
{
    !same_text(blob_id, "none")
}

/// A chunk of a blob sent to the blob store.
pub struct UploadChunk {
    /// The blob's id.
    pub id: String,
    /// The id of the container that holds the blob.
    pub container: String,
    /// The chunk's position in the upload.
    pub sequence_no: u64,
    /// The size of the whole blob.
    pub total_bytes: u64,
    /// The size of a chunk.
    pub chunk_size: u64,
    /// The upload's context.
    pub context: Option<String>,
    /// The chunk's bytes.
    pub chunk_bytes: Vec<u8>,
}

/// The two chunks with which the file server stores a body as one blob: the
/// first announces the upload and carries no bytes, the second carries the
/// whole body.
pub fn upload_chunks(path: String, body: Vec<u8>) -> (r: (UploadChunk, UploadChunk))
    ensures
        r.0.id@ == path@,
        r.0.container@ == Seq::<char>::empty(),
        r.0.sequence_no == 0,
        r.0.total_bytes == body@.len(),
        r.0.chunk_size == body@.len(),
        r.0.context is None,
        r.0.chunk_bytes@ == Seq::<u8>::empty(),
        r.1.id@ == path@,
        r.1.container@ == Seq::<char>::empty(),
        r.1.sequence_no == 0,
        r.1.total_bytes == body@.len(),
        r.1.chunk_size == body@.len(),
        r.1.context is None,
        r.1.chunk_bytes@ == body@,
{
    let size: u64 = body.len() as u64;
    let announcement = UploadChunk {
        id: path.clone(),
        container: String::new(),
        sequence_no: 0,
        total_bytes: size,
        chunk_size: size,
        context: None,
        chunk_bytes: Vec::new(),
    };
    let data = UploadChunk {
        id: path,
        container: String::new(),
        sequence_no: 0,
        total_bytes: size,
        chunk_size: size,
        context: None,
        chunk_bytes: body,
    };
    (announcement, data)
}

} // verus!
