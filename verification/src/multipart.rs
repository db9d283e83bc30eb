//! Multipart form data: parts, forms and their wire encoding.

use vstd::prelude::*;
use vstd::utf8::encode_utf8;
use crate::specs::buffers::{buffer_of, bytes_of};
use crate::specs::clock::since_epoch;
use crate::text::{from_chars, lower_hex_of, lower_hex_string, lowercase_of, to_chars};

verus! {

/// A part in contracts.
pub struct PartView {
    /// The part's name.
    pub name: Seq<char>,
    /// The file name, if one is set.
    pub filename: Option<Seq<char>>,
    /// The content type, if one is set.
    pub content_type: Option<Seq<char>>,
    /// The part's data.
    pub data: Seq<u8>,
}

/// A single part in a multipart form: text, binary data or a file, with an
/// optional file name and content type.
#[derive(Debug)]
pub struct Part {
    name: String,
    filename: Option<String>,
    content_type: Option<String>,
    data: bytes::Bytes,
}

/// The view of an optional text.
pub open spec fn opt_text(s: Option<String>) -> Option<Seq<char>> {
    match s {
        Some(t) => Some(t@),
        None => None,
    }
}

impl View for Part {
    type V = PartView;

    closed spec fn view(&self) -> PartView {
        PartView {
            name: self.name@,
            filename: opt_text(self.filename),
            content_type: opt_text(self.content_type),
            data: bytes_of(self.data),
        }
    }
}

/// The position of the last `.` among the first `n` characters, or -1.
pub open spec fn last_dot(s: Seq<char>, n: int) -> int
    decreases n,
{
    if n <= 0 {
        -1
    } else if s[n - 1] == '.' {
        n - 1
    } else {
        last_dot(s, n - 1)
    }
}

/// The extension of a file name: what follows its last `.`, or the whole name
/// where it has none.
pub open spec fn extension_of(filename: Seq<char>) -> Seq<char> {
    filename.skip(last_dot(filename, filename.len() as int) + 1)
}

/// The content type for a lower-case extension; `application/octet-stream`
/// for an unknown one.
pub open spec fn mime_for(ext: Seq<char>) -> Seq<char> {
    if ext == "jpg"@ || ext == "jpeg"@ {
        "image/jpeg"@
    } else if ext == "png"@ {
        "image/png"@
    } else if ext == "gif"@ {
        "image/gif"@
    } else if ext == "webp"@ {
        "image/webp"@
    } else if ext == "svg"@ {
        "image/svg+xml"@
    } else if ext == "ico"@ {
        "image/x-icon"@
    } else if ext == "bmp"@ {
        "image/bmp"@
    } else if ext == "pdf"@ {
        "application/pdf"@
    } else if ext == "doc"@ {
        "application/msword"@
    } else if ext == "docx"@ {
        "application/vnd.openxmlformats-officedocument.wordprocessingml.document"@
    } else if ext == "xls"@ {
        "application/vnd.ms-excel"@
    } else if ext == "xlsx"@ {
        "application/vnd.openxmlformats-officedocument.spreadsheetml.sheet"@
    } else if ext == "ppt"@ {
        "application/vnd.ms-powerpoint"@
    } else if ext == "pptx"@ {
        "application/vnd.openxmlformats-officedocument.presentationml.presentation"@
    } else if ext == "txt"@ {
        "text/plain"@
    } else if ext == "html"@ || ext == "htm"@ {
        "text/html"@
    } else if ext == "css"@ {
        "text/css"@
    } else if ext == "js"@ {
        "application/javascript"@
    } else if ext == "json"@ {
        "application/json"@
    } else if ext == "xml"@ {
        "application/xml"@
    } else if ext == "csv"@ {
        "text/csv"@
    } else if ext == "md"@ {
        "text/markdown"@
    } else if ext == "zip"@ {
        "application/zip"@
    } else if ext == "tar"@ {
        "application/x-tar"@
    } else if ext == "gz"@ || ext == "gzip"@ {
        "application/gzip"@
    } else if ext == "rar"@ {
        "application/vnd.rar"@
    } else if ext == "7z"@ {
        "application/x-7z-compressed"@
    } else if ext == "mp3"@ {
        "audio/mpeg"@
    } else if ext == "wav"@ {
        "audio/wav"@
    } else if ext == "ogg"@ {
        "audio/ogg"@
    } else if ext == "mp4"@ {
        "video/mp4"@
    } else if ext == "webm"@ {
        "video/webm"@
    } else if ext == "avi"@ {
        "video/x-msvideo"@
    } else if ext == "wasm"@ {
        "application/wasm"@
    } else {
        "application/octet-stream"@
    }
}

/// The content type for a lower-case extension; `application/octet-stream`
/// for an unknown one.
pub fn mime_for_extension(ext: &str) -> (r: &'static str)
    ensures
        r@ == mime_for(ext@),
{
    if ext.eq("jpg") || ext.eq("jpeg") {
        "image/jpeg"
    } else if ext.eq("png") {
        "image/png"
    } else if ext.eq("gif") {
        "image/gif"
    } else if ext.eq("webp") {
        "image/webp"
    } else if ext.eq("svg") {
        "image/svg+xml"
    } else if ext.eq("ico") {
        "image/x-icon"
    } else if ext.eq("bmp") {
        "image/bmp"
    } else if ext.eq("pdf") {
        "application/pdf"
    } else if ext.eq("doc") {
        "application/msword"
    } else if ext.eq("docx") {
        "application/vnd.openxmlformats-officedocument.wordprocessingml.document"
    } else if ext.eq("xls") {
        "application/vnd.ms-excel"
    } else if ext.eq("xlsx") {
        "application/vnd.openxmlformats-officedocument.spreadsheetml.sheet"
    } else if ext.eq("ppt") {
        "application/vnd.ms-powerpoint"
    } else if ext.eq("pptx") {
        "application/vnd.openxmlformats-officedocument.presentationml.presentation"
    } else if ext.eq("txt") {
        "text/plain"
    } else if ext.eq("html") || ext.eq("htm") {
        "text/html"
    } else if ext.eq("css") {
        "text/css"
    } else if ext.eq("js") {
        "application/javascript"
    } else if ext.eq("json") {
        "application/json"
    } else if ext.eq("xml") {
        "application/xml"
    } else if ext.eq("csv") {
        "text/csv"
    } else if ext.eq("md") {
        "text/markdown"
    } else if ext.eq("zip") {
        "application/zip"
    } else if ext.eq("tar") {
        "application/x-tar"
    } else if ext.eq("gz") || ext.eq("gzip") {
        "application/gzip"
    } else if ext.eq("rar") {
        "application/vnd.rar"
    } else if ext.eq("7z") {
        "application/x-7z-compressed"
    } else if ext.eq("mp3") {
        "audio/mpeg"
    } else if ext.eq("wav") {
        "audio/wav"
    } else if ext.eq("ogg") {
        "audio/ogg"
    } else if ext.eq("mp4") {
        "video/mp4"
    } else if ext.eq("webm") {
        "video/webm"
    } else if ext.eq("avi") {
        "video/x-msvideo"
    } else if ext.eq("wasm") {
        "application/wasm"
    } else {
        "application/octet-stream"
    }
}

/// The extension of a file name: what follows its last `.`, or the whole name
/// where it has none.
pub fn file_extension(filename: &str) -> (r: String)
    ensures
        r@ == extension_of(filename@),
{
    let v = to_chars(filename);
    let mut start: usize = 0;
    let mut i: usize = 0;
    while i < v.len()
        invariant
            i <= v.len(),
            start <= i,
            start as int == last_dot(v@, i as int) + 1,
        decreases v.len() - i,
    {
        if v[i] == '.' {
            start = i + 1;
        }
        i += 1;
    }
    let mut ext: Vec<char> = Vec::new();
    let mut k: usize = start;
    while k < v.len()
        invariant
            start <= k <= v.len(),
            ext@ == v@.subrange(start as int, k as int),
        decreases v.len() - k,
    {
        ext.push(v[k]);
        k += 1;
    }
    proof {
        assert(v@.subrange(start as int, v.len() as int) == v@.skip(start as int));
    }
    from_chars(&ext)
}

/// Guess the content type from a filename extension, whatever the case of its
/// letters.
pub fn guess_content_type(filename: &str) -> (r: String)
    ensures
        r@ == mime_for(lowercase_of(extension_of(filename@))),
{
    let extension = file_extension(filename).as_str().to_lowercase();
    mime_for_extension(extension.as_str()).to_owned()
}

fn clone_text(s: &Option<String>) -> (r: Option<String>)
    ensures
        r == *s,
{
    match s {
        Some(t) => Some(t.clone()),
        None => None,
    }
}

impl Part {
    /// Create a new part with the given name and data.
    #[must_use]
    pub fn new(name: &str, data: bytes::Bytes) -> (r: Self)
        ensures
            r@ == (PartView {
                name: name@,
                filename: None,
                content_type: None,
                data: bytes_of(data),
            }),
    {
        Part { name: name.to_owned(), filename: None, content_type: None, data }
    }

    /// Create a text part, with the content type `text/plain; charset=utf-8`.
    #[must_use]
    pub fn text(name: &str, value: &str) -> (r: Self)
        ensures
            r@ == (PartView {
                name: name@,
                filename: None,
                content_type: Some("text/plain; charset=utf-8"@),
                data: encode_utf8(value@),
            }),
    {
        let data = bytes::Bytes::from(value.as_bytes_vec());
        Part {
            name: name.to_owned(),
            filename: None,
            content_type: Some("text/plain; charset=utf-8".to_owned()),
            data,
        }
    }

    /// Create a binary part, with the content type `application/octet-stream`.
    #[must_use]
    pub fn binary(name: &str, data: bytes::Bytes) -> (r: Self)
        ensures
            r@ == (PartView {
                name: name@,
                filename: None,
                content_type: Some("application/octet-stream"@),
                data: bytes_of(data),
            }),
    {
        Part {
            name: name.to_owned(),
            filename: None,
            content_type: Some("application/octet-stream".to_owned()),
            data,
        }
    }

    /// Create a file part with a file name. The content type is guessed from
    /// the extension of the file name.
    #[must_use]
    pub fn file(name: &str, filename: &str, data: bytes::Bytes) -> (r: Self)
        ensures
            r@ == (PartView {
                name: name@,
                filename: Some(filename@),
                content_type: Some(mime_for(lowercase_of(extension_of(filename@)))),
                data: bytes_of(data),
            }),
    {
        let content_type = guess_content_type(filename);
        Part {
            name: name.to_owned(),
            filename: Some(filename.to_owned()),
            content_type: Some(content_type),
            data,
        }
    }

    /// Set the filename for this part.
    #[must_use]
    pub fn with_filename(self, filename: &str) -> (r: Self)
        ensures
            r@ == (PartView { filename: Some(filename@), ..self@ }),
    {
        Part {
            name: self.name,
            filename: Some(filename.to_owned()),
            content_type: self.content_type,
            data: self.data,
        }
    }

    /// Set the content type for this part.
    #[must_use]
    pub fn with_content_type(self, content_type: &str) -> (r: Self)
        ensures
            r@ == (PartView { content_type: Some(content_type@), ..self@ }),
    {
        Part {
            name: self.name,
            filename: self.filename,
            content_type: Some(content_type.to_owned()),
            data: self.data,
        }
    }

    /// Get the part name.
    #[must_use]
    pub fn name(&self) -> (r: &str)
        ensures
            r@ == self@.name,
    {
        self.name.as_str()
    }

    /// Get the filename, if set.
    #[must_use]
    pub fn filename(&self) -> (r: Option<&str>)
        ensures
            r is Some == self@.filename is Some,
            r is Some ==> r.unwrap()@ == self@.filename.unwrap(),
    {
        match &self.filename {
            Some(s) => Some(s.as_str()),
            None => None,
        }
    }

    /// Get the content type, if set.
    #[must_use]
    pub fn content_type(&self) -> (r: Option<&str>)
        ensures
            r is Some == self@.content_type is Some,
            r is Some ==> r.unwrap()@ == self@.content_type.unwrap(),
    {
        match &self.content_type {
            Some(s) => Some(s.as_str()),
            None => None,
        }
    }

    /// Get the part data.
    #[must_use]
    pub fn data(&self) -> (r: &bytes::Bytes)
        ensures
            bytes_of(*r) == self@.data,
    {
        &self.data
    }
}

impl Clone for Part {
    fn clone(&self) -> (r: Self)
        ensures
            r@ == self@,
    {
        Part {
            name: self.name.clone(),
            filename: clone_text(&self.filename),
            content_type: clone_text(&self.content_type),
            data: self.data.clone(),
        }
    }
}

/// The bytes of a text.
pub open spec fn utf8(s: Seq<char>) -> Seq<u8> {
    encode_utf8(s)
}

/// The clause that names the file of a part, if it has one.
pub open spec fn filename_clause(filename: Option<Seq<char>>) -> Seq<u8> {
    match filename {
        Some(f) => utf8("; filename=\""@) + utf8(f) + utf8("\""@),
        None => Seq::empty(),
    }
}

/// The line that gives the content type of a part, if it has one.
pub open spec fn type_line(content_type: Option<Seq<char>>) -> Seq<u8> {
    match content_type {
        Some(t) => utf8("Content-Type: "@) + utf8(t) + utf8("\r\n"@),
        None => Seq::empty(),
    }
}

/// The wire encoding of one part: the boundary line, the disposition line,
/// the content type line if there is one, an empty line, and the data.
pub open spec fn part_bytes(boundary: Seq<char>, part: PartView) -> Seq<u8> {
    utf8("--"@) + utf8(boundary) + utf8("\r\n"@) + utf8(
        "Content-Disposition: form-data; name=\""@,
    ) + utf8(part.name) + utf8("\""@) + filename_clause(part.filename) + utf8("\r\n"@)
        + type_line(part.content_type) + utf8("\r\n"@) + part.data + utf8("\r\n"@)
}

/// The wire encoding of the first `n` parts.
pub open spec fn parts_bytes(boundary: Seq<char>, parts: Seq<PartView>, n: int) -> Seq<u8>
    decreases n,
{
    if n <= 0 {
        Seq::empty()
    } else {
        parts_bytes(boundary, parts, n - 1) + part_bytes(boundary, parts[n - 1])
    }
}

/// The wire encoding of a form: its parts, then the closing boundary line.
pub open spec fn form_bytes(boundary: Seq<char>, parts: Seq<PartView>) -> Seq<u8> {
    parts_bytes(boundary, parts, parts.len() as int) + utf8("--"@) + utf8(boundary) + utf8(
        "--\r\n"@,
    )
}

/// The boundary made from a number: a fixed prefix and the number in
/// lower-case hexadecimal.
pub open spec fn boundary_for(n: nat) -> Seq<char> {
    "----PincerBoundary"@ + lower_hex_of(n)
}

/// The boundary made from a number.
pub fn boundary_from(n: u128) -> (r: String)
    ensures
        r@ == boundary_for(n as nat),
{
    let mut out = "----PincerBoundary".to_owned();
    out.append(lower_hex_string(n).as_str());
    out
}

/// Generate a boundary from the system clock: from the nanoseconds since the
/// Unix epoch, or from zero where the clock stands before it.
pub fn generate_boundary() -> (r: String)
    ensures
        exists|n: nat| r@ == boundary_for(n),
{
    let nanos: u128 = match since_epoch() {
        Some(d) => d.as_nanos(),
        None => 0,
    };
    boundary_from(nanos)
}

/// A form in contracts.
pub struct FormView {
    /// The parts, in order.
    pub parts: Seq<PartView>,
    /// The boundary.
    pub boundary: Seq<char>,
}

/// A multipart form containing multiple parts.
#[derive(Debug)]
pub struct Form {
    parts: Vec<Part>,
    boundary: String,
}

/// The views of a sequence of parts.
pub open spec fn part_views(parts: Seq<Part>) -> Seq<PartView> {
    Seq::new(parts.len(), |i: int| parts[i]@)
}

impl View for Form {
    type V = FormView;

    closed spec fn view(&self) -> FormView {
        FormView { parts: part_views(self.parts@), boundary: self.boundary@ }
    }
}

impl Form {
    /// Create a new empty form with a boundary from the system clock.
    #[must_use]
    pub fn new() -> (r: Self)
        ensures
            r@.parts.len() == 0,
            exists|n: nat| r@.boundary == boundary_for(n),
    {
        Form { parts: Vec::new(), boundary: generate_boundary() }
    }

    /// Create a new form with a custom boundary.
    ///
    /// The boundary should be a string that appears in no part's data.
    #[must_use]
    pub fn with_boundary(boundary: &str) -> (r: Self)
        ensures
            r@ == (FormView { parts: Seq::empty(), boundary: boundary@ }),
    {
        let r = Form { parts: Vec::new(), boundary: boundary.to_owned() };
        proof {
            assert(part_views(r.parts@) == Seq::<PartView>::empty());
        }
        r
    }

    /// Add a part to the form.
    #[must_use]
    pub fn part(self, part: Part) -> (r: Self)
        ensures
            r@ == (FormView { parts: self@.parts.push(part@), boundary: self@.boundary }),
    {
        let mut parts = self.parts;
        parts.push(part);
        proof {
            assert(part_views(parts@) == part_views(self.parts@).push(part@));
        }
        Form { parts, boundary: self.boundary }
    }

    /// Add a text field to the form.
    #[must_use]
    pub fn text(self, name: &str, value: &str) -> (r: Self)
        ensures
            r@ == (FormView {
                parts: self@.parts.push(
                    PartView {
                        name: name@,
                        filename: None,
                        content_type: Some("text/plain; charset=utf-8"@),
                        data: encode_utf8(value@),
                    },
                ),
                boundary: self@.boundary,
            }),
    {
        self.part(Part::text(name, value))
    }

    /// Add a file to the form.
    #[must_use]
    pub fn file(self, name: &str, filename: &str, data: bytes::Bytes) -> (r: Self)
        ensures
            r@ == (FormView {
                parts: self@.parts.push(
                    PartView {
                        name: name@,
                        filename: Some(filename@),
                        content_type: Some(mime_for(lowercase_of(extension_of(filename@)))),
                        data: bytes_of(data),
                    },
                ),
                boundary: self@.boundary,
            }),
    {
        self.part(Part::file(name, filename, data))
    }

    /// Get the boundary string.
    #[must_use]
    pub fn boundary(&self) -> (r: &str)
        ensures
            r@ == self@.boundary,
    {
        self.boundary.as_str()
    }

    /// Get the parts in this form.
    #[must_use]
    pub fn parts(&self) -> (r: &Vec<Part>)
        ensures
            part_views(r@) == self@.parts,
    {
        &self.parts
    }

    /// Get the Content-Type header value for this form:
    /// `multipart/form-data; boundary=<boundary>`.
    #[must_use]
    pub fn content_type(&self) -> (r: String)
        ensures
            r@ == "multipart/form-data; boundary="@ + self@.boundary,
    {
        let mut out = "multipart/form-data; boundary=".to_owned();
        out.append(self.boundary.as_str());
        out
    }

    /// Convert the form into a body: the Content-Type header value and the
    /// body bytes.
    #[must_use]
    pub fn into_body(self) -> (r: (String, bytes::Bytes))
        ensures
            r.0@ == "multipart/form-data; boundary="@ + self@.boundary,
            bytes_of(r.1) == form_bytes(self@.boundary, self@.parts),
    {
        let content_type = self.content_type();
        let body = self.encode();
        (content_type, body)
    }

    /// Encode the form into bytes.
    #[must_use]
    pub fn encode(&self) -> (r: bytes::Bytes)
        ensures
            bytes_of(r) == form_bytes(self@.boundary, self@.parts),
    {
        let mut buf = bytes::BytesMut::new();
        let ghost views = part_views(self.parts@);
        let mut i: usize = 0;
        while i < self.parts.len()
            invariant
                i <= self.parts.len(),
                views == part_views(self.parts@),
                buffer_of(buf) == parts_bytes(self.boundary@, views, i as int),
            decreases self.parts.len() - i,
        {
            put_part(&mut buf, self.boundary.as_str(), &self.parts[i]);
            i += 1;
        }
        put(&mut buf, "--".as_bytes());
        put(&mut buf, self.boundary.as_str().as_bytes());
        put(&mut buf, "--\r\n".as_bytes());
        buf.freeze()
    }
}

fn put(buf: &mut bytes::BytesMut, src: &[u8])
    ensures
        buffer_of(*final(buf)) == buffer_of(*old(buf)) + src@,
{
    bytes::BufMut::put_slice(buf, src);
}

proof fn lemma_concat_assoc(a: Seq<u8>, b: Seq<u8>, c: Seq<u8>)
    ensures
        (a + b) + c == a + (b + c),
{
    assert((a + b) + c =~= a + (b + c));
}

fn put_filename_clause(buf: &mut bytes::BytesMut, filename: &Option<String>)
    ensures
        buffer_of(*final(buf)) == buffer_of(*old(buf)) + filename_clause(opt_text(*filename)),
{
    let ghost before = buffer_of(*buf);
    match filename {
        Some(f) => {
            put(buf, "; filename=\"".as_bytes());
            put(buf, f.as_str().as_bytes());
            put(buf, "\"".as_bytes());
            proof {
                let a = utf8("; filename=\""@);
                lemma_concat_assoc(before, a, utf8(f@));
                lemma_concat_assoc(before, a + utf8(f@), utf8("\""@));
            }
        },
        None => {
            proof {
                assert(before + Seq::<u8>::empty() == before);
            }
        },
    }
}

fn put_type_line(buf: &mut bytes::BytesMut, content_type: &Option<String>)
    ensures
        buffer_of(*final(buf)) == buffer_of(*old(buf)) + type_line(opt_text(*content_type)),
{
    let ghost before = buffer_of(*buf);
    match content_type {
        Some(t) => {
            put(buf, "Content-Type: ".as_bytes());
            put(buf, t.as_str().as_bytes());
            put(buf, "\r\n".as_bytes());
            proof {
                let a = utf8("Content-Type: "@);
                lemma_concat_assoc(before, a, utf8(t@));
                lemma_concat_assoc(before, a + utf8(t@), utf8("\r\n"@));
            }
        },
        None => {
            proof {
                assert(before + Seq::<u8>::empty() == before);
            }
        },
    }
}

fn put_part(buf: &mut bytes::BytesMut, boundary: &str, part: &Part)
    ensures
        buffer_of(*final(buf)) == buffer_of(*old(buf)) + part_bytes(boundary@, part@),
{
    let ghost before = buffer_of(*buf);
    let ghost p1 = utf8("--"@);
    let ghost p2 = p1 + utf8(boundary@);
    let ghost p3 = p2 + utf8("\r\n"@);
    let ghost p4 = p3 + utf8("Content-Disposition: form-data; name=\""@);
    let ghost p5 = p4 + utf8(part@.name);
    let ghost p6 = p5 + utf8("\""@);
    let ghost p7 = p6 + filename_clause(part@.filename);
    let ghost p8 = p7 + utf8("\r\n"@);
    let ghost p9 = p8 + type_line(part@.content_type);
    let ghost p10 = p9 + utf8("\r\n"@);
    let ghost p11 = p10 + part@.data;
    let ghost p12 = p11 + utf8("\r\n"@);
    put(buf, "--".as_bytes());
    put(buf, boundary.as_bytes());
    proof {
        lemma_concat_assoc(before, p1, utf8(boundary@));
    }
    put(buf, "\r\n".as_bytes());
    proof {
        lemma_concat_assoc(before, p2, utf8("\r\n"@));
    }
    put(buf, "Content-Disposition: form-data; name=\"".as_bytes());
    proof {
        lemma_concat_assoc(before, p3, utf8("Content-Disposition: form-data; name=\""@));
    }
    put(buf, part.name.as_str().as_bytes());
    proof {
        lemma_concat_assoc(before, p4, utf8(part@.name));
    }
    put(buf, "\"".as_bytes());
    proof {
        lemma_concat_assoc(before, p5, utf8("\""@));
    }
    put_filename_clause(buf, &part.filename);
    proof {
        lemma_concat_assoc(before, p6, filename_clause(part@.filename));
    }
    put(buf, "\r\n".as_bytes());
    proof {
        lemma_concat_assoc(before, p7, utf8("\r\n"@));
    }
    put_type_line(buf, &part.content_type);
    proof {
        lemma_concat_assoc(before, p8, type_line(part@.content_type));
    }
    put(buf, "\r\n".as_bytes());
    proof {
        lemma_concat_assoc(before, p9, utf8("\r\n"@));
    }
    put(buf, &part.data);
    proof {
        lemma_concat_assoc(before, p10, part@.data);
    }
    put(buf, "\r\n".as_bytes());
    proof {
        lemma_concat_assoc(before, p11, utf8("\r\n"@));
        assert(p12 == part_bytes(boundary@, part@));
    }
}

} // verus!
