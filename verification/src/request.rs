//! Requests to the REST API, as values: what to ask for, and how to read the
//! answer's status. Sending them is left to the caller.

use vstd::prelude::*;
use vstd::string::*;
use vstd::utf8::encode_utf8;
use crate::text::{chars_of, decimal_text, push_decimal, text_of};

verus! {

/// Why a request failed.
#[derive(Clone, Copy, Debug, PartialEq, Eq, Structural)]
pub enum RequestError {
    /// The request was refused for who sent it, or could not be secured.
    Authorization,
    /// The network failed; the request may be tried again.
    Network,
    /// Status 429.
    RateLimited,
    /// Another status from 400 to 499, with the status.
    ClientError(u16),
    /// A status from 500 to 599, or an answer that could not be read.
    ServerError,
    /// The gateway refused the session.
    InvalidSession,
}

/// The verb of a request.
#[derive(Clone, Copy, Debug, PartialEq, Eq, Structural)]
pub enum Method {
    Get,
    Post,
    Patch,
    Delete,
}

/// A file to send along with a request.
#[derive(Debug, PartialEq, Eq)]
pub struct File {
    pub name: String,
    pub typ: String,
    pub data: Vec<u8>,
}

/// A file as a mathematical value.
pub struct FileView {
    pub name: Seq<char>,
    pub typ: Seq<char>,
    pub data: Seq<u8>,
}

impl View for File {
    type V = FileView;

    open spec fn view(&self) -> FileView {
        FileView { name: self.name@, typ: self.typ@, data: self.data@ }
    }
}

/// The files of a list, as mathematical values.
pub open spec fn file_views(files: Seq<File>) -> Seq<FileView> {
    Seq::new(files.len(), |i: int| files[i]@)
}

impl Clone for File {
    fn clone(&self) -> (r: Self)
        ensures
            r@ == self@,
    {
        let data = self.data.clone();
        assert(data@ =~= self.data@);
        File { name: self.name.clone(), typ: self.typ.clone(), data }
    }
}

/// What carries files.
pub trait Attachments {
    /// The files, in the order in which they are sent.
    spec fn files(&self) -> Seq<FileView>;

    fn attachments(&self) -> (r: Vec<File>)
        ensures
            file_views(r@) == self.files(),
    ;
}

/// A request that is ready to be sent.
#[derive(Clone, Debug, PartialEq, Eq)]
pub struct HttpRequest {
    pub method: Method,
    pub uri: String,
    /// The body, as JSON text.
    pub body: Option<String>,
    pub files: Vec<File>,
}

impl HttpRequest {
    /// Whether this is the request with these parts.
    pub open spec fn is(
        self,
        method: Method,
        uri: Seq<char>,
        body: Option<Seq<char>>,
        files: Seq<FileView>,
    ) -> bool {
        &&& self.method == method
        &&& self.uri@ == uri
        &&& match (self.body, body) {
            (Some(a), Some(b)) => a@ == b,
            (None, None) => true,
            _ => false,
        }
        &&& file_views(self.files@) == files
    }

    pub fn get(uri: String) -> (r: Self)
        ensures
            r.is(Method::Get, uri@, None, Seq::empty()),
    {
        let r = HttpRequest { method: Method::Get, uri, body: None, files: Vec::new() };
        assert(file_views(r.files@) =~= Seq::empty());
        r
    }

    pub fn post(uri: String, body: String) -> (r: Self)
        ensures
            r.is(Method::Post, uri@, Some(body@), Seq::empty()),
    {
        let r = HttpRequest { method: Method::Post, uri, body: Some(body), files: Vec::new() };
        assert(file_views(r.files@) =~= Seq::empty());
        r
    }

    pub fn post_attached(uri: String, body: String, files: Vec<File>) -> (r: Self)
        ensures
            r.is(Method::Post, uri@, Some(body@), file_views(files@)),
    {
        HttpRequest { method: Method::Post, uri, body: Some(body), files }
    }

    pub fn patch(uri: String, body: String) -> (r: Self)
        ensures
            r.is(Method::Patch, uri@, Some(body@), Seq::empty()),
    {
        let r = HttpRequest { method: Method::Patch, uri, body: Some(body), files: Vec::new() };
        assert(file_views(r.files@) =~= Seq::empty());
        r
    }

    pub fn patch_attached(uri: String, body: String, files: Vec<File>) -> (r: Self)
        ensures
            r.is(Method::Patch, uri@, Some(body@), file_views(files@)),
    {
        HttpRequest { method: Method::Patch, uri, body: Some(body), files }
    }

    pub fn delete(uri: String) -> (r: Self)
        ensures
            r.is(Method::Delete, uri@, None, Seq::empty()),
    {
        let r = HttpRequest { method: Method::Delete, uri, body: None, files: Vec::new() };
        assert(file_views(r.files@) =~= Seq::empty());
        r
    }
}

/// What a status says of a request: 429 that it was rate limited, another
/// status from 400 to 499 that the client erred, one from 500 to 599 that the
/// server did; any other status says nothing against it.
pub open spec fn status_error(status: u16) -> Option<RequestError> {
    if status == 429 {
        Some(RequestError::RateLimited)
    } else if 400 <= status <= 499 {
        Some(RequestError::ClientError(status))
    } else if 500 <= status <= 599 {
        Some(RequestError::ServerError)
    } else {
        None
    }
}

/// Reads the status of an answer.
pub fn check_status(status: u16) -> (r: Result<(), RequestError>)
    ensures
        match status_error(status) {
            Some(e) => r == Err::<(), RequestError>(e),
            None => r is Ok,
        },
{
    if status == 429 {
        Err(RequestError::RateLimited)
    } else if 400 <= status && status <= 499 {
        Err(RequestError::ClientError(status))
    } else if 500 <= status && status <= 599 {
        Err(RequestError::ServerError)
    } else {
        Ok(())
    }
}

/// Whether the answer has no content, so that its body reads as `null`.
pub fn is_no_content(status: u16) -> (r: bool)
    ensures
        r == (status == 204),
{
    status == 204
}

/// A list whose items are sent with their place in it.
#[derive(Clone, Debug, PartialEq, Eq)]
pub struct Indexed<T>(pub Vec<T>);

/// A list of new items, sent with their places, and of items kept as they are.
#[derive(Clone, Debug, PartialEq, Eq)]
pub struct IndexedOr<T, E>(pub Vec<T>, pub Vec<E>);

impl<T> Indexed<T> {
    /// An empty list.
    pub fn new() -> (r: Self)
        ensures
            r.0@ == Seq::<T>::empty(),
    {
        Indexed(Vec::new())
    }

    /// The items, in order.
    pub fn iter(&self) -> (r: &Vec<T>)
        ensures
            r@ == self.0@,
    {
        &self.0
    }

    pub fn is_empty(&self) -> (r: bool)
        ensures
            r == (self.0@.len() == 0),
    {
        self.0.len() == 0
    }

    /// The list of these items.
    pub fn from(value: Vec<T>) -> (r: Self)
        ensures
            r.0@ == value@,
    {
        Indexed(value)
    }
}

impl<T, E> IndexedOr<T, E> {
    /// An empty list.
    pub fn new() -> (r: Self)
        ensures
            r.0@ == Seq::<T>::empty(),
            r.1@ == Seq::<E>::empty(),
    {
        IndexedOr(Vec::new(), Vec::new())
    }
}

/// Whether a request that failed in this way is worth sending again as it
/// is: one that was rate limited, or one that the network failed.
pub fn should_retry(error: RequestError) -> (r: bool)
    ensures
        r == (error is RateLimited || error is Network),
{
    match error {
        RequestError::RateLimited => true,
        RequestError::Network => true,
        _ => false,
    }
}

/// Whether a text starts with another.
pub open spec fn starts_with(text: Seq<char>, prefix: Seq<char>) -> bool {
    prefix.len() <= text.len() && text.take(prefix.len() as int) == prefix
}

/// Tells whether some characters start with a text.
pub fn has_prefix(chars: &Vec<char>, prefix: &str) -> (r: bool)
    ensures
        r == starts_with(chars@, prefix@),
{
    let p = chars_of(prefix);
    if p.len() > chars.len() {
        return false;
    }
    let mut i: usize = 0;
    while i < p.len()
        invariant
            i <= p.len() <= chars.len(),
            p@ == prefix@,
            forall|k: int| 0 <= k < i ==> chars@[k] == p@[k],
        decreases p.len() - i,
    {
        if chars[i] != p[i] {
            assert(chars@.take(p.len() as int)[i as int] != p@[i as int]);
            return false;
        }
        i = i + 1;
    }
    assert(chars@.take(p.len() as int) =~= p@);
    true
}

/// How far a text reaches when it is read up to and with its `n`-th slash,
/// from a place on; to its end where it has fewer slashes.
pub open spec fn reach(text: Seq<char>, from: int, n: nat) -> int
    decreases text.len() - from,
{
    if from >= text.len() || n == 0 {
        from
    } else if text[from] == '/' {
        reach(text, from + 1, (n - 1) as nat)
    } else {
        reach(text, from + 1, n)
    }
}

/// The bucket that rate limits are counted in for a path. Paths under
/// `/guilds/` and `/channels/` are counted by guild and by channel: their
/// bucket is the path up to its third slash, without that slash. Every other
/// path is a bucket of its own.
pub open spec fn bucket_of(uri: Seq<char>) -> Seq<char> {
    if starts_with(uri, "/guilds/"@) || starts_with(uri, "/channels/"@) {
        let cut = uri.take(reach(uri, 0, 3));
        if cut.len() > 0 && cut.last() == '/' {
            cut.drop_last()
        } else {
            cut
        }
    } else {
        uri
    }
}

/// Names the bucket that rate limits are counted in for a path.
pub fn get_bucket(uri: &str) -> (r: String)
    ensures
        r@ == bucket_of(uri@),
{
    let chars = chars_of(uri);
    if has_prefix(&chars, "/guilds/") || has_prefix(&chars, "/channels/") {
        let mut i: usize = 0;
        let mut left: usize = 3;
        while i < chars.len() && left > 0
            invariant
                i <= chars.len(),
                reach(chars@, 0, 3) == reach(chars@, i as int, left as nat),
            decreases chars.len() - i,
        {
            if chars[i] == '/' {
                left = left - 1;
            }
            i = i + 1;
        }
        let end = if i > 0 && chars[i - 1] == '/' {
            i - 1
        } else {
            i
        };
        proof {
            assert(chars@.take(i as int) =~= chars@.subrange(0, i as int));
            if i > 0 {
                assert(chars@.take(i as int).last() == chars@[i - 1]);
                assert(chars@.take(i as int).drop_last() =~= chars@.subrange(0, i - 1));
            }
        }
        text_of(&chars, 0, end)
    } else {
        String::from_str(uri)
    }
}

/// Whether a path counts towards the rate limit of the whole bot: all do but
/// the answers to interactions and the calls of webhooks.
pub open spec fn counts_globally(uri: Seq<char>) -> bool {
    !(starts_with(uri, "/interactions/"@) || starts_with(uri, "/webhooks/"@))
}

/// Tells whether a path counts towards the rate limit of the whole bot.
pub fn bound_to_global_limit(uri: &str) -> (r: bool)
    ensures
        r == counts_globally(uri@),
{
    let chars = chars_of(uri);
    if has_prefix(&chars, "/interactions/") || has_prefix(&chars, "/webhooks/") {
        false
    } else {
        true
    }
}

/// What is sent as the body of a request, and as what kind of content.
pub struct Payload {
    pub content_type: Option<&'static str>,
    pub bytes: Vec<u8>,
}

/// The part of a form that carries the JSON body.
pub open spec fn json_part(body: Seq<char>) -> Seq<u8> {
    encode_utf8(
        "--boundary\nContent-Disposition: form-data; name=\"payload_json\"\nContent-Type: application/json\n\n"@,
    ) + encode_utf8(body) + encode_utf8("\n"@)
}

/// The head of the part of a form that carries a file.
pub open spec fn file_head(i: nat, file: FileView) -> Seq<char> {
    "--boundary\nContent-Disposition: form-data; name=\"files["@ + decimal_text(i)
        + "]\"; filename=\""@ + file.name + "\"\nContent-Type: "@ + file.typ + "\n\n"@
}

/// The part of a form that carries a file.
pub open spec fn file_part(i: nat, file: FileView) -> Seq<u8> {
    encode_utf8(file_head(i, file)) + file.data + encode_utf8("\n"@)
}

/// The parts of a form that carry the first `n` files.
pub open spec fn file_parts(files: Seq<FileView>, n: int) -> Seq<u8>
    decreases n,
{
    if n <= 0 {
        Seq::empty()
    } else {
        file_parts(files, n - 1) + file_part((n - 1) as nat, files[n - 1])
    }
}

/// The form that carries a JSON body, if there is one, and files.
pub open spec fn form_of(body: Option<Seq<char>>, files: Seq<FileView>) -> Seq<u8> {
    (match body {
        Some(b) => json_part(b),
        None => Seq::empty(),
    }) + file_parts(files, files.len() as int) + encode_utf8("--boundary--\n"@)
}

/// Adds the bytes of a text.
pub fn push_text(bytes: &mut Vec<u8>, text: &str)
    ensures
        final(bytes)@ == old(bytes)@ + encode_utf8(text@),
{
    let ghost before = bytes@;
    bytes.extend_from_slice(text.as_bytes());
    assert(bytes@ =~= before + encode_utf8(text@));
}

/// Writes the form that carries a JSON body, if there is one, and files.
pub fn write_form(body: Option<&str>, files: &Vec<File>) -> (r: Vec<u8>)
    ensures
        r@ == form_of(
            match body {
                Some(b) => Some(b@),
                None => None,
            },
            file_views(files@),
        ),
{
    let mut bytes: Vec<u8> = Vec::new();
    match body {
        Some(b) => {
            push_text(
                &mut bytes,
                "--boundary\nContent-Disposition: form-data; name=\"payload_json\"\nContent-Type: application/json\n\n",
            );
            push_text(&mut bytes, b);
            push_text(&mut bytes, "\n");
            assert(bytes@ =~= json_part(b@));
        },
        None => {},
    }
    let ghost head = bytes@;
    let ghost views = file_views(files@);
    let mut i: usize = 0;
    assert(bytes@ =~= head + file_parts(views, 0));
    while i < files.len()
        invariant
            i <= files.len(),
            views == file_views(files@),
            bytes@ == head + file_parts(views, i as int),
        decreases files.len() - i,
    {
        let file = &files[i];
        let mut text = String::from_str("--boundary\nContent-Disposition: form-data; name=\"files[");
        push_decimal(&mut text, i as u64);
        text.append("]\"; filename=\"");
        text.append(file.name.as_str());
        text.append("\"\nContent-Type: ");
        text.append(file.typ.as_str());
        text.append("\n\n");
        assert(text@ =~= file_head(i as nat, views[i as int]));
        let ghost before = bytes@;
        push_text(&mut bytes, text.as_str());
        let ghost with_head = bytes@;
        bytes.extend_from_slice(file.data.as_slice());
        assert(bytes@ =~= with_head + file.data@);
        push_text(&mut bytes, "\n");
        assert(bytes@ =~= before + file_part(i as nat, views[i as int]));
        assert(bytes@ =~= head + file_parts(views, i + 1));
        i = i + 1;
    }
    push_text(&mut bytes, "--boundary--\n");
    bytes
}

/// Whether a kind of content is this one.
pub open spec fn kind_is(kind: Option<&'static str>, text: Option<Seq<char>>) -> bool {
    match (kind, text) {
        (Some(k), Some(t)) => k@ == t,
        (None, None) => true,
        _ => false,
    }
}

/// What is sent for a request: a form where there are files; else the JSON
/// body as it is; else nothing.
pub fn create_payload(body: Option<&str>, files: &Vec<File>) -> (r: Payload)
    ensures
        files@.len() > 0 ==> kind_is(r.content_type, Some("multipart/form-data; boundary=boundary"@))
            && r.bytes@ == form_of(
            match body {
                Some(b) => Some(b@),
                None => None,
            },
            file_views(files@),
        ),
        files@.len() == 0 ==> match body {
            Some(b) => kind_is(r.content_type, Some("application/json"@)) && r.bytes@ == encode_utf8(
                b@,
            ),
            None => kind_is(r.content_type, None) && r.bytes@.len() == 0,
        },
{
    if files.len() > 0 {
        Payload {
            content_type: Some("multipart/form-data; boundary=boundary"),
            bytes: write_form(body, files),
        }
    } else {
        match body {
            Some(b) => {
                let mut bytes: Vec<u8> = Vec::new();
                push_text(&mut bytes, b);
                assert(bytes@ =~= encode_utf8(b@));
                Payload { content_type: Some("application/json"), bytes }
            },
            None => Payload { content_type: None, bytes: Vec::new() },
        }
    }
}

} // verus!
