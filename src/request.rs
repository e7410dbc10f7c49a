use vstd::prelude::*;
use vstd::string::StringExecFns;

verus! {

/// What `sha1_smol` gives for a text: the lowercase hexadecimal SHA-1 digest of
/// its UTF-8 bytes.
pub uninterp spec fn sha1_hex(s: Seq<char>) -> Seq<char>;

/// Relies on `sha1_smol::Sha1::from(..).hexdigest()`: the digest depends on the
/// text alone and is written as forty hexadecimal digits.
#[verifier::external_body]
fn sha1_hexdigest(s: &str) -> (r: String)
    ensures
        r@ == sha1_hex(s@),
        r@.len() == 40,
{
    sha1_smol::Sha1::from(s).hexdigest()
}

/// The text that identifies the host: the machine id when it could be read,
/// the hostname otherwise.
pub open spec fn identity_source(machine_id: Option<Seq<char>>, hostname: Seq<char>) -> Seq<
    char,
> {
    match machine_id {
        Some(m) => m,
        None => hostname,
    }
}

/// The host's UUID: a digest of its machine id, or of its hostname where the
/// machine has no id, so that the id itself never leaves the host.
pub fn cget_uuid(machine_id: Option<&str>, hostname: &str) -> (r: String)
    ensures
        r@ == sha1_hex(
            identity_source(
                match machine_id {
                    Some(m) => Some(m@),
                    None => None,
                },
                hostname@,
            ),
        ),
{
    match machine_id {
        Some(m) => sha1_hexdigest(m),
        None => sha1_hexdigest(hostname),
    }
}

/// An endpoint with the host's UUID in its query.
pub open spec fn url_with_uuid(base: Seq<char>, uuid: Seq<char>) -> Seq<char> {
    base + "?uuid="@ + uuid
}

/// Appends the host's UUID to an endpoint, as the server expects it.
pub fn with_uuid(base: &str, uuid: &str) -> (r: String)
    ensures
        r@ == url_with_uuid(base@, uuid@),
{
    let mut url = base.to_owned();
    url.append("?uuid=");
    url.append(uuid);
    url
}

#[derive(Debug, Clone, Copy, PartialEq, Eq, Structural)]
pub enum Method {
    Post,
    Patch,
}

/// A request to the server, before the transport puts it on the wire.
pub struct RequestParts {
    pub method: Method,
    pub uri: String,
    pub headers: Vec<(String, String)>,
    pub body: String,
}

pub open spec fn header_views(h: Seq<(String, String)>) -> Seq<(Seq<char>, Seq<char>)> {
    h.map_values(|p: (String, String)| (p.0@, p.1@))
}

/// The headers of every request: a JSON body, and the agent's token.
pub open spec fn auth_headers(token: Seq<char>) -> Seq<(Seq<char>, Seq<char>)> {
    seq![("content-type"@, "application/json"@), ("SPTK"@, token)]
}

fn auth_header_list(token: &str) -> (r: Vec<(String, String)>)
    ensures
        header_views(r@) == auth_headers(token@),
{
    let mut headers: Vec<(String, String)> = Vec::new();
    headers.push(("content-type".to_owned(), "application/json".to_owned()));
    headers.push(("SPTK".to_owned(), token.to_owned()));
    assert(header_views(headers@) =~= auth_headers(token@));
    headers
}

/// The request that delivers a batch: a POST of `body` (the batch as JSON) to
/// `uri`, authenticated with `token`.
pub fn build_request(token: &str, uri: &str, body: String) -> (r: RequestParts)
    ensures
        r.method == Method::Post,
        r.uri@ == uri@,
        header_views(r.headers@) == auth_headers(token@),
        r.body == body,
{
    RequestParts { method: Method::Post, uri: uri.to_owned(), headers: auth_header_list(token), body }
}

/// The request that registers the host with the server: an empty PATCH to
/// `uri`, authenticated with `token`.
pub fn build_update(token: &str, uri: &str) -> (r: RequestParts)
    ensures
        r.method == Method::Patch,
        r.uri@ == uri@,
        header_views(r.headers@) == auth_headers(token@),
        r.body@ == Seq::<char>::empty(),
{
    RequestParts {
        method: Method::Patch,
        uri: uri.to_owned(),
        headers: auth_header_list(token),
        body: String::new(),
    }
}

} // verus!
