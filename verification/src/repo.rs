//! What is done with the lines once they are read: a repository is asked
//! for at a hosting service. The request itself is the driver's business;
//! here are the values it is made from and the decisions around it.

use reqwest::header::HeaderValue;
use vstd::prelude::*;
use vstd::string::{StrSliceExecFns, StringExecFns};
use vstd::utf8::encode_utf8;

verus! {

/// The options of the command line.
#[derive(Clone, Debug, PartialEq, Eq)]
pub struct Cli {
    /// The personal access token that authorises the request.
    pub token: String,
}

/// The body of the request that creates a repository.
#[derive(Clone, Debug, PartialEq, Eq)]
pub struct RepoRequest {
    pub name: String,
    pub description: Option<String>,
    pub private: bool,
    /// Whether the repository is created with a first commit.
    pub auto_init: bool,
}

/// What the service answers when the repository was created.
#[derive(Clone, Debug, PartialEq, Eq)]
pub struct RepoResponse {
    pub html_url: String,
}

/// How the service answered, as far as the outcome depends on it.
#[derive(Clone, Debug, PartialEq, Eq)]
pub enum ApiReply {
    /// A success status, with the body read as a response.
    Created(RepoResponse),
    /// Any other status, with the text of the body.
    Refused(String),
}

/// Why no repository was created.
#[derive(Clone, Debug, PartialEq, Eq)]
pub enum RepoError {
    /// The token cannot stand in a header.
    InvalidToken,
    /// The service refused, with this message.
    Api(String),
}

/// The characters of an optional text.
pub open spec fn text_view(text: Option<String>) -> Option<Seq<char>> {
    match text {
        Some(t) => Some(t@),
        None => None,
    }
}

impl RepoError {
    /// The message of the error.
    pub open spec fn spec_message(self) -> Seq<char> {
        match self {
            RepoError::InvalidToken => "failed to parse header value"@,
            RepoError::Api(text) => "GitHub API error: "@ + text@,
        }
    }

    /// The message of the error.
    pub fn message(&self) -> (message: String)
        ensures
            message@ == self.spec_message(),
    {
        match self {
            RepoError::InvalidToken => String::from_str("failed to parse header value"),
            RepoError::Api(text) => String::from_str("GitHub API error: ").concat(text.as_str()),
        }
    }
}

impl RepoRequest {
    /// The request for a repository of the given name; it is always created
    /// with a first commit.
    pub fn new(name: &str, description: &Option<String>, private: bool) -> (request: RepoRequest)
        ensures
            request.name@ == name@,
            text_view(request.description) == text_view(*description),
            request.private == private,
            request.auto_init,
    {
        let description = match description {
            Some(text) => Some(text.clone()),
            None => None,
        };
        RepoRequest { name: name.to_owned(), description, private, auto_init: true }
    }
}

/// The description that an input line stands for: none where the line is
/// empty.
pub fn description_of(input: String) -> (description: Option<String>)
    ensures
        text_view(description) == if input@.len() == 0 {
            None
        } else {
            Some(input@)
        },
{
    if input.as_str().is_empty() {
        None
    } else {
        Some(input)
    }
}

/// Whether an answer to "private?" asks for a private repository: every
/// answer does, the empty one too, but `n` and `N`.
pub open spec fn spec_wants_private(answer: Seq<char>) -> bool {
    !(answer.len() == 1 && (answer[0] == 'n' || answer[0] == 'N'))
}

/// Whether an answer to "private?" asks for a private repository.
pub fn wants_private(answer: &str) -> (private: bool)
    ensures
        private == spec_wants_private(answer@),
{
    if answer.unicode_len() == 1 {
        let c = answer.get_char(0);
        !(c == 'n' || c == 'N')
    } else {
        true
    }
}

/// The word for the visibility of a repository.
pub fn visibility(private: bool) -> (word: &'static str)
    ensures
        word@ == if private {
            "private"@
        } else {
            "public"@
        },
{
    if private {
        "private"
    } else {
        "public"
    }
}

/// Whether a byte may stand in the value of a header: no control character
/// but the tabulator.
pub open spec fn header_byte(b: u8) -> bool {
    (b >= 32 && b != 127) || b == 9
}

/// Whether a text may stand as the value of a header: every byte of its
/// UTF-8 encoding may.
pub open spec fn header_text(text: Seq<char>) -> bool {
    forall|i: int|
        0 <= i < encode_utf8(text).len() ==> header_byte(#[trigger] encode_utf8(text)[i])
}

/// Trusted: `reqwest::header::HeaderValue::from_str`, of which only success
/// is kept. It goes through the bytes of the string and fails if and only
/// if one of them is below 32 and not the tabulator, or is 127.
#[verifier::external_body]
fn accepted_as_header(text: &str) -> (accepted: bool)
    ensures
        accepted == header_text(text@),
{
    HeaderValue::from_str(text).is_ok()
}

/// The value of the authorization header for a token, if the token can
/// stand in a header.
pub fn authorization(token: &str) -> (value: Result<String, RepoError>)
    ensures
        match value {
            Ok(text) => text@ == "Bearer "@ + token@ && header_text(text@),
            Err(e) => e == RepoError::InvalidToken && !header_text("Bearer "@ + token@),
        },
{
    let text = String::from_str("Bearer ").concat(token);
    if accepted_as_header(text.as_str()) {
        Ok(text)
    } else {
        Err(RepoError::InvalidToken)
    }
}

/// What the request comes to: the address of the repository, or the
/// refusal of the service as an error.
pub fn outcome(reply: ApiReply) -> (created: Result<String, RepoError>)
    ensures
        match reply {
            ApiReply::Created(response) => created matches Ok(url) && url@ == response.html_url@,
            ApiReply::Refused(text) => created matches Err(RepoError::Api(message)) && message@
                == text@,
        },
{
    match reply {
        ApiReply::Created(response) => Ok(response.html_url),
        ApiReply::Refused(text) => Err(RepoError::Api(text)),
    }
}

/// What `str::replace` of the standard library returns for a text, a
/// pattern and a replacement: the text with the matches of the pattern
/// replaced.
pub uninterp spec fn replaced(text: Seq<char>, pattern: Seq<char>, to: Seq<char>) -> Seq<char>;

/// Trusted: `str::replace` of the standard library, whose result depends
/// on the text, the pattern and the replacement alone.
#[verifier::external_body]
fn replace(text: &str, pattern: &str, to: &str) -> (result: String)
    ensures
        result@ == replaced(text@, pattern@, to@),
{
    text.replace(pattern, to)
}

/// The address under which a repository is cloned over SSH, given the
/// address of its page: the host part is rewritten, and the address ends
/// in `.git` once.
pub open spec fn spec_clone_address(html_url: Seq<char>) -> Seq<char> {
    replaced(replaced(html_url, "https://github.com/"@, "git@github.com:"@), ".git"@, ""@)
        + ".git"@
}

/// Appends `.git` to an address.
pub fn with_git_suffix(address: String) -> (full: String)
    ensures
        full@ == address@ + ".git"@,
{
    address.concat(".git")
}

/// The address under which a repository is cloned over SSH.
pub fn clone_address(html_url: &str) -> (address: String)
    ensures
        address@ == spec_clone_address(html_url@),
{
    let over_ssh = replace(html_url, "https://github.com/", "git@github.com:");
    let bare = replace(over_ssh.as_str(), ".git", "");
    with_git_suffix(bare)
}

} // verus!
