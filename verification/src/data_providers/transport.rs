//! The plain values exchanged with whoever carries out the HTTP calls: the
//! request to send, the reply that came back, and what a reply amounts to.

use vstd::prelude::*;

verus! {

/// One observed execution of a pipeline or workflow. Histories are ordered
/// newest first.
#[derive(Debug, PartialEq, Eq)]
pub struct RunRecord {
    pub status: String,
    pub conclusion: Option<String>,
}

pub struct RunRecordView {
    pub status: Seq<char>,
    pub conclusion: Option<Seq<char>>,
}

impl View for RunRecord {
    type V = RunRecordView;

    open spec fn view(&self) -> RunRecordView {
        RunRecordView {
            status: self.status@,
            conclusion: match self.conclusion {
                Some(text) => Some(text@),
                None => None,
            },
        }
    }
}

/// The records of a history by their views.
pub open spec fn history_view(records: Seq<RunRecord>) -> Seq<RunRecordView> {
    records.map_values(|record: RunRecord| record@)
}

/// At most the two newest records of a history.
pub open spec fn window(history: Seq<RunRecordView>) -> Seq<RunRecordView> {
    if history.len() <= 2 {
        history
    } else {
        history.subrange(0, 2)
    }
}

/// Why the history of one repository could not be had.
#[derive(Debug, PartialEq, Eq)]
pub enum FetchError {
    /// The environment variable that holds the token is not set.
    MissingCredential { env: String },
    /// The repository is not written as `owner/repo`.
    InvalidRepoName { name: String },
    /// The request could not be carried out.
    Transport { message: String },
    /// The backend answered with a status outside 200..=299.
    Backend { status: u16, request_id: Option<String> },
    /// The body of the answer is not the expected document.
    Decode { message: String },
}

pub enum FetchErrorView {
    MissingCredential { env: Seq<char> },
    InvalidRepoName { name: Seq<char> },
    Transport { message: Seq<char> },
    Backend { status: u16, request_id: Option<Seq<char>> },
    Decode { message: Seq<char> },
}

impl View for FetchError {
    type V = FetchErrorView;

    open spec fn view(&self) -> FetchErrorView {
        match *self {
            FetchError::MissingCredential { env } => FetchErrorView::MissingCredential { env: env@ },
            FetchError::InvalidRepoName { name } => FetchErrorView::InvalidRepoName { name: name@ },
            FetchError::Transport { message } => FetchErrorView::Transport { message: message@ },
            FetchError::Backend { status, request_id } => FetchErrorView::Backend {
                status,
                request_id: match request_id {
                    Some(id) => Some(id@),
                    None => None,
                },
            },
            FetchError::Decode { message } => FetchErrorView::Decode { message: message@ },
        }
    }
}

/// A request that was made ready, or the reason why none was, by views.
pub open spec fn request_view(request: Result<HttpRequest, FetchError>) -> Result<
    HttpRequestView,
    FetchErrorView,
> {
    match request {
        Ok(request) => Ok(request@),
        Err(error) => Err(error@),
    }
}

/// A token, if there is one, by its characters.
pub open spec fn token_view(token: Option<&str>) -> Option<Seq<char>> {
    match token {
        Some(text) => Some(text@),
        None => None,
    }
}

/// A GET request.
#[derive(Debug, PartialEq, Eq)]
pub struct HttpRequest {
    pub url: String,
    pub headers: Vec<(String, String)>,
}

pub struct HttpRequestView {
    pub url: Seq<char>,
    pub headers: Seq<(Seq<char>, Seq<char>)>,
}

impl View for HttpRequest {
    type V = HttpRequestView;

    open spec fn view(&self) -> HttpRequestView {
        HttpRequestView {
            url: self.url@,
            headers: self.headers@.map_values(|header: (String, String)| (header.0@, header.1@)),
        }
    }
}

/// What came of sending a request.
#[derive(Debug, PartialEq, Eq)]
pub enum HttpReply {
    /// No answer was received, or its body could not be read.
    Failed { message: String },
    /// The backend answered. `records` is the decoded body, or why it could
    /// not be decoded.
    Answered { status: u16, request_id: Option<String>, records: Result<Vec<RunRecord>, String> },
}

/// Statuses 200 to 299.
pub open spec fn is_success(status: u16) -> bool {
    200 <= status < 300
}

/// What a reply amounts to: the records of a successful, well-formed
/// answer, and otherwise the first thing that went wrong.
pub open spec fn fetched(reply: HttpReply) -> Result<Vec<RunRecord>, FetchError> {
    match reply {
        HttpReply::Failed { message } => Err(FetchError::Transport { message }),
        HttpReply::Answered { status, request_id, records } => if !is_success(status) {
            Err(FetchError::Backend { status, request_id })
        } else {
            match records {
                Ok(history) => Ok(history),
                Err(message) => Err(FetchError::Decode { message }),
            }
        },
    }
}

pub fn records_from_reply(reply: HttpReply) -> (outcome: Result<Vec<RunRecord>, FetchError>)
    ensures
        outcome == fetched(reply),
{
    match reply {
        HttpReply::Failed { message } => Err(FetchError::Transport { message }),
        HttpReply::Answered { status, request_id, records } => {
            if status < 200 || status >= 300 {
                Err(FetchError::Backend { status, request_id })
            } else {
                match records {
                    Ok(history) => Ok(history),
                    Err(message) => Err(FetchError::Decode { message }),
                }
            }
        },
    }
}

/// Bytes that percent-encoding leaves as they are: ASCII letters and
/// digits, `-`, `.`, `_` and `~`.
pub open spec fn is_unreserved(byte: u8) -> bool {
    ||| 0x30 <= byte <= 0x39
    ||| 0x41 <= byte <= 0x5a
    ||| 0x61 <= byte <= 0x7a
    ||| byte == 0x2d
    ||| byte == 0x2e
    ||| byte == 0x5f
    ||| byte == 0x7e
}

/// The upper-case hexadecimal digit for a value below 16.
pub open spec fn hex_digit(nibble: u8) -> char {
    if nibble < 10 {
        ((0x30 + nibble) as u8) as char
    } else {
        ((0x41 + nibble - 10) as u8) as char
    }
}

pub open spec fn percent_encoded_byte(byte: u8) -> Seq<char> {
    if is_unreserved(byte) {
        seq![byte as char]
    } else {
        seq!['%', hex_digit(byte / 16), hex_digit(byte % 16)]
    }
}

pub open spec fn percent_encoded_bytes(bytes: Seq<u8>) -> Seq<char>
    decreases bytes.len(),
{
    if bytes.len() == 0 {
        Seq::empty()
    } else {
        percent_encoded_bytes(bytes.drop_last()) + percent_encoded_byte(bytes.last())
    }
}

/// The percent-encoding of the UTF-8 bytes of `text`.
pub open spec fn percent_encoded(text: Seq<char>) -> Seq<char> {
    percent_encoded_bytes(vstd::utf8::encode_utf8(text))
}

/// Calls `urlencoding::encode`, which percent-encodes every byte of the
/// UTF-8 form of its argument except ASCII letters, digits, `-`, `_`, `.`
/// and `~`: each other byte becomes `%` and two upper-case hexadecimal
/// digits. Trusted, not proved.
#[verifier::external_body]
pub(crate) fn percent_encode(text: &str) -> (encoded: String)
    ensures
        encoded@ == percent_encoded(text@),
{
    urlencoding::encode(text).into_owned()
}

} // verus!
