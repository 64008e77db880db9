//! Sending: what is settled about a request before it leaves, and what the
//! state keeps of the answer. The transfer itself is the caller's work: the
//! engine hands out the request and takes back the outcome.

use vstd::prelude::*;
use crate::headers::{stored, Header, HeaderView};
use crate::model::HttpMethod;
use crate::state::{length_text, App, ResponseMetadata};
use crate::text::{
    byte_len, copy_text, decimal, has_prefix, join, starts_with, text_is, text_of,
};

verus! {

/// What `Url::parse` and `Url::host_str` make of a URL: nothing where it does
/// not parse, else the host that it names, if it names one.
pub uninterp spec fn parsed_host(url: Seq<char>) -> Option<Option<Seq<char>>>;

/// A host lookup as plain values.
pub open spec fn host_view(host: Option<Option<Vec<char>>>) -> Option<Option<Seq<char>>> {
    match host {
        None => None,
        Some(None) => Some(None),
        Some(Some(name)) => Some(Some(name@)),
    }
}

/// Parses the URL with `reqwest::Url::parse` and reads the host with
/// `Url::host_str`. The outer `None` says that the text is no absolute URL,
/// the inner one that the URL names no host. The result is a function of the
/// text alone; the contract gives it the name `parsed_host` and says no more.
#[verifier::external_body]
pub(crate) fn url_host(url: &Vec<char>) -> (host: Option<Option<Vec<char>>>)
    ensures
        host_view(host) == parsed_host(url@),
{
    let text: String = url.iter().collect();
    match reqwest::Url::parse(&text) {
        Ok(parsed) => Some(parsed.host_str().map(|name| name.chars().collect())),
        Err(_) => None,
    }
}

/// Draws a random identifier with `uuid::Uuid::new_v4` and writes it out as
/// text. Nothing is claimed of the value: every call draws anew.
#[verifier::external_body]
pub(crate) fn fresh_token() -> (token: Vec<char>) {
    uuid::Uuid::new_v4().to_string().chars().collect()
}

/// The URL with `http://` put in front where it names no web scheme.
pub open spec fn with_scheme(url: Seq<char>) -> Seq<char> {
    if has_prefix(url, "http://"@) || has_prefix(url, "https://"@) {
        url
    } else {
        "http://"@ + url
    }
}

/// The headers after the three that follow from the request were brought up
/// to date: `Host` where the URL names one, a new `Random-Token`, and the
/// `Content-Length` of the body. Switches stay as they are.
pub open spec fn refreshed(
    rows: Seq<HeaderView>,
    host: Option<Option<Seq<char>>>,
    token: Seq<char>,
    body: Seq<char>,
) -> Seq<HeaderView> {
    let with_host = match host {
        Some(Some(name)) => stored(rows, "Host"@, name, None),
        _ => rows,
    };
    let with_token = stored(with_host, "Random-Token"@, token, None);
    stored(with_token, "Content-Length"@, length_text(body), None)
}

/// The value that a header goes out with: its own, unless it still holds a
/// placeholder that the request can fill in.
pub open spec fn wire_value(
    row: HeaderView,
    host: Option<Option<Seq<char>>>,
    body: Seq<char>,
) -> Seq<char> {
    if row.key == "Content-Length"@ && row.value == "<calculated>"@ {
        length_text(body)
    } else if row.key == "Host"@ && row.value == "<host of the machine>"@ {
        match host {
            Some(Some(name)) => name,
            Some(None) => Seq::empty(),
            None => row.value,
        }
    } else {
        row.value
    }
}

/// The headers that go out: those switched on, in order, with their wire
/// values.
pub open spec fn wire_headers(
    rows: Seq<HeaderView>,
    host: Option<Option<Seq<char>>>,
    body: Seq<char>,
) -> Seq<HeaderView>
    decreases rows.len(),
{
    if rows.len() == 0 {
        Seq::empty()
    } else if rows.last().enabled {
        wire_headers(rows.drop_last(), host, body).push(
            HeaderView {
                key: rows.last().key,
                value: wire_value(rows.last(), host, body),
                enabled: true,
            },
        )
    } else {
        wire_headers(rows.drop_last(), host, body)
    }
}

/// A request as it is handed to the transport.
#[derive(Debug)]
pub struct OutgoingRequest {
    pub method: HttpMethod,
    pub url: Vec<char>,
    pub headers: Vec<Header>,
    pub body: Option<Vec<char>>,
}

/// The answer to a request, as the transport reports it.
#[derive(Debug)]
pub struct Exchange {
    pub status: u16,
    pub status_text: String,
    pub headers: Vec<(String, String)>,
    pub body: String,
    pub elapsed_ms: u128,
    pub timestamp: i64,
}

/// How a dispatch ended.
#[derive(Debug)]
pub enum Outcome {
    /// The response arrived whole.
    Completed(Exchange),
    /// The response arrived, but its body could not be read.
    Unreadable(String),
    /// The request failed: timeout, connection or protocol error.
    Failed(String),
}

/// What staging does with a given host lookup and token: the headers are
/// refreshed and nothing else changes; the request carries the method, the URL
/// as it stands, the enabled headers with their wire values, and the body if
/// there is one.
pub open spec fn staged(
    pre: App,
    host: Option<Option<Seq<char>>>,
    token: Seq<char>,
    post: App,
    request: OutgoingRequest,
) -> bool {
    &&& post == (App { headers: post.headers, ..pre })
    &&& post.headers@ == refreshed(pre.headers@, host, token, pre.body@)
    &&& request.method == pre.method
    &&& request.url@ == pre.url@
    &&& request.headers.deep_view() == wire_headers(post.headers@, host, pre.body@)
    &&& match request.body {
        Some(body) => body@ == pre.body@ && pre.body@.len() > 0,
        None => pre.body@.len() == 0,
    }
}

/// What sending does to the state, for the token that was drawn: the URL
/// gets its scheme, and the request is staged with the host of that URL.
pub open spec fn sent(pre: App, token: Seq<char>, post: App, request: OutgoingRequest) -> bool {
    let url = with_scheme(pre.url@);
    let host = parsed_host(url);
    &&& post == (App { url: post.url, headers: post.headers, ..pre })
    &&& post.url@ == url
    &&& post.headers@ == refreshed(pre.headers@, host, token, pre.body@)
    &&& request.method == pre.method
    &&& request.url@ == url
    &&& request.headers.deep_view() == wire_headers(post.headers@, host, pre.body@)
    &&& match request.body {
        Some(body) => body@ == pre.body@ && pre.body@.len() > 0,
        None => pre.body@.len() == 0,
    }
}

/// What the state keeps of an outcome: a whole response replaces the last
/// one with its metadata; a failure leaves its message in the response area
/// and the metadata as they were.
pub open spec fn recorded(pre: App, outcome: Outcome, post: App) -> bool {
    &&& post == (App { response: post.response, response_metadata: post.response_metadata, ..pre })
    &&& post.response is Some
    &&& match outcome {
        Outcome::Completed(answer) => {
            &&& post.response == Some(answer.body)
            &&& post.response_metadata == Some(
                ResponseMetadata {
                    status: answer.status,
                    status_text: answer.status_text,
                    time_ms: answer.elapsed_ms,
                    size_bytes: vstd::utf8::encode_utf8(answer.body@).len() as usize,
                    response_headers: answer.headers,
                    timestamp: answer.timestamp,
                },
            )
        },
        Outcome::Unreadable(why) => {
            &&& post.response->0@ == "Error reading response: "@ + why@
            &&& post.response_metadata == pre.response_metadata
        },
        Outcome::Failed(why) => {
            &&& post.response->0@ == "Error: "@ + why@
            &&& post.response_metadata == pre.response_metadata
        },
    }
}

impl App {
    /// Settles the request being composed and hands it out for dispatch.
    pub fn send_request(&mut self) -> (request: OutgoingRequest)
        requires
            old(self).well_formed(),
        ensures
            final(self).well_formed(),
            exists|token: Seq<char>| #[trigger] sent(*old(self), token, *final(self), request),
    {
        RequestHandler::send_request(self)
    }
}

/// The sending of requests.
pub struct RequestHandler;

impl RequestHandler {
    /// Puts `http://` in front of a URL that names no web scheme.
    pub fn ensure_scheme(app: &mut App)
        ensures
            *final(app) == (App { url: final(app).url, ..*old(app) }),
            final(app).url@ == with_scheme(old(app).url@),
    {
        if !starts_with(&app.url, "http://") && !starts_with(&app.url, "https://") {
            app.url = join(&text_of("http://"), &app.url);
        }
    }

    /// Refreshes the headers that follow from the request, given the host of
    /// its URL and a new token, and hands out the request to dispatch.
    pub fn stage_request(app: &mut App, host: Option<Option<Vec<char>>>, token: Vec<char>) -> (request:
        OutgoingRequest)
        requires
            old(app).well_formed(),
        ensures
            final(app).well_formed(),
            staged(*old(app), host_view(host), token@, *final(app), request),
    {
        match &host {
            Some(Some(name)) => {
                app.headers.store(text_of("Host"), copy_text(name), None);
            },
            _ => {},
        }
        app.headers.store(text_of("Random-Token"), token, None);
        let size = decimal(byte_len(&app.body));
        app.headers.store(text_of("Content-Length"), copy_text(&size), None);

        let mut headers: Vec<Header> = Vec::new();
        let mut i: usize = 0;
        assert(app.headers@.subrange(0, 0) =~= Seq::<HeaderView>::empty());
        while i < app.headers.entries.len()
            invariant
                i <= app.headers.entries@.len(),
                size@ == length_text(app.body@),
                headers.deep_view() == wire_headers(
                    app.headers@.subrange(0, i as int),
                    host_view(host),
                    app.body@,
                ),
            decreases app.headers.entries@.len() - i,
        {
            let row = &app.headers.entries[i];
            proof {
                let next = app.headers@.subrange(0, i + 1);
                assert(next.drop_last() =~= app.headers@.subrange(0, i as int));
                assert(next.last() == row@);
            }
            if row.enabled {
                let value = if text_is(&row.key, "Content-Length") && text_is(
                    &row.value,
                    "<calculated>",
                ) {
                    copy_text(&size)
                } else if text_is(&row.key, "Host") && text_is(
                    &row.value,
                    "<host of the machine>",
                ) {
                    match &host {
                        Some(Some(name)) => copy_text(name),
                        Some(None) => Vec::new(),
                        None => copy_text(&row.value),
                    }
                } else {
                    copy_text(&row.value)
                };
                let ghost before = headers.deep_view();
                headers.push(Header { key: copy_text(&row.key), value, enabled: true });
                assert(headers.deep_view() =~= before.push(
                    HeaderView {
                        key: row@.key,
                        value: wire_value(row@, host_view(host), app.body@),
                        enabled: true,
                    },
                ));
            }
            i = i + 1;
        }
        assert(app.headers@.subrange(0, i as int) =~= app.headers@);
        let body = if app.body.len() > 0 {
            Some(copy_text(&app.body))
        } else {
            None
        };
        OutgoingRequest { method: app.method, url: copy_text(&app.url), headers, body }
    }

    /// Settles the request being composed and hands it out for dispatch: the
    /// URL gets its scheme, `Host`, `Random-Token` and `Content-Length` are
    /// refreshed, and the enabled headers go into the request.
    pub fn send_request(app: &mut App) -> (request: OutgoingRequest)
        requires
            old(app).well_formed(),
        ensures
            final(app).well_formed(),
            exists|token: Seq<char>| #[trigger] sent(*old(app), token, *final(app), request),
    {
        RequestHandler::ensure_scheme(app);
        let host = url_host(&app.url);
        let token = fresh_token();
        let ghost drawn = token@;
        let request = RequestHandler::stage_request(app, host, token);
        assert(sent(*old(app), drawn, *app, request));
        request
    }

    /// Takes in how the dispatch ended.
    pub fn record_outcome(app: &mut App, outcome: Outcome)
        ensures
            recorded(*old(app), outcome, *final(app)),
    {
        match outcome {
            Outcome::Completed(answer) => {
                let size = answer.body.as_str().len();
                app.response_metadata = Some(
                    ResponseMetadata {
                        status: answer.status,
                        status_text: answer.status_text,
                        time_ms: answer.elapsed_ms,
                        size_bytes: size,
                        response_headers: answer.headers,
                        timestamp: answer.timestamp,
                    },
                );
                app.response = Some(answer.body);
            },
            Outcome::Unreadable(why) => {
                let message = String::from_str("Error reading response: ").concat(why.as_str());
                app.response = Some(message);
            },
            Outcome::Failed(why) => {
                let message = String::from_str("Error: ").concat(why.as_str());
                app.response = Some(message);
            },
        }
    }
}

} // verus!
