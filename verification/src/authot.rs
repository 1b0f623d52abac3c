pub mod authot_live_information;
pub mod start_recognition_information;
pub mod websocket_response;

use vstd::prelude::*;
use crate::authot::authot_live_information::AuthotLiveInformation;
use crate::decimal::{all_digits, decimal_digits, decimal_value, lemma_decimal_roundtrip, push_decimal};
use crate::parameters::WorkerParameters;

verus! {

/// A client of the Authot live transcription service, holding the access
/// token it sends with each request.
pub struct Authot {
    token: String,
}

/// The HTTP methods the client uses.
#[derive(PartialEq, Eq, Structural)]
pub enum HttpMethod {
    Get,
    Post,
}

/// An HTTP request to send to the service.
pub struct HttpRequest {
    pub method: HttpMethod,
    pub url: String,
    /// Header names and values, in order.
    pub headers: Vec<(String, String)>,
}

/// The address that creates a new French live stream, without translation.
pub open spec fn new_live_url(token: Seq<char>) -> Seq<char> {
    "https:///authot.live/api/streams/new?lang=fr&translation=false&access_token="@ + token
}

/// The address that describes the live stream `live_id`.
pub open spec fn live_information_url(live_id: u32) -> Seq<char> {
    "https://authot.live/api/streams/"@ + decimal_digits(live_id as nat) + "/info_stream"@
}

/// The websocket address of a live stream, with the access token appended.
pub open spec fn websocket_url(stream_url: Seq<char>, token: Seq<char>) -> Seq<char> {
    stream_url + "?access_token="@ + token
}

/// The address of a live stream's information names that stream alone:
/// two streams share it only if they are the same stream.
pub proof fn lemma_live_information_url_identifies_stream(a: u32, b: u32)
    requires
        live_information_url(a) == live_information_url(b),
    ensures
        a == b,
{
    let prefix = "https://authot.live/api/streams/"@;
    let suffix = "/info_stream"@;
    let url = live_information_url(a);
    let da = decimal_digits(a as nat);
    let db = decimal_digits(b as nat);
    assert(url.subrange(prefix.len() as int, url.len() - suffix.len()) =~= da);
    assert(live_information_url(b).subrange(
        prefix.len() as int,
        live_information_url(b).len() - suffix.len(),
    ) =~= db);
    lemma_decimal_roundtrip(a as nat);
    lemma_decimal_roundtrip(b as nat);
}

/// The information address of every stream is the same prefix, then the
/// stream's id written in decimal (digits only, reading back as the id),
/// then the same suffix `/info_stream`.
pub proof fn lemma_live_information_url_shape(live_id: u32)
    ensures
        ({
            let url = live_information_url(live_id);
            let prefix = "https://authot.live/api/streams/"@;
            let suffix = "/info_stream"@;
            let digits = url.subrange(prefix.len() as int, url.len() - suffix.len());
            &&& url.len() >= prefix.len() + suffix.len() + 1
            &&& url.subrange(0, prefix.len() as int) == prefix
            &&& url.subrange(url.len() - suffix.len(), url.len() as int) == suffix
            &&& all_digits(digits)
            &&& decimal_value(digits) == live_id
        }),
{
    let url = live_information_url(live_id);
    let prefix = "https://authot.live/api/streams/"@;
    let suffix = "/info_stream"@;
    let digits = decimal_digits(live_id as nat);
    lemma_decimal_roundtrip(live_id as nat);
    assert(url.subrange(0, prefix.len() as int) =~= prefix);
    assert(url.subrange(url.len() - suffix.len(), url.len() as int) =~= suffix);
    assert(url.subrange(prefix.len() as int, url.len() - suffix.len()) =~= digits);
}

/// The address that creates a live stream is the same for every token up
/// to the token itself, which it carries whole at its end.
pub proof fn lemma_new_live_url_keeps_whole_token(token: Seq<char>)
    ensures
        ({
            let url = new_live_url(token);
            let prefix = "https:///authot.live/api/streams/new?lang=fr&translation=false&access_token="@;
            &&& url.len() == prefix.len() + token.len()
            &&& url.subrange(0, prefix.len() as int) == prefix
            &&& url.subrange(prefix.len() as int, url.len() as int) == token
        }),
{
    let url = new_live_url(token);
    let prefix = "https:///authot.live/api/streams/new?lang=fr&translation=false&access_token="@;
    assert(url.subrange(0, prefix.len() as int) =~= prefix);
    assert(url.subrange(prefix.len() as int, url.len() as int) =~= token);
}

/// The websocket address keeps the stream address and the whole token: it
/// is the stream address, then `?access_token=`, then the token, whatever
/// their lengths.
pub proof fn lemma_websocket_url_keeps_whole_token(stream_url: Seq<char>, token: Seq<char>)
    ensures
        ({
            let url = websocket_url(stream_url, token);
            let separator = "?access_token="@;
            &&& url.len() == stream_url.len() + separator.len() + token.len()
            &&& url.subrange(0, stream_url.len() as int) == stream_url
            &&& url.subrange(stream_url.len() as int, (stream_url.len() + separator.len()) as int)
                == separator
            &&& url.subrange(url.len() - token.len(), url.len() as int) == token
        }),
{
    let url = websocket_url(stream_url, token);
    let separator = "?access_token="@;
    assert(url.subrange(0, stream_url.len() as int) =~= stream_url);
    assert(url.subrange(stream_url.len() as int, (stream_url.len() + separator.len()) as int)
        =~= separator);
    assert(url.subrange(url.len() - token.len(), url.len() as int) =~= token);
}

impl Authot {
    /// The access token of the client.
    pub closed spec fn token(&self) -> Seq<char> {
        self.token@
    }

    /// A client for the job's parameters; without a token it sends an
    /// empty one.
    pub fn new(parameters: &WorkerParameters) -> (authot: Authot)
        ensures
            authot.token() == match parameters.authot_token {
                Some(token) => token@,
                None => Seq::<char>::empty(),
            },
    {
        let token = match &parameters.authot_token {
            Some(token) => token.clone(),
            None => String::new(),
        };
        Authot { token }
    }

    /// The access token of the client.
    pub fn access_token(&self) -> (token: &String)
        ensures
            token@ == self.token(),
    {
        &self.token
    }

    /// The request that creates a new live stream.
    pub fn new_live_request(&self) -> (request: HttpRequest)
        ensures
            request.method == HttpMethod::Post,
            request.url@ == new_live_url(self.token()),
            request.headers@.len() == 0,
    {
        let mut url = String::from_str(
            "https:///authot.live/api/streams/new?lang=fr&translation=false&access_token=",
        );
        url.append(self.token.as_str());
        HttpRequest { method: HttpMethod::Post, url, headers: Vec::new() }
    }

    /// The request that asks for the state of the live stream `live_id`; it
    /// carries the token in the `access-token` header.
    pub fn live_information_request(&self, live_id: u32) -> (request: HttpRequest)
        ensures
            request.method == HttpMethod::Get,
            request.url@ == live_information_url(live_id),
            request.headers@.len() == 1,
            request.headers@[0].0@ == "access-token"@,
            request.headers@[0].1@ == self.token(),
    {
        let mut url = String::from_str("https://authot.live/api/streams/");
        push_decimal(&mut url, live_id);
        url.append("/info_stream");
        let mut headers: Vec<(String, String)> = Vec::new();
        headers.push((String::from_str("access-token"), self.token.clone()));
        HttpRequest { method: HttpMethod::Get, url, headers }
    }

    /// The websocket address of a live stream whose information gives its
    /// address.
    pub fn get_websocket_url(&self, live_information: &AuthotLiveInformation) -> (url: String)
        requires
            live_information.url is Some,
        ensures
            url@ == websocket_url(live_information.url.unwrap()@, self.token()),
    {
        let mut url = match &live_information.url {
            Some(stream_url) => stream_url.clone(),
            None => String::new(),
        };
        url.append("?access_token=");
        url.append(self.token.as_str());
        url
    }
}

} // verus!
