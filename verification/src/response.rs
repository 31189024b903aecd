use crate::error::WebError;
use crate::headers::{
    canonical_header_name, checked_status, content_type_name, empty_header_map,
    header_map_entries, header_map_takes, header_name_text, header_value_bytes, is_header_value,
    is_status_code, is_visible_text, location_name, no_entries, parse_header_name,
    parse_header_value, static_header_value, text_bytes, try_append, url_as_str, url_text,
    with_appended, www_authenticate_name, Entries,
};
use axum::http::header::{
    HeaderMap, HeaderName, HeaderValue, InvalidHeaderName, InvalidHeaderValue, MaxSizeReached,
};
use oxide_auth::frontends::dev::Url;
use vstd::prelude::*;
use vstd::string::StringSliceAdditionalSpecFns;

verus! {

/// A status code: a number of three decimal digits.
#[derive(Debug)]
struct Code {
    number: u16,
}

impl Code {
    #[verifier::type_invariant]
    spec fn valid(self) -> bool {
        is_status_code(self.number)
    }
}

/// A response under construction: a status code, the headers, which may
/// repeat, and a body.
#[derive(Debug)]
pub struct OAuthResponse<T> {
    status: Code,
    headers: HeaderMap<HeaderValue>,
    body: T,
}

/// What `header` and its kin leave behind: the value added under the name
/// where the call succeeded, the headers untouched where it failed.
pub open spec fn header_outcome(
    before: Entries,
    after: Entries,
    name: Seq<char>,
    value: Seq<u8>,
    r: Result<(), WebError>,
) -> bool {
    match r {
        Ok(_) => after == with_appended(before, name, value),
        Err(e) => e == WebError::EncodeResponse && after == before,
    }
}

/// What an attempt to append to the header map means for the response: an
/// entry that went in is a success, a map that took no more is an encoding
/// error.
pub fn append_result(attempt: Result<bool, MaxSizeReached>) -> (r: Result<(), WebError>)
    ensures
        r is Ok <==> attempt is Ok,
        r matches Err(e) ==> e == WebError::EncodeResponse,
{
    match attempt {
        Ok(_) => Ok(()),
        Err(_) => Err(WebError::EncodeResponse),
    }
}

impl<T> OAuthResponse<T> {
    /// The status code.
    pub closed spec fn status_value(self) -> u16 {
        self.status.number
    }

    /// The header map.
    pub closed spec fn header_map(self) -> HeaderMap<HeaderValue> {
        self.headers
    }

    /// The headers: under each name its values, in the order they were added.
    pub open spec fn header_entries(self) -> Entries {
        header_map_entries(self.header_map())
    }

    /// Whether the header map takes one more value under the name.
    pub open spec fn takes_header(self, name: Seq<char>) -> bool {
        header_map_takes(self.header_map(), name)
    }

    /// The body.
    pub closed spec fn body_value(self) -> T {
        self.body
    }

    /// Whether two responses differ in their headers at most.
    pub open spec fn same_but_headers(self, other: Self) -> bool {
        self.status_value() == other.status_value() && self.body_value() == other.body_value()
    }

    /// A response of the given parts. A number that is no status code is
    /// refused.
    pub fn from_parts(status: u16, headers: HeaderMap<HeaderValue>, body: T) -> (r: Result<
        Self,
        WebError,
    >)
        ensures
            r is Ok <==> is_status_code(status),
            r matches Err(e) ==> e == WebError::EncodeResponse,
            r matches Ok(response) ==> {
                &&& response.status_value() == status
                &&& response.header_map() == headers
                &&& response.body_value() == body
            },
    {
        match checked_status(status) {
            Ok(code) => Ok(OAuthResponse { status: Code { number: code }, headers, body }),
            Err(_) => Err(WebError::EncodeResponse),
        }
    }

    /// Takes the response apart into its status code, headers and body.
    pub fn into_parts(self) -> (r: (u16, HeaderMap<HeaderValue>, T))
        ensures
            is_status_code(r.0),
            r.0 == self.status_value(),
            r.1 == self.header_map(),
            r.2 == self.body_value(),
    {
        proof {
            use_type_invariant(&self.status);
        }
        (self.status.number, self.headers, self.body)
    }

    /// The status code of the response.
    pub fn status_code(&self) -> (r: u16)
        ensures
            is_status_code(r),
            r == self.status_value(),
    {
        proof {
            use_type_invariant(&self.status);
        }
        self.status.number
    }

    /// The headers of the response.
    pub fn headers(&self) -> (r: &HeaderMap<HeaderValue>)
        ensures
            *r == self.header_map(),
    {
        &self.headers
    }

    /// The body of the response.
    pub fn body_ref(&self) -> (r: &T)
        ensures
            *r == self.body_value(),
    {
        &self.body
    }

    /// Adds a value under a name, if the header map takes it; if not, the
    /// response is as it was.
    fn append(&mut self, name: HeaderName, value: HeaderValue) -> (r: Result<(), WebError>)
        ensures
            final(self).same_but_headers(*old(self)),
            r is Ok <==> old(self).takes_header(header_name_text(name)),
            header_outcome(
                old(self).header_entries(),
                final(self).header_entries(),
                header_name_text(name),
                header_value_bytes(value),
                r,
            ),
    {
        let attempt = try_append(&mut self.headers, name, value);
        append_result(attempt)
    }

    /// Adds the header that two conversions have given. It is refused where
    /// either of them failed or where the header map takes no value under the
    /// name, and nowhere else; the response is then as it was.
    pub fn header_from(
        &mut self,
        name: Result<HeaderName, InvalidHeaderName>,
        value: Result<HeaderValue, InvalidHeaderValue>,
    ) -> (r: Result<(), WebError>)
        ensures
            final(self).same_but_headers(*old(self)),
            r is Ok <==> name is Ok && value is Ok && old(self).takes_header(
                header_name_text(name->Ok_0),
            ),
            match r {
                Ok(_) => final(self).header_entries() == with_appended(
                    old(self).header_entries(),
                    header_name_text(name->Ok_0),
                    header_value_bytes(value->Ok_0),
                ),
                Err(e) => e == WebError::EncodeResponse && final(self).header_entries() == old(
                    self,
                ).header_entries(),
            },
    {
        let name = match name {
            Ok(name) => name,
            Err(_) => {
                return Err(WebError::EncodeResponse);
            },
        };
        let value = match value {
            Ok(value) => value,
            Err(_) => {
                return Err(WebError::EncodeResponse);
            },
        };
        self.append(name, value)
    }

    /// Adds a header to the response. The name is stored in its canonical
    /// form, the value behind those that the name already has. A name or a
    /// value that HTTP does not admit is refused, and so is an entry that the
    /// header map has no room for; the response is then as it was.
    pub fn header(&mut self, key: &str, value: &str) -> (r: Result<(), WebError>)
        ensures
            final(self).same_but_headers(*old(self)),
            r is Ok <==> canonical_header_name(key@) is Some && is_header_value(value.spec_bytes())
                && old(self).takes_header(canonical_header_name(key@)->Some_0),
            match r {
                Ok(_) => final(self).header_entries() == with_appended(
                    old(self).header_entries(),
                    canonical_header_name(key@)->Some_0,
                    value.spec_bytes(),
                ),
                Err(e) => e == WebError::EncodeResponse && final(self).header_entries() == old(
                    self,
                ).header_entries(),
            },
    {
        self.header_from(parse_header_name(key), parse_header_value(value))
    }

    /// Sets the status code of the response, if `status` is one: a number of
    /// three decimal digits. Any other is refused and changes nothing.
    pub fn status(&mut self, status: u16) -> (r: Result<(), WebError>)
        ensures
            r is Ok <==> is_status_code(status),
            r matches Err(e) ==> e == WebError::EncodeResponse,
            final(self).status_value() == if is_status_code(status) {
                status
            } else {
                old(self).status_value()
            },
            final(self).header_map() == old(self).header_map(),
            final(self).body_value() == old(self).body_value(),
    {
        match checked_status(status) {
            Ok(code) => {
                self.status = Code { number: code };
                Ok(())
            },
            Err(_) => Err(WebError::EncodeResponse),
        }
    }

    /// Adds a `content-type` header to the response.
    pub fn content_type(&mut self, content_type: &str) -> (r: Result<(), WebError>)
        ensures
            final(self).same_but_headers(*old(self)),
            r is Ok <==> is_header_value(content_type.spec_bytes()) && old(self).takes_header(
                "content-type"@,
            ),
            header_outcome(
                old(self).header_entries(),
                final(self).header_entries(),
                "content-type"@,
                content_type.spec_bytes(),
                r,
            ),
    {
        self.header_from(Ok(content_type_name()), parse_header_value(content_type))
    }

    /// Sets the body of the response.
    pub fn body(&mut self, body: T)
        ensures
            final(self).body_value() == body,
            final(self).status_value() == old(self).status_value(),
            final(self).header_map() == old(self).header_map(),
    {
        self.body = body;
    }
}

impl OAuthResponse<String> {
    /// Marks the response as a success: `200 OK`.
    pub fn ok(&mut self) -> (r: Result<(), WebError>)
        ensures
            r is Ok,
            final(self).status_value() == 200,
            final(self).header_map() == old(self).header_map(),
            final(self).body_value() == old(self).body_value(),
    {
        self.status(200)
    }

    /// Turns the response into a redirect: `302 Found`, with the URL added
    /// as a `location` header. The status is set even where the header is
    /// refused.
    pub fn redirect(&mut self, url: Url) -> (r: Result<(), WebError>)
        ensures
            final(self).status_value() == 302,
            final(self).body_value() == old(self).body_value(),
            r is Ok <==> is_header_value(text_bytes(url_text(url))) && old(self).takes_header(
                "location"@,
            ),
            header_outcome(
                old(self).header_entries(),
                final(self).header_entries(),
                "location"@,
                text_bytes(url_text(url)),
                r,
            ),
    {
        match self.status(302) {
            Ok(_) => {},
            Err(e) => {
                return Err(e);
            },
        }
        self.header_from(Ok(location_name()), parse_header_value(url_as_str(&url)))
    }

    /// Marks the response as a fault of the client: `400 Bad Request`.
    pub fn client_error(&mut self) -> (r: Result<(), WebError>)
        ensures
            r is Ok,
            final(self).status_value() == 400,
            final(self).header_map() == old(self).header_map(),
            final(self).body_value() == old(self).body_value(),
    {
        self.status(400)
    }

    /// Asks the client to authenticate: `401 Unauthorized`, with the kind of
    /// authentication added as a `www-authenticate` header. The status is set
    /// even where the header is refused.
    pub fn unauthorized(&mut self, kind: &str) -> (r: Result<(), WebError>)
        ensures
            final(self).status_value() == 401,
            final(self).body_value() == old(self).body_value(),
            r is Ok <==> is_header_value(kind.spec_bytes()) && old(self).takes_header(
                "www-authenticate"@,
            ),
            header_outcome(
                old(self).header_entries(),
                final(self).header_entries(),
                "www-authenticate"@,
                kind.spec_bytes(),
                r,
            ),
    {
        match self.status(401) {
            Ok(_) => {},
            Err(e) => {
                return Err(e);
            },
        }
        self.header_from(Ok(www_authenticate_name()), parse_header_value(kind))
    }

    /// Makes the text the body and adds the header `content-type:
    /// text/plain`. The body is set even where the header is refused.
    pub fn body_text(&mut self, text: &str) -> (r: Result<(), WebError>)
        ensures
            final(self).status_value() == old(self).status_value(),
            final(self).body_value()@ == text@,
            r is Ok <==> old(self).takes_header("content-type"@),
            header_outcome(
                old(self).header_entries(),
                final(self).header_entries(),
                "content-type"@,
                "text/plain".spec_bytes(),
                r,
            ),
    {
        self.body(text.to_owned());
        proof {
            lemma_text_plain_is_visible();
        }
        self.header_from(Ok(content_type_name()), Ok(static_header_value("text/plain")))
    }

    /// Makes the JSON text the body and adds the header `content-type:
    /// application/json`. The body is set even where the header is refused.
    pub fn body_json(&mut self, json: &str) -> (r: Result<(), WebError>)
        ensures
            final(self).status_value() == old(self).status_value(),
            final(self).body_value()@ == json@,
            r is Ok <==> old(self).takes_header("content-type"@),
            header_outcome(
                old(self).header_entries(),
                final(self).header_entries(),
                "content-type"@,
                "application/json".spec_bytes(),
                r,
            ),
    {
        self.body(json.to_owned());
        proof {
            lemma_application_json_is_visible();
        }
        self.header_from(Ok(content_type_name()), Ok(static_header_value("application/json")))
    }
}

/// The media type of plain text is visible ASCII.
proof fn lemma_text_plain_is_visible()
    ensures
        is_visible_text("text/plain".spec_bytes()),
{
    broadcast use vstd::string::is_ascii_spec_bytes;

    reveal_strlit("text/plain");
    assert(vstd::string::is_ascii("text/plain"));
}

/// The media type of JSON is visible ASCII.
proof fn lemma_application_json_is_visible()
    ensures
        is_visible_text("application/json".spec_bytes()),
{
    broadcast use vstd::string::is_ascii_spec_bytes;

    reveal_strlit("application/json");
    assert(vstd::string::is_ascii("application/json"));
}

impl<T: Default> Default for OAuthResponse<T> {
    /// The response `200 OK` without headers, with the default body.
    fn default() -> (r: Self)
        ensures
            r.status_value() == 200,
            r.header_entries() == no_entries(),
            call_ensures(T::default, (), r.body_value()),
    {
        OAuthResponse { status: Code { number: 200 }, headers: empty_header_map(), body: T::default() }
    }
}

} // verus!
