use vstd::prelude::*;
use reqwest::header::HeaderMap;
use crate::util::header_map::{header_map_clone, header_map_values};
use crate::util::json_extract::{JsonModel, JsonValue};

verus! {

/// The HTTP method of an endpoint.
#[derive(Debug, PartialEq, Eq, Structural, Clone, Copy)]
#[allow(non_camel_case_types, clippy::upper_case_acronyms)]
pub enum EndpointType {
    POST,
    GET,
}

/// Something that can be sent as an HTTP request: where, what, with which
/// headers and method.
pub trait IntoHttpRequest {
    spec fn spec_url(&self) -> Seq<char>;

    spec fn spec_data(&self) -> JsonModel;

    spec fn spec_headers(&self) -> Option<Map<Seq<char>, Seq<Seq<u8>>>>;

    spec fn spec_endpoint_type(&self) -> EndpointType;

    fn get_url(&self) -> (r: String)
        ensures
            r@ == self.spec_url(),
    ;

    fn get_data(&self) -> (r: JsonValue)
        ensures
            r@ == self.spec_data(),
    ;

    fn get_headers(&self) -> (r: Option<HeaderMap>)
        ensures
            match r {
                Some(m) => self.spec_headers() == Some(header_map_values(m)),
                None => self.spec_headers() is None,
            },
    ;

    fn get_endpoint_type(&self) -> (r: EndpointType)
        ensures
            r == self.spec_endpoint_type(),
    ;
}

/// A request spelled out in full.
pub struct EndpointUrlAndData {
    pub url: String,
    pub data: JsonValue,
    pub headers: HeaderMap,
    pub endpoint_type: EndpointType,
}

impl IntoHttpRequest for EndpointUrlAndData {
    open spec fn spec_url(&self) -> Seq<char> {
        self.url@
    }

    open spec fn spec_data(&self) -> JsonModel {
        self.data@
    }

    open spec fn spec_headers(&self) -> Option<Map<Seq<char>, Seq<Seq<u8>>>> {
        Some(header_map_values(self.headers))
    }

    open spec fn spec_endpoint_type(&self) -> EndpointType {
        self.endpoint_type
    }

    fn get_url(&self) -> (r: String)
        ensures
            r@ == self.url@,
    {
        self.url.clone()
    }

    fn get_data(&self) -> (r: JsonValue)
        ensures
            r@ == self.data@,
    {
        self.data.duplicate()
    }

    fn get_headers(&self) -> (r: Option<HeaderMap>)
        ensures
            r matches Some(m) && header_map_values(m) == header_map_values(self.headers),
    {
        Some(header_map_clone(&self.headers))
    }

    fn get_endpoint_type(&self) -> (r: EndpointType)
        ensures
            r == self.endpoint_type,
    {
        match self.endpoint_type {
            EndpointType::POST => EndpointType::POST,
            EndpointType::GET => EndpointType::GET,
        }
    }
}

/// An endpoint spelled out in full is sent as it says: to its URL, with its
/// data, its headers and the method it holds.
pub proof fn law_endpoint_sent_as_held(e: EndpointUrlAndData)
    ensures
        e.spec_endpoint_type() == e.endpoint_type,
        e.spec_url() == e.url@,
        e.spec_data() == e.data@,
        e.spec_headers() == Some(header_map_values(e.headers)),
{
}

} // verus!
