//! The parts of an HTTP response, collected before the response is built.

use crate::http::cookie::Cookie;
use vstd::prelude::*;

verus! {

/// A response in the making: status code, body, cookies and headers.
pub struct ResponseBuilder<T> {
    pub code: u16,
    pub body: T,
    pub cookies: Vec<Cookie>,
    pub headers: Vec<(String, String)>,
}

impl<T> ResponseBuilder<T> {
    /// Adds the cookies after those already there, in their order.
    pub fn with_cookies(self, cookies: Vec<Cookie>) -> (builder: ResponseBuilder<T>)
        ensures
            builder.code == self.code,
            builder.body == self.body,
            builder.cookies@ == self.cookies@ + cookies@,
            builder.headers@ == self.headers@,
    {
        let mut builder = self;
        let mut cookies = cookies;
        builder.cookies.append(&mut cookies);
        builder
    }

    /// Adds the headers after those already there, in their order.
    pub fn with_headers(self, headers: Vec<(String, String)>) -> (builder: ResponseBuilder<T>)
        ensures
            builder.code == self.code,
            builder.body == self.body,
            builder.cookies@ == self.cookies@,
            builder.headers@ == self.headers@ + headers@,
    {
        let mut builder = self;
        let mut headers = headers;
        builder.headers.append(&mut headers);
        builder
    }
}

/// What can be the body of a response.
pub trait Response: Sized {
    /// Starts a response with this value as its body, and no cookies or
    /// headers yet.
    fn to_response(self, code: u16) -> (builder: ResponseBuilder<Self>)
        ensures
            builder.code == code,
            builder.body == self,
            builder.cookies@ == Seq::<Cookie>::empty(),
            builder.headers@ == Seq::<(String, String)>::empty(),
    {
        ResponseBuilder { code, body: self, cookies: Vec::new(), headers: Vec::new() }
    }
}

/// Holds a single message.
#[derive(Debug)]
pub struct MessageResponse {
    pub message: String,
}

impl MessageResponse {
    pub fn new(message: &str) -> (response: MessageResponse)
        ensures
            response.message@ == message@,
    {
        MessageResponse { message: String::from_str(message) }
    }
}

impl Response for MessageResponse {

}

} // verus!
