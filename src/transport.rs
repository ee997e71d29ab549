use vstd::prelude::*;

verus! {

/// A failed HTTP exchange, with the transport's own account of it.
#[derive(Debug)]
pub enum HttpClientError {
    RequestFailed(String),
}

impl View for HttpClientError {
    type V = Seq<char>;

    open spec fn view(&self) -> Seq<char> {
        match self {
            HttpClientError::RequestFailed(detail) => detail@,
        }
    }
}

/// A realtime channel that could not be opened.
#[derive(Debug)]
pub enum WebsocketError {
    Connection(String),
}

impl View for WebsocketError {
    type V = Seq<char>;

    open spec fn view(&self) -> Seq<char> {
        match self {
            WebsocketError::Connection(detail) => detail@,
        }
    }
}

/// Opens the realtime channel at a given address.
pub trait WebsocketClient {
    fn connect(&mut self, server_url: &str) -> Result<(), WebsocketError>;
}

pub open spec fn http_reply_view(reply: Result<String, HttpClientError>) -> Result<Seq<char>, Seq<char>> {
    match reply {
        Ok(body) => Ok(body@),
        Err(e) => Err(e@),
    }
}

pub open spec fn connect_result_view(result: Result<(), WebsocketError>) -> Result<(), Seq<char>> {
    match result {
        Ok(()) => Ok(()),
        Err(e) => Err(e@),
    }
}

} // verus!
