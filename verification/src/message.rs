use crate::error::{ErrorView, UnicomError};
use crate::names::same_text;
use vstd::prelude::*;

verus! {

/// The verbs under which an API answers.
#[derive(Clone, Copy, Debug, PartialEq, Eq, Hash, Structural)]
pub enum UnicomMethod {
    Get,
    Post,
    Put,
    Delete,
}

impl UnicomMethod {
    /// The verb as it is written: in a request, and as the name of the
    /// handler's attribute that serves it.
    pub open spec fn spec_name(self) -> Seq<char> {
        match self {
            UnicomMethod::Get => "GET"@,
            UnicomMethod::Post => "POST"@,
            UnicomMethod::Put => "PUT"@,
            UnicomMethod::Delete => "DELETE"@,
        }
    }

    /// The verb that `text` writes, if it writes one.
    pub open spec fn spec_parse(text: Seq<char>) -> Option<UnicomMethod> {
        if text == "GET"@ {
            Some(UnicomMethod::Get)
        } else if text == "POST"@ {
            Some(UnicomMethod::Post)
        } else if text == "PUT"@ {
            Some(UnicomMethod::Put)
        } else if text == "DELETE"@ {
            Some(UnicomMethod::Delete)
        } else {
            None
        }
    }

    /// The verbs in the order in which a handler is asked for them.
    pub open spec fn spec_all() -> Seq<UnicomMethod> {
        seq![UnicomMethod::Get, UnicomMethod::Post, UnicomMethod::Put, UnicomMethod::Delete]
    }

    pub fn name(self) -> (r: &'static str)
        ensures
            r@ == self.spec_name(),
    {
        match self {
            UnicomMethod::Get => "GET",
            UnicomMethod::Post => "POST",
            UnicomMethod::Put => "PUT",
            UnicomMethod::Delete => "DELETE",
        }
    }

    /// Reads a verb. Only the four names in capitals are verbs.
    pub fn parse(text: &str) -> (r: Option<UnicomMethod>)
        ensures
            r == Self::spec_parse(text@),
    {
        if same_text(text, "GET") {
            Some(UnicomMethod::Get)
        } else if same_text(text, "POST") {
            Some(UnicomMethod::Post)
        } else if same_text(text, "PUT") {
            Some(UnicomMethod::Put)
        } else if same_text(text, "DELETE") {
            Some(UnicomMethod::Delete)
        } else {
            None
        }
    }

    /// The verbs in the order in which a handler is asked for them.
    pub fn all() -> (r: Vec<UnicomMethod>)
        ensures
            r@ == Self::spec_all(),
    {
        let mut verbs: Vec<UnicomMethod> = Vec::new();
        verbs.push(UnicomMethod::Get);
        verbs.push(UnicomMethod::Post);
        verbs.push(UnicomMethod::Put);
        verbs.push(UnicomMethod::Delete);
        assert(verbs@ =~= Self::spec_all());
        verbs
    }
}

/// Reading the name of a verb gives the verb back.
pub proof fn law_method_names_parse(method: UnicomMethod)
    ensures
        UnicomMethod::spec_parse(method.spec_name()) == Some(method),
{
    reveal_strlit("GET");
    reveal_strlit("POST");
    reveal_strlit("PUT");
    reveal_strlit("DELETE");
    match method {
        UnicomMethod::Get => {},
        UnicomMethod::Post => {
            assert("POST"@.len() != "GET"@.len());
        },
        UnicomMethod::Put => {
            assert("PUT"@[0] != "GET"@[0]);
            assert("PUT"@.len() != "POST"@.len());
        },
        UnicomMethod::Delete => {
            assert("DELETE"@.len() != "GET"@.len());
            assert("DELETE"@.len() != "POST"@.len());
            assert("DELETE"@.len() != "PUT"@.len());
        },
    }
}

/// A call of one API of one node.
#[derive(Debug, PartialEq)]
pub struct UnicomRequest {
    /// The dense id of the API at the node that serves the request.
    pub id: u64,
    /// The node that is asked.
    pub node_name: String,
    /// The API that is asked.
    pub name: String,
    pub method: UnicomMethod,
    /// The arguments, by name.
    pub parameters: serde_json::Map<String, serde_json::Value>,
}

/// What an `UnicomRequest` stands for in contracts.
pub struct RequestView {
    pub id: u64,
    pub node_name: Seq<char>,
    pub name: Seq<char>,
    pub method: UnicomMethod,
    pub parameters: serde_json::Map<String, serde_json::Value>,
}

impl View for UnicomRequest {
    type V = RequestView;

    open spec fn view(&self) -> RequestView {
        RequestView {
            id: self.id,
            node_name: self.node_name@,
            name: self.name@,
            method: self.method,
            parameters: self.parameters,
        }
    }
}

/// What the script side hands to the transport.
#[derive(Debug, PartialEq)]
pub enum PythonMessage {
    /// An outbound request under its correlation id.
    Request { id: u64, data: UnicomRequest },
    /// The node closes.
    Quit,
}

/// One frame on the stream, after the first.
#[derive(Debug, PartialEq)]
#[allow(inconsistent_fields)]
pub enum UnixMessage {
    Request { id: u64, data: UnicomRequest },
    Response { id: u64, data: Vec<u8> },
    Error { id: u64, error: UnicomError },
    Quit,
}

/// What an `UnixMessage` stands for in contracts.
#[allow(inconsistent_fields)]
pub enum FrameView {
    Request { id: u64, data: RequestView },
    Response { id: u64, data: Seq<u8> },
    Error { id: u64, error: ErrorView },
    Quit,
}

impl View for UnixMessage {
    type V = FrameView;

    open spec fn view(&self) -> FrameView {
        match self {
            UnixMessage::Request { id, data } => FrameView::Request { id: *id, data: data@ },
            UnixMessage::Response { id, data } => FrameView::Response { id: *id, data: data@ },
            UnixMessage::Error { id, error } => FrameView::Error { id: *id, error: error@ },
            UnixMessage::Quit => FrameView::Quit,
        }
    }
}

impl View for PythonMessage {
    type V = FrameView;

    /// The frame that carries the message.
    open spec fn view(&self) -> FrameView {
        match self {
            PythonMessage::Request { id, data } => FrameView::Request { id: *id, data: data@ },
            PythonMessage::Quit => FrameView::Quit,
        }
    }
}

} // verus!
