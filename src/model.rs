use vstd::prelude::*;

verus! {

/// One RPC method of a service, as decoded from the service description.
pub struct Method {
    /// The method's name in the generated traits and clients (`say_hello`,
    /// or a raw identifier such as `r#type`).
    pub name: String,
    /// The method's name as declared (`SayHello`).
    pub proto_name: String,
    /// The request type's name as seen from the generated code.
    pub input_type: String,
    /// The request type's fully qualified name in the description language.
    pub input_proto_type: String,
    /// The response type's name as seen from the generated code.
    pub output_type: String,
    /// The response type's fully qualified name in the description language.
    pub output_proto_type: String,
    /// Whether the client sends a stream of requests.
    pub client_streaming: bool,
    /// Whether the server answers with a stream of responses.
    pub server_streaming: bool,
}

/// One RPC service: its name and its methods in declaration order.
pub struct Service {
    pub name: String,
    pub methods: Vec<Method>,
}

/// Why code could not be generated for a service.
#[derive(Debug, Clone, Copy, PartialEq, Eq, Structural)]
pub enum GenError {
    /// A name that must become an identifier of the generated code is not one.
    InvalidIdent,
    /// A type reference or client path does not parse as a path.
    MalformedPath,
}

/// The text held by an optional string.
pub open spec fn opt_view(o: Option<String>) -> Option<Seq<char>> {
    match o {
        Some(s) => Some(s@),
        None => None,
    }
}

/// A unary method: neither side streams.
pub open spec fn is_unary(m: Method) -> bool {
    !m.client_streaming && !m.server_streaming
}

} // verus!
