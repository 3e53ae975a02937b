use crate::ident::{is_ident, is_ident_str, is_plain_ident, is_plain_ident_str, naive_snake_case, snake};
use crate::model::{is_unary, GenError, Method, Service};
use crate::resolve::{parse_path, path_text, replace_wellknown, resolved, types_resolve};
use vstd::prelude::*;

verus! {

/// Everything the gateway needs to know of one method, derived once.
pub struct MethodPlan {
    /// The method's name in the generated traits (`say_hello`).
    pub ident: String,
    /// The name of the response stream type of a server-streaming method.
    pub stream_type: String,
    /// The resolved request type.
    pub request: String,
    /// The resolved response type.
    pub response: String,
    pub client_streaming: bool,
    pub server_streaming: bool,
}

/// Every name that the gateway module of one service uses, derived once from
/// the service before any text is written.
pub struct ServicePlan {
    /// The path of the module that encloses the generated modules.
    pub proto_path: String,
    pub gateway_mod: String,
    pub server_mod: String,
    /// The server trait that the gateway implements.
    pub server_trait: String,
    /// The gateway type, which wraps one channel.
    pub gateway_type: String,
    /// The rendered path of the client type of the same service.
    pub client_path: String,
    pub methods: Vec<MethodPlan>,
}

/// The opening of a forwarding method, up to its downstream call: its
/// signature and the log line of the caller's address.
pub open spec fn forward_head(ident: Seq<char>, req: Seq<char>, resp: Seq<char>) -> Seq<char> {
    "async fn "@ + ident + "(&self, request: tonic::Request<"@ + req
        + ">) -> Result<tonic::Response<"@ + resp + ">, tonic::Status> {\n"@
        + "println!(\"Got a request from {:?}\", request.remote_addr());\n"@
}

/// The one downstream call of a forwarding method: a fresh client over the
/// gateway's channel, one call of the same method with the request, awaited.
pub open spec fn downstream_call(client: Seq<char>, ident: Seq<char>) -> Seq<char> {
    client + "::new(self.0.clone())."@ + ident + "(request).await"@
}

/// The close of a forwarding method: a failed call becomes an `unknown`
/// status that carries the error's text.
pub open spec fn forward_tail() -> Seq<char> {
    ".or_else(|err| Err(tonic::Status::unknown(err.to_string())))\n}\n"@
}

/// A forwarding method: its opening, its one downstream call and its close.
pub open spec fn forward_text(ident: Seq<char>, req: Seq<char>, resp: Seq<char>, client: Seq<char>) -> Seq<char> {
    forward_head(ident, req, resp) + downstream_call(client, ident) + forward_tail()
}

/// The request type a streaming method receives.
pub open spec fn stub_request(req: Seq<char>, client_streaming: bool) -> Seq<char> {
    if client_streaming {
        "tonic::Streaming<"@ + req + ">"@
    } else {
        req
    }
}

/// The response type a streaming method returns.
pub open spec fn stub_response(stream: Seq<char>, resp: Seq<char>, server_streaming: bool) -> Seq<char> {
    if server_streaming {
        "Self::"@ + stream
    } else {
        resp
    }
}

/// The stream type that a server-streaming method declares.
pub open spec fn stub_stream_decl(stream: Seq<char>, resp: Seq<char>, server_streaming: bool) -> Seq<char> {
    if server_streaming {
        "type "@ + stream + " = tonic::codegen::BoxStream<"@ + resp + ">;\n"@
    } else {
        Seq::empty()
    }
}

/// The method of a streaming call: it forwards nothing and always fails
/// with an `unimplemented` status.
pub open spec fn stub_text(
    ident: Seq<char>,
    stream: Seq<char>,
    req: Seq<char>,
    resp: Seq<char>,
    client_streaming: bool,
    server_streaming: bool,
) -> Seq<char> {
    "/// Streaming calls are not forwarded by this gateway.\n"@
        + stub_stream_decl(stream, resp, server_streaming) + "async fn "@ + ident
        + "(&self, request: tonic::Request<"@ + stub_request(req, client_streaming)
        + ">) -> Result<tonic::Response<"@ + stub_response(stream, resp, server_streaming)
        + ">, tonic::Status> {\n"@
        + "Err(tonic::Status::unimplemented(\"streaming calls are not forwarded\"))\n}\n"@
}

/// The text generated for one planned method.
pub open spec fn method_text(m: MethodPlan, client: Seq<char>) -> Seq<char> {
    if !m.client_streaming && !m.server_streaming {
        forward_text(m.ident@, m.request@, m.response@, client)
    } else {
        stub_text(m.ident@, m.stream_type@, m.request@, m.response@, m.client_streaming, m.server_streaming)
    }
}

/// The texts of the planned methods, in order.
pub open spec fn methods_text(ms: Seq<MethodPlan>, client: Seq<char>) -> Seq<char>
    decreases ms.len(),
{
    if ms.len() == 0 {
        Seq::empty()
    } else {
        methods_text(ms.drop_last(), client) + method_text(ms.last(), client)
    }
}

/// Emits the forwarding method of a unary call.
pub fn generate_unary(client_ident: &str, m: &MethodPlan) -> (r: String)
    ensures
        r@ == forward_text(m.ident@, m.request@, m.response@, client_ident@),
{
    let mut s = String::new();
    s.append("async fn ");
    s.append(m.ident.as_str());
    s.append("(&self, request: tonic::Request<");
    s.append(m.request.as_str());
    s.append(">) -> Result<tonic::Response<");
    s.append(m.response.as_str());
    s.append(">, tonic::Status> {\n");
    s.append("println!(\"Got a request from {:?}\", request.remote_addr());\n");
    s.append(client_ident);
    s.append("::new(self.0.clone()).");
    s.append(m.ident.as_str());
    s.append("(request).await");
    s.append(".or_else(|err| Err(tonic::Status::unknown(err.to_string())))\n}\n");
    assert(s@ =~= forward_text(m.ident@, m.request@, m.response@, client_ident@));
    s
}

/// Emits the placeholder method of a streaming call.
pub fn generate_stub(m: &MethodPlan) -> (r: String)
    ensures
        r@ == stub_text(
            m.ident@,
            m.stream_type@,
            m.request@,
            m.response@,
            m.client_streaming,
            m.server_streaming,
        ),
{
    let mut s = String::new();
    s.append("/// Streaming calls are not forwarded by this gateway.\n");
    if m.server_streaming {
        s.append("type ");
        s.append(m.stream_type.as_str());
        s.append(" = tonic::codegen::BoxStream<");
        s.append(m.response.as_str());
        s.append(">;\n");
    }
    s.append("async fn ");
    s.append(m.ident.as_str());
    s.append("(&self, request: tonic::Request<");
    if m.client_streaming {
        s.append("tonic::Streaming<");
        s.append(m.request.as_str());
        s.append(">");
    } else {
        s.append(m.request.as_str());
    }
    s.append(">) -> Result<tonic::Response<");
    if m.server_streaming {
        s.append("Self::");
        s.append(m.stream_type.as_str());
    } else {
        s.append(m.response.as_str());
    }
    s.append(">, tonic::Status> {\n");
    s.append("Err(tonic::Status::unimplemented(\"streaming calls are not forwarded\"))\n}\n");
    s
}

/// Emits the method of one planned call.
pub fn generate_method(client_ident: &str, m: &MethodPlan) -> (r: String)
    ensures
        r@ == method_text(*m, client_ident@),
{
    match (m.client_streaming, m.server_streaming) {
        (false, false) => generate_unary(client_ident, m),
        (_, _) => generate_stub(m),
    }
}

/// Emits the methods of a planned service, in order.
pub fn generate_methods(plan: &ServicePlan) -> (r: String)
    ensures
        r@ == methods_text(plan.methods@, plan.client_path@),
{
    let mut s = String::new();
    let mut i: usize = 0;
    while i < plan.methods.len()
        invariant
            i <= plan.methods@.len(),
            s@ == methods_text(plan.methods@.take(i as int), plan.client_path@),
        decreases plan.methods@.len() - i,
    {
        let m = generate_method(plan.client_path.as_str(), &plan.methods[i]);
        s.append(m.as_str());
        proof {
            let ms = plan.methods@.take(i + 1);
            assert(ms.drop_last() =~= plan.methods@.take(i as int));
        }
        i = i + 1;
    }
    proof {
        assert(plan.methods@.take(i as int) =~= plan.methods@);
    }
    s
}

/// The opening of a gateway module, up to its methods.
pub open spec fn header_text(p: ServicePlan) -> Seq<char> {
    "/// Generated server implementations.\npub mod "@ + p.gateway_mod@
        + " {\n#![allow(unused_variables, dead_code, missing_docs)]\n"@
        + "#[derive(Debug)]\npub struct "@ + p.gateway_type@
        + "(pub tonic::transport::channel::Channel);\n"@ + "#[tonic::async_trait]\nimpl "@
        + p.proto_path@ + "::"@ + p.server_mod@ + "::"@ + p.server_trait@ + " for "@
        + p.gateway_type@ + " {\n"@
}

/// The close of a gateway module, after its methods.
pub open spec fn footer_text() -> Seq<char> {
    "}\n}\n"@
}

/// The gateway module of a planned service.
pub open spec fn gateway_text(p: ServicePlan) -> Seq<char> {
    header_text(p) + methods_text(p.methods@, p.client_path@) + footer_text()
}

/// Emits the gateway module of a planned service.
pub fn render_gateway(plan: &ServicePlan) -> (r: String)
    ensures
        r@ == gateway_text(*plan),
{
    let mut s = String::new();
    s.append("/// Generated server implementations.\npub mod ");
    s.append(plan.gateway_mod.as_str());
    s.append(" {\n#![allow(unused_variables, dead_code, missing_docs)]\n");
    s.append("#[derive(Debug)]\npub struct ");
    s.append(plan.gateway_type.as_str());
    s.append("(pub tonic::transport::channel::Channel);\n");
    s.append("#[tonic::async_trait]\nimpl ");
    s.append(plan.proto_path.as_str());
    s.append("::");
    s.append(plan.server_mod.as_str());
    s.append("::");
    s.append(plan.server_trait.as_str());
    s.append(" for ");
    s.append(plan.gateway_type.as_str());
    s.append(" {\n");
    let methods = generate_methods(plan);
    s.append(methods.as_str());
    s.append("}\n}\n");
    s
}

/// The path of the client type of service `name`, before it is parsed.
pub open spec fn client_path_src(path: Seq<char>, name: Seq<char>) -> Seq<char> {
    path + "::"@ + snake(name) + "_client::"@ + name + "Client"@
}

/// The method's generated name is an identifier, possibly raw, and its
/// declared name is a plain one.
pub open spec fn method_names_valid(m: Method) -> bool {
    is_ident(m.name@) && is_plain_ident(m.proto_name@)
}

/// Every name that becomes an identifier of the generated code is one.
pub open spec fn names_valid(s: Service, path: Seq<char>) -> bool {
    &&& is_plain_ident(path)
    &&& is_plain_ident(s.name@)
    &&& forall|i: int| 0 <= i < s.methods@.len() ==> method_names_valid(#[trigger] s.methods@[i])
}

/// The client path and every type reference of the service parse.
pub open spec fn paths_resolve(s: Service, path: Seq<char>) -> bool {
    &&& path_text(client_path_src(path, s.name@)) is Some
    &&& forall|i: int| 0 <= i < s.methods@.len() ==> types_resolve(path, #[trigger] s.methods@[i])
}

/// `p` holds the names derived from method `m`.
pub open spec fn method_planned(path: Seq<char>, m: Method, p: MethodPlan) -> bool {
    &&& p.ident@ == m.name@
    &&& p.stream_type@ == m.proto_name@ + "Stream"@
    &&& Some(p.request@) == resolved(path, m.input_type@, m.input_proto_type@)
    &&& Some(p.response@) == resolved(path, m.output_type@, m.output_proto_type@)
    &&& p.client_streaming == m.client_streaming
    &&& p.server_streaming == m.server_streaming
}

/// `p` holds the names derived from service `s` under module path `path`.
pub open spec fn service_planned(s: Service, path: Seq<char>, p: ServicePlan) -> bool {
    &&& p.proto_path@ == path
    &&& p.gateway_mod@ == snake(s.name@) + "_gateway"@
    &&& p.server_mod@ == snake(s.name@) + "_server"@
    &&& p.server_trait@ == s.name@
    &&& p.gateway_type@ == s.name@ + "Gateway"@
    &&& Some(p.client_path@) == path_text(client_path_src(path, s.name@))
    &&& p.methods@.len() == s.methods@.len()
    &&& forall|i: int|
        0 <= i < s.methods@.len() ==> method_planned(path, #[trigger] s.methods@[i], p.methods@[i])
}

/// Derives every name the gateway of `service` uses.
pub fn plan_service(service: &Service, proto_path: &str) -> (r: Result<ServicePlan, GenError>)
    ensures
        r is Ok <==> names_valid(*service, proto_path@) && paths_resolve(*service, proto_path@),
        r matches Err(e) ==> (e == GenError::InvalidIdent <==> !names_valid(*service, proto_path@)),
        r matches Ok(p) ==> service_planned(*service, proto_path@, p),
{
    if !is_plain_ident_str(proto_path) || !is_plain_ident_str(service.name.as_str()) {
        return Err(GenError::InvalidIdent);
    }
    let n = service.methods.len();
    let mut i: usize = 0;
    while i < n
        invariant
            n == service.methods@.len(),
            i <= n,
            forall|j: int| 0 <= j < i ==> method_names_valid(#[trigger] service.methods@[j]),
        decreases n - i,
    {
        let m = &service.methods[i];
        if !is_ident_str(m.name.as_str()) || !is_plain_ident_str(m.proto_name.as_str()) {
            return Err(GenError::InvalidIdent);
        }
        i = i + 1;
    }
    let snake_name = naive_snake_case(service.name.as_str());
    let mut client_src = String::from_str(proto_path);
    client_src.append("::");
    client_src.append(snake_name.as_str());
    client_src.append("_client::");
    client_src.append(service.name.as_str());
    client_src.append("Client");
    let client_path = match parse_path(client_src.as_str()) {
        Some(c) => c,
        None => {
            return Err(GenError::MalformedPath);
        },
    };
    let mut methods: Vec<MethodPlan> = Vec::new();
    let mut i: usize = 0;
    while i < n
        invariant
            n == service.methods@.len(),
            i <= n,
            methods@.len() == i,
            names_valid(*service, proto_path@),
            Some(client_path@) == path_text(client_path_src(proto_path@, service.name@)),
            forall|j: int|
                0 <= j < i ==> method_planned(proto_path@, #[trigger] service.methods@[j], methods@[j]),
            forall|j: int| 0 <= j < i ==> types_resolve(proto_path@, #[trigger] service.methods@[j]),
        decreases n - i,
    {
        let m = &service.methods[i];
        let (request, response) = match replace_wellknown(proto_path, m) {
            Ok(types) => types,
            Err(e) => {
                return Err(e);
            },
        };
        let ident = m.name.clone();
        let mut stream_type = m.proto_name.clone();
        stream_type.append("Stream");
        methods.push(
            MethodPlan {
                ident,
                stream_type,
                request,
                response,
                client_streaming: m.client_streaming,
                server_streaming: m.server_streaming,
            },
        );
        i = i + 1;
    }
    let mut gateway_mod = snake_name.clone();
    gateway_mod.append("_gateway");
    let mut server_mod = snake_name;
    server_mod.append("_server");
    let mut gateway_type = service.name.clone();
    gateway_type.append("Gateway");
    Ok(
        ServicePlan {
            proto_path: String::from_str(proto_path),
            gateway_mod,
            server_mod,
            server_trait: service.name.clone(),
            gateway_type,
            client_path,
            methods,
        },
    )
}

/// Two plans carry the same text for a method.
pub open spec fn same_method(a: MethodPlan, b: MethodPlan) -> bool {
    &&& a.ident@ == b.ident@
    &&& a.stream_type@ == b.stream_type@
    &&& a.request@ == b.request@
    &&& a.response@ == b.response@
    &&& a.client_streaming == b.client_streaming
    &&& a.server_streaming == b.server_streaming
}

proof fn lemma_methods_text_same(a: Seq<MethodPlan>, b: Seq<MethodPlan>, client: Seq<char>)
    requires
        a.len() == b.len(),
        forall|i: int| 0 <= i < a.len() ==> same_method(#[trigger] a[i], b[i]),
    ensures
        methods_text(a, client) == methods_text(b, client),
    decreases a.len(),
{
    if a.len() > 0 {
        let (a1, b1) = (a.drop_last(), b.drop_last());
        assert forall|i: int| 0 <= i < a1.len() implies same_method(#[trigger] a1[i], b1[i]) by {
            assert(same_method(a[i], b[i]));
        }
        lemma_methods_text_same(a1, b1, client);
        assert(same_method(a[a.len() - 1], b[b.len() - 1]));
    }
}

/// Generation is deterministic: two plans of the same service under the same
/// module path give the same gateway text, so running generation twice over
/// one description yields identical output.
pub proof fn lemma_plan_determines_text(s: Service, path: Seq<char>, p1: ServicePlan, p2: ServicePlan)
    requires
        service_planned(s, path, p1),
        service_planned(s, path, p2),
    ensures
        gateway_text(p1) == gateway_text(p2),
{
    assert forall|i: int| 0 <= i < p1.methods@.len() implies same_method(
        #[trigger] p1.methods@[i],
        p2.methods@[i],
    ) by {
        assert(method_planned(path, s.methods@[i], p1.methods@[i]));
        assert(method_planned(path, s.methods@[i], p2.methods@[i]));
    }
    lemma_methods_text_same(p1.methods@, p2.methods@, p1.client_path@);
}

/// The gateway module generated for service `s` under module path `path`.
pub open spec fn gateway_of(s: Service, path: Seq<char>) -> Seq<char> {
    gateway_text(choose|p: ServicePlan| service_planned(s, path, p))
}

/// Generates the gateway module of `service`, whose generated modules are
/// reached from the gateway through `proto_path`.
pub fn generate(service: &Service, proto_path: &str) -> (r: Result<String, GenError>)
    ensures
        r is Ok <==> names_valid(*service, proto_path@) && paths_resolve(*service, proto_path@),
        r matches Err(e) ==> (e == GenError::InvalidIdent <==> !names_valid(*service, proto_path@)),
        r matches Ok(text) ==> text@ == gateway_of(*service, proto_path@),
{
    match plan_service(service, proto_path) {
        Ok(plan) => {
            let text = render_gateway(&plan);
            proof {
                let q = choose|p: ServicePlan| service_planned(*service, proto_path@, p);
                lemma_plan_determines_text(*service, proto_path@, plan, q);
            }
            Ok(text)
        },
        Err(e) => Err(e),
    }
}

/// One forwarding method per planned method, in order.
pub open spec fn forwards_text(ms: Seq<MethodPlan>, client: Seq<char>) -> Seq<char>
    decreases ms.len(),
{
    if ms.len() == 0 {
        Seq::empty()
    } else {
        forwards_text(ms.drop_last(), client) + forward_text(
            ms.last().ident@,
            ms.last().request@,
            ms.last().response@,
            client,
        )
    }
}

proof fn lemma_unary_methods_text(ms: Seq<MethodPlan>, client: Seq<char>)
    requires
        forall|i: int|
            0 <= i < ms.len() ==> !(#[trigger] ms[i]).client_streaming && !ms[i].server_streaming,
    ensures
        methods_text(ms, client) == forwards_text(ms, client),
    decreases ms.len(),
{
    if ms.len() > 0 {
        let front = ms.drop_last();
        assert forall|i: int| 0 <= i < front.len() implies !(#[trigger] front[i]).client_streaming
            && !front[i].server_streaming by {
            assert(front[i] == ms[i]);
        }
        lemma_unary_methods_text(front, client);
        assert(!ms[ms.len() - 1].client_streaming);
    }
}

/// For a service whose methods are all unary, the gateway holds exactly one
/// forwarding method per declared method, in declaration order, each named
/// after its method, and each made of an opening and a close that do not
/// mention the client around exactly one downstream call.
pub proof fn lemma_unary_service_forwards(s: Service, path: Seq<char>, p: ServicePlan)
    requires
        service_planned(s, path, p),
        forall|i: int| 0 <= i < s.methods@.len() ==> is_unary(#[trigger] s.methods@[i]),
    ensures
        p.methods@.len() == s.methods@.len(),
        forall|i: int|
            0 <= i < s.methods@.len() ==> (#[trigger] p.methods@[i]).ident@ == s.methods@[i].name@,
        gateway_text(p) == header_text(p) + forwards_text(p.methods@, p.client_path@) + footer_text(),
        forall|i: int|
            0 <= i < p.methods@.len() ==> #[trigger] method_text(p.methods@[i], p.client_path@)
                == forward_head(p.methods@[i].ident@, p.methods@[i].request@, p.methods@[i].response@)
                + downstream_call(p.client_path@, p.methods@[i].ident@) + forward_tail(),
{
    assert forall|i: int| 0 <= i < p.methods@.len() implies !(#[trigger] p.methods@[i]).client_streaming
        && !p.methods@[i].server_streaming by {
        assert(method_planned(path, s.methods@[i], p.methods@[i]));
        assert(is_unary(s.methods@[i]));
    }
    lemma_unary_methods_text(p.methods@, p.client_path@);
    assert forall|i: int| 0 <= i < s.methods@.len() implies (#[trigger] p.methods@[i]).ident@
        == s.methods@[i].name@ by {
        assert(method_planned(path, s.methods@[i], p.methods@[i]));
    }
}

/// Two services that differ in that the one method of the first is unary and
/// the one method of the second streams get different gateway methods: the
/// streaming one is a stub, not a forward.
pub proof fn lemma_streaming_differs_across_services(
    s1: Service,
    s2: Service,
    path: Seq<char>,
    p1: ServicePlan,
    p2: ServicePlan,
)
    requires
        service_planned(s1, path, p1),
        service_planned(s2, path, p2),
        s1.methods@.len() == 1,
        s2.methods@.len() == 1,
        is_unary(s1.methods@[0]),
        !is_unary(s2.methods@[0]),
    ensures
        methods_text(p1.methods@, p1.client_path@) != methods_text(p2.methods@, p2.client_path@),
        methods_text(p1.methods@, p1.client_path@) == forward_text(
            p1.methods@[0].ident@,
            p1.methods@[0].request@,
            p1.methods@[0].response@,
            p1.client_path@,
        ),
{
    let (m1, m2) = (p1.methods@[0], p2.methods@[0]);
    assert(method_planned(path, s1.methods@[0], m1));
    assert(method_planned(path, s2.methods@[0], m2));
    reveal_with_fuel(methods_text, 2);
    assert(p1.methods@.last() == m1);
    assert(p2.methods@.last() == m2);
    assert(methods_text(p1.methods@.drop_last(), p1.client_path@).len() == 0);
    assert(methods_text(p2.methods@.drop_last(), p2.client_path@).len() == 0);
    assert(methods_text(p1.methods@, p1.client_path@) =~= method_text(m1, p1.client_path@));
    assert(methods_text(p2.methods@, p2.client_path@) =~= method_text(m2, p2.client_path@));
    reveal_strlit("/// Streaming calls are not forwarded by this gateway.\n");
    reveal_strlit("async fn ");
    assert(method_text(m1, p1.client_path@)[0] == 'a');
    assert(method_text(m2, p2.client_path@)[0] == '/');
}

/// A streaming method makes no downstream call: its generated text does not
/// depend on the client at all, and it differs from the forwarding text of
/// the same method.
pub proof fn lemma_streaming_method_stub(
    s: Service,
    path: Seq<char>,
    p: ServicePlan,
    i: int,
    c1: Seq<char>,
    c2: Seq<char>,
)
    requires
        service_planned(s, path, p),
        0 <= i < s.methods@.len(),
        !is_unary(s.methods@[i]),
    ensures
        method_text(p.methods@[i], c1) == method_text(p.methods@[i], c2),
        method_text(p.methods@[i], c1) != forward_text(
            p.methods@[i].ident@,
            p.methods@[i].request@,
            p.methods@[i].response@,
            c1,
        ),
{
    let m = p.methods@[i];
    assert(method_planned(path, s.methods@[i], m));
    reveal_strlit("/// Streaming calls are not forwarded by this gateway.\n");
    reveal_strlit("async fn ");
    assert(method_text(m, c1)[0] == '/');
    assert(forward_text(m.ident@, m.request@, m.response@, c1)[0] == 'a');
}

} // verus!
