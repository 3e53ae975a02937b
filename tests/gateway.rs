use grpc_gateway_build::{
    generate_unit, naive_snake_case,
    generate, generate_doc_comment, generate_doc_comments, generate_method, generate_stub, generate_unary, is_ident_str, plan_service, qualify,
    replace_wellknown, resolve_type, starts_with, GenError, Method, Service, ServiceGenerator,
};

fn method(name: &str, input: &str, output: &str, cs: bool, ss: bool) -> Method {
    Method {
        name: naive_snake_case(name),
        proto_name: name.to_string(),
        input_type: input.to_string(),
        input_proto_type: format!(".helloworld.{}", input),
        output_type: output.to_string(),
        output_proto_type: format!(".helloworld.{}", output),
        client_streaming: cs,
        server_streaming: ss,
    }
}

fn greeter(methods: Vec<Method>) -> Service {
    Service { name: "Greeter".to_string(), methods }
}

fn compact(s: &str) -> String {
    s.chars().filter(|c| !c.is_whitespace()).collect()
}

#[test]
fn greeter_gateway_end_to_end() {
    let svc = greeter(vec![method("SayHello", "HelloRequest", "HelloReply", false, false)]);
    let text = generate(&svc, "super").unwrap();
    let flat = compact(&text);
    assert!(text.starts_with("/// Generated server implementations.\npub mod greeter_gateway {"));
    assert!(text.contains("pub struct GreeterGateway(pub tonic::transport::channel::Channel);"));
    assert!(text.contains("impl super::greeter_server::Greeter for GreeterGateway {"));
    assert!(text.contains("async fn say_hello(&self, request: tonic::Request<"));
    assert!(flat.contains("tonic::Request<super::HelloRequest>"));
    assert!(flat.contains("tonic::Response<super::HelloReply>"));
    assert!(flat.contains(
        "super::greeter_client::GreeterClient::new(self.0.clone()).say_hello(request)"
    ));
    assert!(flat.contains("Err(tonic::Status::unknown(err.to_string()))"));
}

#[test]
fn unary_service_has_one_forward_per_method_in_order() {
    let svc = greeter(vec![
        method("SayHello", "HelloRequest", "HelloReply", false, false),
        method("SayGoodbye", "ByeRequest", "ByeReply", false, false),
    ]);
    let text = generate(&svc, "super").unwrap();
    assert_eq!(text.matches("async fn ").count(), 2);
    assert_eq!(text.matches("::new(self.0.clone())").count(), 2);
    let hello = text.find("async fn say_hello").unwrap();
    let bye = text.find("async fn say_goodbye").unwrap();
    assert!(hello < bye);
}

#[test]
fn streaming_methods_make_no_downstream_call() {
    for (cs, ss) in [(true, false), (false, true), (true, true)] {
        let svc = greeter(vec![method("Chat", "Note", "Note", cs, ss)]);
        let plan = plan_service(&svc, "super").unwrap();
        let m = &plan.methods[0];
        let stub = generate_method(&plan.client_path, m);
        assert_eq!(stub, generate_stub(m));
        assert_ne!(stub, generate_unary(&plan.client_path, m));
        assert!(!stub.contains("::new(self.0.clone())"));
        assert!(stub.contains("tonic::Status::unimplemented"));
        assert_eq!(stub, generate_method("some::other::Client", m));
        assert_eq!(stub.contains("tonic::Streaming<"), cs);
        assert_eq!(stub.contains("type ChatStream = tonic::codegen::BoxStream<"), ss);
    }
}

#[test]
fn generation_is_repeatable() {
    let svc = greeter(vec![
        method("SayHello", "HelloRequest", "HelloReply", false, false),
        method("Chat", "Note", "Note", true, true),
    ]);
    assert_eq!(generate(&svc, "super").unwrap(), generate(&svc, "super").unwrap());
}

#[test]
fn empty_unit_writes_nothing() {
    let mut g = ServiceGenerator::new();
    let mut buf = String::from("prefix");
    g.finalize(&mut buf);
    assert_eq!(buf, "prefix");
}

#[test]
fn unit_sections_come_in_order_and_buffers_clear() {
    let mut g = ServiceGenerator::new();
    let svc = greeter(vec![method("SayHello", "HelloRequest", "HelloReply", false, false)]);
    g.generate(&svc, "CLIENT;", "SERVER;").unwrap();
    let mut buf = String::new();
    g.finalize(&mut buf);
    let gateway = generate(&svc, "super").unwrap();
    assert_eq!(buf, format!("CLIENT;SERVER;{}", gateway));
    assert!(g.clients.is_empty() && g.servers.is_empty() && g.gateways.is_empty());
    let mut again = String::new();
    g.finalize(&mut again);
    assert_eq!(again, "");
}

#[test]
fn failed_service_leaves_buffers_unchanged() {
    let mut g = ServiceGenerator::new();
    let svc = Service { name: String::new(), methods: vec![] };
    assert_eq!(g.generate(&svc, "CLIENT;", "SERVER;"), Err(GenError::InvalidIdent));
    let mut buf = String::new();
    g.finalize(&mut buf);
    assert_eq!(buf, "");
}

#[test]
fn invalid_identifiers_are_rejected() {
    let bad_service = Service { name: "1Greeter".to_string(), methods: vec![] };
    assert_eq!(generate(&bad_service, "super"), Err(GenError::InvalidIdent));
    let bad_method = greeter(vec![method("Say-Hello", "HelloRequest", "HelloReply", false, false)]);
    assert_eq!(generate(&bad_method, "super"), Err(GenError::InvalidIdent));
    let svc = greeter(vec![]);
    assert_eq!(generate(&svc, "not a path"), Err(GenError::InvalidIdent));
}

#[test]
fn malformed_type_paths_are_rejected() {
    let svc = greeter(vec![method("SayHello", "Hello Request", "HelloReply", false, false)]);
    assert_eq!(generate(&svc, "super"), Err(GenError::MalformedPath));
    let mut m = method("SayHello", "HelloRequest", "HelloReply", false, false);
    m.input_type = "(".to_string();
    m.input_proto_type = ".google.protobuf.Empty".to_string();
    assert_eq!(generate(&greeter(vec![m]), "super"), Err(GenError::MalformedPath));
}

#[test]
fn service_without_methods_still_gets_a_gateway() {
    let text = generate(&greeter(vec![]), "super").unwrap();
    assert!(text.contains("pub mod greeter_gateway {"));
    assert_eq!(text.matches("async fn ").count(), 0);
}

#[test]
fn well_known_types_keep_their_local_name() {
    let mut m = method("Ping", "()", "()", false, false);
    m.input_proto_type = ".google.protobuf.Empty".to_string();
    m.output_proto_type = ".google.protobuf.Empty".to_string();
    let (req, resp) = replace_wellknown("super", &m).unwrap();
    assert_eq!(req, "()");
    assert_eq!(resp, "()");
    let ts = resolve_type("super", "::prost_types::Timestamp", ".google.protobuf.Timestamp").unwrap();
    assert_eq!(compact(&ts), "::prost_types::Timestamp");
}

#[test]
fn local_types_are_qualified() {
    let r = resolve_type("super", "HelloRequest", ".helloworld.HelloRequest").unwrap();
    assert_ne!(r, "HelloRequest");
    assert_eq!(compact(&r), "super::HelloRequest");
    assert_eq!(resolve_type("super", "Hello Request", ".helloworld.HelloRequest"), None);
}

#[test]
fn helpers_behave() {
    assert!(starts_with(".google.protobuf.Empty", ".google.protobuf"));
    assert!(!starts_with(".google", ".google.protobuf"));
    assert!(!starts_with(".helloworld.Empty", ".google.protobuf"));
    assert_eq!(qualify("super", "Foo"), "super::Foo");
    assert!(is_ident_str("Greeter_2"));
    assert!(!is_ident_str(""));
    assert!(!is_ident_str("9lives"));
    assert!(!is_ident_str("a.b"));
}

#[test]
fn doc_comments_become_attributes() {
    assert_eq!(generate_doc_comment(" Hello"), "#[doc = \" Hello\"]\n");
    assert_eq!(generate_doc_comment("say \"hi\""), "#[doc = \"say \\\"hi\\\"\"]\n");
    let lines = vec![" one".to_string(), " two".to_string()];
    assert_eq!(generate_doc_comments(&lines), "#[doc = \" one\"]\n#[doc = \" two\"]\n");
    assert_eq!(generate_doc_comments(&[]), "");
}

#[test]
fn method_names_are_used_as_given() {
    let mut m = method("GetHTTPStatus", "Req", "Resp", false, false);
    m.name = "get_http_status".to_string();
    let mut t = method("Type", "Req", "Resp", false, false);
    t.name = "r#type".to_string();
    let text = generate(&greeter(vec![m, t]), "super").unwrap();
    assert!(text.contains("async fn get_http_status("));
    assert!(compact(&text).contains(".get_http_status(request).await"));
    assert!(text.contains("async fn r#type("));
    assert!(!text.contains("get_h_t_t_p"));
    let mut bad = method("Type", "Req", "Resp", false, false);
    bad.name = "r#".to_string();
    assert_eq!(generate(&greeter(vec![bad]), "super"), Err(GenError::InvalidIdent));
}

#[test]
fn stream_type_follows_declared_name() {
    let mut m = method("ListNotes", "Req", "Note", false, true);
    m.name = "list_notes".to_string();
    let text = generate(&greeter(vec![m]), "super").unwrap();
    assert!(text.contains("type ListNotesStream = tonic::codegen::BoxStream<"));
    assert!(text.contains("async fn list_notes("));
}

#[test]
fn whole_unit_is_repeatable_and_ordered() {
    let units = vec![
        (greeter(vec![method("SayHello", "HelloRequest", "HelloReply", false, false)]),
            "C1;".to_string(), "S1;".to_string()),
        (Service { name: "Echo".to_string(), methods: vec![method("Ping", "P", "P", true, false)] },
            "C2;".to_string(), "S2;".to_string()),
    ];
    let first = generate_unit(&units).unwrap();
    let second = generate_unit(&units).unwrap();
    assert_eq!(first, second);
    let g1 = generate(&units[0].0, "super").unwrap();
    let g2 = generate(&units[1].0, "super").unwrap();
    assert_eq!(first, format!("C1;C2;S1;S2;{}{}", g1, g2));
    assert_eq!(generate_unit(&vec![]).unwrap(), "");
}

#[test]
fn whole_unit_reports_first_failure() {
    let units = vec![
        (greeter(vec![method("SayHello", "Hello Request", "HelloReply", false, false)]),
            String::new(), String::new()),
        (Service { name: String::new(), methods: vec![] }, String::new(), String::new()),
    ];
    assert_eq!(generate_unit(&units), Err(GenError::MalformedPath));
}

#[test]
fn generator_reused_after_finalize_repeats_output() {
    let svc = greeter(vec![method("SayHello", "HelloRequest", "HelloReply", false, false)]);
    let mut g = ServiceGenerator::new();
    g.generate(&svc, "C;", "S;").unwrap();
    let mut b1 = String::new();
    g.finalize(&mut b1);
    g.generate(&svc, "C;", "S;").unwrap();
    let mut b2 = String::new();
    g.finalize(&mut b2);
    assert_eq!(b1, b2);
}
