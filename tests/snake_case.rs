use grpc_gateway_build::naive_snake_case;

#[test]
fn test_snake_case() {
    for case in &[
        ("Service", "service"),
        ("ThatHasALongName", "that_has_a_long_name"),
        ("greeter", "greeter"),
        ("ABCServiceX", "a_b_c_service_x"),
    ] {
        assert_eq!(naive_snake_case(case.0), case.1)
    }
}

#[test]
fn snake_case_of_empty_name_is_empty() {
    assert_eq!(naive_snake_case(""), "");
}

#[test]
fn snake_case_keeps_digits_and_underscores() {
    assert_eq!(naive_snake_case("Api2Go"), "api2_go");
    assert_eq!(naive_snake_case("say_hello"), "say_hello");
    assert_eq!(naive_snake_case("SayHello"), "say_hello");
}

#[test]
fn snake_case_is_deterministic() {
    assert_eq!(naive_snake_case("ABCServiceX"), naive_snake_case("ABCServiceX"));
}
