//! Synthesis of gRPC gateway adapters: code that implements a service's
//! server interface by forwarding every call to a client of the same service.
pub mod doc;
pub mod gateway;
pub mod generator;
pub mod ident;
pub mod model;
pub mod resolve;

pub use doc::{generate_doc_comment, generate_doc_comments};
pub use gateway::{
    generate, generate_method, generate_methods, generate_stub, generate_unary, plan_service,
    render_gateway, MethodPlan, ServicePlan,
};
pub use generator::{generate_unit, ServiceGenerator};
pub use ident::{is_ident_str, naive_snake_case};
pub use model::{GenError, Method, Service};
pub use resolve::{qualify, replace_wellknown, resolve_type, starts_with};
