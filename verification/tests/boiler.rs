use hextacy::boiler::{
    first_letter, mw_interceptor, uppercase, write_bound_lines, write_contracts_use,
    write_letter_bounds, INDENT,
};

const WITHOUT_CONTRACTS: &str = "use super::contract::ServiceContract;\n\
     use super::domain::Auth;\n\
     use actix_web::dev::{forward_ready, Service, ServiceRequest, ServiceResponse, Transform};\n\
     use futures_util::future::LocalBoxFuture;\n\
     use futures_util::FutureExt;\n\
     use std::{\n\
     \x20\x20\x20\x20future::{ready, Ready},\n\
     \x20\x20\x20\x20rc::Rc,\n\
     };\n\
     \n\
     #[derive(Debug, Clone)]\n\
     pub(crate) struct AuthGuard {\n\
     \x20\x20\x20\x20guard: Rc<Auth>,\n\
     }\n\
     \n\
     impl<S> Transform<S, ServiceRequest> for AuthGuard\n\
     where\n\
     \x20\x20\x20\x20S: Service<ServiceRequest, Response = ServiceResponse, Error = actix_web::Error> + 'static,\n\
     \x20\x20\x20\x20S::Future: 'static,\n\
     {\n\
     \x20\x20\x20\x20type Response = ServiceResponse;\n\
     \x20\x20\x20\x20type Error = actix_web::Error;\n\
     \x20\x20\x20\x20type InitError = ();\n\
     \x20\x20\x20\x20type Transform = AuthMiddleware<S>;\n\
     \x20\x20\x20\x20type Future = Ready<Result<Self::Transform, Self::InitError>>;\n\
     \n\
     \x20\x20\x20\x20fn new_transform(&self, service: S) -> Self::Future {\n\
     \x20\x20\x20\x20\x20\x20\x20\x20ready(Ok(AuthMiddleware {\n\
     \x20\x20\x20\x20\x20\x20\x20\x20\x20\x20\x20\x20service: Rc::new(service),\n\
     \x20\x20\x20\x20\x20\x20\x20\x20\x20\x20\x20\x20guard: self.guard.clone(),\n\
     \x20\x20\x20\x20\x20\x20\x20\x20}))\n\
     \x20\x20\x20\x20}\n\
     }\n\
     \n\
     pub(crate) struct AuthMiddleware<S> {\n\
     \x20\x20\x20\x20guard: Rc<Auth>,\n\
     \x20\x20\x20\x20service: Rc<S>,\n\
     }\n\
     \n\
     impl<S> Service<ServiceRequest> for AuthMiddleware<S>\n\
     where\n\
     \x20\x20\x20\x20S: Service<ServiceRequest, Response = ServiceResponse, Error = actix_web::Error> + 'static,\n\
     \x20\x20\x20\x20S::Future: 'static,\n\
     {\n\
     \x20\x20\x20\x20type Response = ServiceResponse;\n\
     \x20\x20\x20\x20type Error = actix_web::Error;\n\
     \x20\x20\x20\x20type Future = LocalBoxFuture<'static, Result<Self::Response, Self::Error>>;\n\
     \n\
     \x20\x20\x20\x20forward_ready!(service);\n\
     \n\
     \x20\x20\x20\x20fn call(&self, req: ServiceRequest) -> Self::Future {\n\
     \x20\x20\x20\x20\x20\x20\x20\x20let guard = self.guard.clone();\n\
     \x20\x20\x20\x20\x20\x20\x20\x20let service = self.service.clone();\n\
     \n\
     \x20\x20\x20\x20\x20\x20\x20\x20async move {\n\
     \x20\x20\x20\x20\x20\x20\x20\x20\x20\x20\x20\x20let res = service.call(req).await?;\n\
     \x20\x20\x20\x20\x20\x20\x20\x20\x20\x20\x20\x20Ok(res)\n\
     \x20\x20\x20\x20\x20\x20\x20\x20}\n\
     \x20\x20\x20\x20\x20\x20\x20\x20.boxed_local()\n\
     \x20\x20\x20\x20}\n\
     }\n\
     ";

const WITH_TWO_CONTRACTS: &str = "use super::contract::{ServiceContract, RepositoryContract, CacheContract};\n\
     use super::domain::Auth;\n\
     use actix_web::dev::{forward_ready, Service, ServiceRequest, ServiceResponse, Transform};\n\
     use futures_util::future::LocalBoxFuture;\n\
     use futures_util::FutureExt;\n\
     use std::{\n\
     \x20\x20\x20\x20future::{ready, Ready},\n\
     \x20\x20\x20\x20rc::Rc,\n\
     };\n\
     \n\
     #[derive(Debug, Clone)]\n\
     pub(crate) struct AuthGuard<R, C>\n\
     where\n\
     \x20\x20\x20\x20R: RepositoryContract,\n\
     \x20\x20\x20\x20C: CacheContract,\n\
     {\n\
     \x20\x20\x20\x20guard: Rc<Auth<R, C>>,\n\
     }\n\
     \n\
     impl<R, C, S> Transform<S, ServiceRequest> for AuthGuard<R, C>\n\
     where\n\
     \x20\x20\x20\x20S: Service<ServiceRequest, Response = ServiceResponse, Error = actix_web::Error> + 'static,\n\
     \x20\x20\x20\x20S::Future: 'static,\n\
     \x20\x20\x20\x20R: RepositoryContract + Send + Sync + 'static,\n\
     \x20\x20\x20\x20C: CacheContract + Send + Sync + 'static,\n\
     {\n\
     \x20\x20\x20\x20type Response = ServiceResponse;\n\
     \x20\x20\x20\x20type Error = actix_web::Error;\n\
     \x20\x20\x20\x20type InitError = ();\n\
     \x20\x20\x20\x20type Transform = AuthMiddleware<R, C, S>;\n\
     \x20\x20\x20\x20type Future = Ready<Result<Self::Transform, Self::InitError>>;\n\
     \n\
     \x20\x20\x20\x20fn new_transform(&self, service: S) -> Self::Future {\n\
     \x20\x20\x20\x20\x20\x20\x20\x20ready(Ok(AuthMiddleware {\n\
     \x20\x20\x20\x20\x20\x20\x20\x20\x20\x20\x20\x20service: Rc::new(service),\n\
     \x20\x20\x20\x20\x20\x20\x20\x20\x20\x20\x20\x20guard: self.guard.clone(),\n\
     \x20\x20\x20\x20\x20\x20\x20\x20}))\n\
     \x20\x20\x20\x20}\n\
     }\n\
     \n\
     pub(crate) struct AuthMiddleware<R, C, S>\n\
     where\n\
     \x20\x20\x20\x20R: RepositoryContract,\n\
     \x20\x20\x20\x20C: CacheContract,\n\
     {\n\
     \x20\x20\x20\x20guard: Rc<Auth<R, C>>,\n\
     \x20\x20\x20\x20service: Rc<S>,\n\
     }\n\
     \n\
     impl<R, C, S> Service<ServiceRequest> for AuthMiddleware<R, C, S>\n\
     where\n\
     \x20\x20\x20\x20S: Service<ServiceRequest, Response = ServiceResponse, Error = actix_web::Error> + 'static,\n\
     \x20\x20\x20\x20S::Future: 'static,\n\
     \x20\x20\x20\x20R: RepositoryContract + Send + Sync + 'static,\n\
     \x20\x20\x20\x20C: CacheContract + Send + Sync + 'static,\n\
     {\n\
     \x20\x20\x20\x20type Response = ServiceResponse;\n\
     \x20\x20\x20\x20type Error = actix_web::Error;\n\
     \x20\x20\x20\x20type Future = LocalBoxFuture<'static, Result<Self::Response, Self::Error>>;\n\
     \n\
     \x20\x20\x20\x20forward_ready!(service);\n\
     \n\
     \x20\x20\x20\x20fn call(&self, req: ServiceRequest) -> Self::Future {\n\
     \x20\x20\x20\x20\x20\x20\x20\x20let guard = self.guard.clone();\n\
     \x20\x20\x20\x20\x20\x20\x20\x20let service = self.service.clone();\n\
     \n\
     \x20\x20\x20\x20\x20\x20\x20\x20async move {\n\
     \x20\x20\x20\x20\x20\x20\x20\x20\x20\x20\x20\x20let res = service.call(req).await?;\n\
     \x20\x20\x20\x20\x20\x20\x20\x20\x20\x20\x20\x20Ok(res)\n\
     \x20\x20\x20\x20\x20\x20\x20\x20}\n\
     \x20\x20\x20\x20\x20\x20\x20\x20.boxed_local()\n\
     \x20\x20\x20\x20}\n\
     }\n\
     ";

#[test]
fn interceptor_without_contracts() {
    let mut buf = String::new();
    mw_interceptor(&mut buf, "Auth", &[]);
    assert_eq!(buf, WITHOUT_CONTRACTS);
}

#[test]
fn interceptor_with_two_contracts() {
    let mut buf = String::new();
    mw_interceptor(&mut buf, "Auth", &["repository", "cache"]);
    assert_eq!(buf, WITH_TWO_CONTRACTS);
}

#[test]
fn interceptor_writes_after_what_the_buffer_holds() {
    let mut buf = String::from("// generated\n");
    mw_interceptor(&mut buf, "Auth", &[]);
    assert_eq!(buf, format!("// generated\n{}", WITHOUT_CONTRACTS));
}

#[test]
fn names_get_a_capital() {
    assert_eq!(uppercase("repository"), "Repository");
    assert_eq!(uppercase("Cache"), "Cache");
    assert_eq!(uppercase("z"), "Z");
    assert_eq!(uppercase(""), "");
    assert_eq!(uppercase("9lives"), "9lives");
    assert_eq!(uppercase("\u{e9}t\u{e9}"), "\u{e9}t\u{e9}");
    assert_eq!(first_letter("repository"), "R");
    assert_eq!(first_letter(""), "");
    assert_eq!(first_letter("_x"), "_");
    assert_eq!(INDENT, "    ");
}

#[test]
fn type_parameters_are_listed_in_brackets() {
    let mut s = String::from("impl");
    write_letter_bounds(&mut s, &["repository", "cache"], true);
    assert_eq!(s, "impl<R, C, S>");
    let mut s = String::new();
    write_letter_bounds(&mut s, &["repository"], false);
    assert_eq!(s, "<R>");
    let mut s = String::new();
    write_letter_bounds(&mut s, &[], true);
    assert_eq!(s, "<S>");
    let mut s = String::from("x");
    write_letter_bounds(&mut s, &[], false);
    assert_eq!(s, "x");
}

#[test]
fn contracts_are_imported_and_bound() {
    let mut s = String::from("{ServiceContract, ");
    write_contracts_use(&mut s, &["repository", "cache"]);
    assert_eq!(s, "{ServiceContract, RepositoryContract, CacheContract};\n");
    let mut s = String::new();
    write_bound_lines(&mut s, &["repository", "cache"], "Contract,\n");
    assert_eq!(s, "    R: RepositoryContract,\n    C: CacheContract,\n");
    let mut s = String::new();
    write_bound_lines(&mut s, &[], "Contract,\n");
    assert_eq!(s, "");
}
