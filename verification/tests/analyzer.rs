use hextacy::analyzer::{scan_call_recursive, Call, Expr, MethodCall, Path, PathSegment, Route};
use std::collections::HashMap;

fn segment(ident: &str) -> PathSegment {
    PathSegment { ident: ident.to_string(), plain: true, type_args: vec![] }
}

fn path(idents: &[&str]) -> Expr {
    Expr::Path(Path {
        leading_colon: false,
        segments: idents.iter().map(|i| segment(i)).collect(),
    })
}

fn call(func: &[&str], args: Vec<Expr>) -> Expr {
    Expr::Call(Box::new(Call { func: path(func), args }))
}

fn method(receiver: Expr, args: Vec<Expr>) -> MethodCall {
    MethodCall { receiver, args }
}

fn handler(name: &str, service: Option<&str>) -> Expr {
    let last = PathSegment {
        ident: name.to_string(),
        plain: service.is_none(),
        type_args: service.iter().map(|s| s.to_string()).collect(),
    };
    Expr::Path(Path { leading_colon: false, segments: vec![segment("handler"), last] })
}

fn empty_route() -> Route {
    Route {
        path: String::new(),
        method: String::new(),
        handler_name: String::new(),
        service: None,
        middleware: None,
    }
}

fn strings(items: &[&str]) -> Vec<String> {
    items.iter().map(|s| s.to_string()).collect()
}

#[test]
fn guarded_resource_is_read_in_full() {
    // web::resource("/users")
    //     .route(web::get().to(handler::get_paginated::<UserService>))
    //     .wrap(auth_guard)
    let to = method(
        call(&["web", "get"], vec![]),
        vec![handler("get_paginated", Some("UserService"))],
    );
    let route_call = method(
        call(&["web", "resource"], vec![Expr::Str("/users".to_string())]),
        vec![Expr::MethodCall(Box::new(to))],
    );
    let wrap = method(Expr::MethodCall(Box::new(route_call)), vec![path(&["auth_guard"])]);

    let mut route = empty_route();
    let mut level = 0;
    let mut stuff = HashMap::new();
    scan_call_recursive(&wrap, &mut route, &mut level, &mut stuff);

    assert_eq!(route.path, "/users");
    assert_eq!(route.method, "get");
    assert_eq!(route.handler_name, "get_paginated");
    assert_eq!(route.service, Some("UserService".to_string()));
    assert_eq!(route.middleware, Some(strings(&["auth_guard"])));
    assert_eq!(level, 2);
    assert_eq!(stuff.len(), 2);
    assert_eq!(stuff[&0], strings(&["/users", "get", "UserService", "get_paginated"]));
    assert_eq!(stuff[&1], strings(&["auth_guard"]));
}

#[test]
fn handler_without_service_notes_an_empty_name() {
    // web::post().to(handler::login)
    let to = method(call(&["web", "post"], vec![]), vec![handler("login", None)]);
    // something.route(<to>)
    let outer = method(Expr::Other, vec![Expr::MethodCall(Box::new(to))]);
    let mut route = empty_route();
    let mut level = 7;
    let mut stuff = HashMap::new();
    scan_call_recursive(&outer, &mut route, &mut level, &mut stuff);
    assert_eq!(route.method, "post");
    assert_eq!(route.handler_name, "login");
    assert_eq!(route.service, None);
    assert_eq!(route.path, "");
    assert_eq!(route.middleware, None);
    assert_eq!(level, 8);
    assert_eq!(stuff[&7], strings(&["post", "", "login"]));
}

#[test]
fn wrappers_add_up_and_paths_with_arguments_are_no_wrappers() {
    let generic = Expr::Path(Path {
        leading_colon: false,
        segments: vec![PathSegment {
            ident: "guard".to_string(),
            plain: false,
            type_args: strings(&["T"]),
        }],
    });
    let rooted = Expr::Path(Path { leading_colon: true, segments: vec![segment("guard")] });
    let outer = method(
        Expr::Other,
        vec![path(&["first"]), generic, rooted, path(&["a", "b"]), path(&["second"])],
    );
    let mut route = empty_route();
    route.middleware = Some(strings(&["zeroth"]));
    let mut level = 0;
    let mut stuff = HashMap::new();
    stuff.insert(0, strings(&["kept"]));
    scan_call_recursive(&outer, &mut route, &mut level, &mut stuff);
    assert_eq!(route.middleware, Some(strings(&["zeroth", "first", "second"])));
    assert_eq!(stuff[&0], strings(&["kept", "first", "second"]));
    assert_eq!(level, 1);
}

#[test]
fn wrapper_as_receiver_of_an_argument_and_literal_of_its_call() {
    // outer(<guard.method()>, <web::resource("/x").method()>)
    let on_guard = method(path(&["guard"]), vec![]);
    let on_resource = method(
        call(&["web", "resource"], vec![Expr::Str("/x".to_string())]),
        vec![Expr::Str("ignored".to_string())],
    );
    let outer = method(
        Expr::Other,
        vec![
            Expr::MethodCall(Box::new(on_guard)),
            Expr::MethodCall(Box::new(on_resource)),
        ],
    );
    let mut route = empty_route();
    let mut level = 0;
    let mut stuff = HashMap::new();
    scan_call_recursive(&outer, &mut route, &mut level, &mut stuff);
    assert_eq!(route.middleware, Some(strings(&["guard"])));
    assert_eq!(route.method, "resource");
    assert_eq!(route.path, "/x");
    assert_eq!(stuff[&0], strings(&["guard", "resource", "/x"]));
}

#[test]
fn path_of_handler_modules_only_names_nothing() {
    let only_module = Expr::Path(Path {
        leading_colon: false,
        segments: vec![segment("handler"), segment("handler")],
    });
    let to = method(call(&["web", "get"], vec![]), vec![only_module]);
    let outer = method(Expr::Other, vec![Expr::MethodCall(Box::new(to))]);
    let mut route = empty_route();
    let mut level = usize::MAX;
    let mut stuff = HashMap::new();
    scan_call_recursive(&outer, &mut route, &mut level, &mut stuff);
    assert_eq!(route.handler_name, "");
    assert_eq!(route.method, "get");
    assert_eq!(level, usize::MAX);
    assert_eq!(stuff[&usize::MAX], strings(&["get"]));
}
