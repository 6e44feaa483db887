//! Reading a route out of the setup code of a server.
//!
//! A route is set up by a chain of method calls, such as
//! `web::resource("/users").route(web::get().to(handler::get::<Service>)).wrap(guard)`.
//! The chain is given as a tree of expressions, as far as the reading needs
//! them; [`scan_call_recursive`] walks it and collects the route's path,
//! method, handler, service and middleware.

use std::collections::HashMap;
use vstd::prelude::*;

verus! {

broadcast use vstd::std_specs::hash::group_hash_axioms;

/// One segment of a path, such as `get::<Service>` in `handler::get::<Service>`.
pub struct PathSegment {
    pub ident: String,
    /// Whether the segment has no arguments at all.
    pub plain: bool,
    /// Of each argument in angle brackets that is a type named by a path,
    /// the first identifier of that path.
    pub type_args: Vec<String>,
}

/// A path, such as `web::get`.
pub struct Path {
    /// Whether the path starts with `::`.
    pub leading_colon: bool,
    pub segments: Vec<PathSegment>,
}

/// An expression, as far as the reading tells expressions apart.
pub enum Expr {
    /// `receiver.method(args)`
    MethodCall(Box<MethodCall>),
    /// `func(args)`
    Call(Box<Call>),
    Path(Path),
    /// A string literal, with its value.
    Str(String),
    /// Anything else.
    Other,
}

pub struct MethodCall {
    pub receiver: Expr,
    pub args: Vec<Expr>,
}

pub struct Call {
    pub func: Expr,
    pub args: Vec<Expr>,
}

/// What is known of a route.
pub struct Route {
    pub path: String,
    pub method: String,
    pub handler_name: String,
    pub service: Option<String>,
    pub middleware: Option<Vec<String>>,
}

/// A route as plain text.
pub struct RouteView {
    pub path: Seq<char>,
    pub method: Seq<char>,
    pub handler_name: Seq<char>,
    pub service: Option<Seq<char>>,
    pub middleware: Option<Seq<Seq<char>>>,
}

/// The texts of a list of strings.
pub open spec fn texts(list: Seq<String>) -> Seq<Seq<char>> {
    list.map_values(|s: String| s@)
}

impl View for Route {
    type V = RouteView;

    open spec fn view(&self) -> RouteView {
        RouteView {
            path: self.path@,
            method: self.method@,
            handler_name: self.handler_name@,
            service: match self.service {
                Some(s) => Some(s@),
                None => None,
            },
            middleware: match self.middleware {
                Some(list) => Some(texts(list@)),
                None => None,
            },
        }
    }
}

/// What was found at each level of the chain, as plain text.
pub open spec fn notes(stuff: Map<usize, Vec<String>>) -> Map<usize, Seq<Seq<char>>> {
    Map::new(|level: usize| stuff.contains_key(level), |level: usize| texts(stuff[level]@))
}

/// What the reading has collected at some point of the walk.
pub struct Scan {
    pub route: RouteView,
    pub level: usize,
    pub stuff: Map<usize, Seq<Seq<char>>>,
}

impl Scan {
    /// With `found` added to what was found at the current level.
    pub open spec fn noted(self, found: Seq<char>) -> Scan {
        let so_far = if self.stuff.contains_key(self.level) {
            self.stuff[self.level]
        } else {
            Seq::empty()
        };
        Scan { stuff: self.stuff.insert(self.level, so_far.push(found)), ..self }
    }

    /// With `wrapper` added to the route's middleware, and noted.
    pub open spec fn wrapped(self, wrapper: Seq<char>) -> Scan {
        let middleware = match self.route.middleware {
            Some(list) => list.push(wrapper),
            None => seq![wrapper],
        };
        Scan { route: RouteView { middleware: Some(middleware), ..self.route }, ..self }.noted(
            wrapper,
        )
    }

    /// With `path` as the route's path, and noted.
    pub open spec fn at_path(self, path: Seq<char>) -> Scan {
        Scan { route: RouteView { path, ..self.route }, ..self }.noted(path)
    }

    /// With `method` as the route's method, and noted.
    pub open spec fn by_method(self, method: Seq<char>) -> Scan {
        Scan { route: RouteView { method, ..self.route }, ..self }.noted(method)
    }

    /// With the handler and its service, both noted: first the service, or
    /// an empty text where there is none, then the handler.
    pub open spec fn handled(self, handler: Seq<char>, service: Option<Seq<char>>) -> Scan {
        let named = match service {
            Some(s) => s,
            None => Seq::empty(),
        };
        let noted = self.noted(named).noted(handler);
        Scan { route: RouteView { handler_name: handler, service, ..noted.route }, ..noted }
    }

    /// One level further. The level stays where no number is left.
    pub open spec fn leveled(self) -> Scan {
        Scan {
            level: if self.level < usize::MAX {
                (self.level + 1) as usize
            } else {
                self.level
            },
            ..self
        }
    }
}

impl Path {
    /// The path's one identifier, where the path is nothing but an
    /// identifier.
    pub open spec fn ident(self) -> Option<Seq<char>> {
        if !self.leading_colon && self.segments@.len() == 1 && self.segments@[0].plain {
            Some(self.segments@[0].ident@)
        } else {
            None
        }
    }

    /// The path's one identifier, where the path is nothing but an
    /// identifier.
    pub fn get_ident(&self) -> (ident: Option<&String>)
        ensures
            match ident {
                Some(name) => self.ident() == Some(name@),
                None => self.ident() is None,
            },
    {
        if !self.leading_colon && self.segments.len() == 1 && self.segments[0].plain {
            Some(&self.segments[0].ident)
        } else {
            None
        }
    }
}

/// The service that the first `k` type arguments name: the last of them, or
/// `service` where there is none.
pub open spec fn service_upto(type_args: Seq<String>, k: int, service: Option<Seq<char>>)
    -> Option<Seq<char>> {
    if k <= 0 {
        service
    } else {
        Some(type_args[k - 1]@)
    }
}

/// Handler and service as the first `k` segments of the handler's path name
/// them. A segment called `handler` is the module and names nothing. Of the
/// others, the last is the handler, and the last type argument on any of
/// them is the service.
pub open spec fn named_upto(segments: Seq<PathSegment>, k: int) -> (
    Option<Seq<char>>,
    Option<Seq<char>>,
)
    decreases k,
{
    if k <= 0 {
        (None, None)
    } else {
        let before = named_upto(segments, k - 1);
        let segment = segments[k - 1];
        if segment.ident@ == "handler"@ {
            before
        } else {
            (
                Some(segment.ident@),
                service_upto(segment.type_args@, segment.type_args@.len() as int, before.1),
            )
        }
    }
}

/// The reading after the path of a handler: where the path names a
/// handler, handler and service are taken over.
pub open spec fn scan_handler(path: Path, s: Scan) -> Scan {
    let named = named_upto(path.segments@, path.segments@.len() as int);
    match named.0 {
        Some(handler) => s.handled(handler, named.1),
        None => s,
    }
}

/// The reading after the arguments of a call that makes a resource: a
/// string literal in the first place is the route's path.
pub open spec fn scan_resource(args: Seq<Expr>, s: Scan) -> Scan {
    if args.len() > 0 {
        match args[0] {
            Expr::Str(path) => s.at_path(path@),
            _ => s,
        }
    } else {
        s
    }
}

/// The reading after an expression that may be a middleware wrapper: a
/// path that is nothing but an identifier.
pub open spec fn scan_wrapper(e: Expr, s: Scan) -> Scan {
    match e {
        Expr::Path(path) => match path.ident() {
            Some(wrapper) => s.wrapped(wrapper),
            None => s,
        },
        _ => s,
    }
}

/// The reading after the call that is the receiver of a method call among
/// the arguments, as in `web::get().to(..)`: the last segment of the called
/// path is the route's method, and a string literal in the first place is
/// its path.
pub open spec fn scan_method(e: Expr, s: Scan) -> Scan {
    match e {
        Expr::Call(call) => {
            let named = match call.func {
                Expr::Path(func) => if func.segments@.len() > 0 {
                    s.by_method(func.segments@.last().ident@)
                } else {
                    s
                },
                _ => s,
            };
            scan_resource(call.args@, named)
        },
        _ => s,
    }
}

/// The reading after the first argument of a method call among the
/// arguments: a path there is the handler's.
pub open spec fn scan_first(args: Seq<Expr>, s: Scan) -> Scan {
    if args.len() > 0 {
        match args[0] {
            Expr::Path(path) => scan_handler(path, s),
            _ => s,
        }
    } else {
        s
    }
}

/// The reading after the receiver of a method call: a method call there is
/// read first, and the call that makes the resource gives the path.
pub open spec fn scan_receiver(call: MethodCall, s: Scan) -> Scan
    decreases call, 0nat,
{
    match call.receiver {
        Expr::MethodCall(inner) => scan(*inner, s),
        Expr::Call(made) => scan_resource(made.args@, s),
        _ => s,
    }
}

/// The reading after a whole method call: first its receiver, then its
/// arguments in order, and then one level up.
pub open spec fn scan(call: MethodCall, s: Scan) -> Scan
    decreases call, 1nat,
{
    scan_args(call.args@, call.args@.len(), scan_receiver(call, s)).leveled()
}

/// The reading after the first `k` arguments of a method call.
pub open spec fn scan_args(args: Seq<Expr>, k: nat, s: Scan) -> Scan
    decreases args, k,
{
    if k == 0 || k > args.len() {
        s
    } else {
        scan_arg(args[k - 1], scan_args(args, (k - 1) as nat, s))
    }
}

/// The reading after one argument of a method call: a wrapper, or a method
/// call that names method, path, wrapper or handler.
pub open spec fn scan_arg(arg: Expr, s: Scan) -> Scan
    decreases arg, 0nat,
{
    let wrapped = scan_wrapper(arg, s);
    match arg {
        Expr::MethodCall(call) => {
            let received = match call.receiver {
                Expr::MethodCall(inner) => scan(*inner, wrapped),
                _ => wrapped,
            };
            let by_method = scan_method(call.receiver, received);
            let guarded = scan_wrapper(call.receiver, by_method);
            scan_first(call.args@, guarded)
        },
        _ => wrapped,
    }
}

/// What the reading holds in `route`, `level` and `stuff`.
pub open spec fn reading(route: Route, level: usize, stuff: HashMap<usize, Vec<String>>) -> Scan {
    Scan { route: route@, level, stuff: notes(stuff@) }
}

/// Adds `found` to what was found at `level`.
fn remember(stuff: &mut HashMap<usize, Vec<String>>, level: usize, found: String)
    ensures
        notes(final(stuff)@) == notes(old(stuff)@).insert(
            level,
            (if old(stuff)@.contains_key(level) {
                texts(old(stuff)@[level]@)
            } else {
                Seq::empty()
            }).push(found@),
        ),
{
    let ghost before = stuff@;
    let mut list = match stuff.remove(&level) {
        Some(list) => list,
        None => Vec::new(),
    };
    let ghost so_far = list@;
    list.push(found);
    assert(texts(list@) =~= texts(so_far).push(found@));
    stuff.insert(level, list);
    let ghost goal = notes(before).insert(
        level,
        (if before.contains_key(level) {
            texts(before[level]@)
        } else {
            Seq::empty()
        }).push(found@),
    );
    assert(texts(Seq::<String>::empty()) =~= Seq::<Seq<char>>::empty());
    assert forall|k: usize| notes(stuff@).contains_key(k) implies notes(stuff@)[k] == goal[k] by {
        if k == level {
            assert(stuff@[k] == list);
        } else {
            assert(stuff@[k] == before[k]);
        }
    }
    assert(notes(stuff@) =~= goal);
}

/// Adds `wrapper` to the route's middleware and notes it.
fn wrap(
    wrapper: &String,
    route: &mut Route,
    level: usize,
    stuff: &mut HashMap<usize, Vec<String>>,
)
    ensures
        reading(*final(route), level, *final(stuff)) == reading(
            *old(route),
            level,
            *old(stuff),
        ).wrapped(wrapper@),
{
    let ghost before = route@;
    let taken = route.middleware.take();
    let mut list = match taken {
        Some(list) => list,
        None => Vec::new(),
    };
    let ghost so_far = list@;
    list.push(wrapper.clone());
    assert(texts(list@) =~= texts(so_far).push(wrapper@));
    assert(before.middleware is None ==> texts(list@) =~= seq![wrapper@]);
    route.middleware = Some(list);
    remember(stuff, level, wrapper.clone());
}

/// Reads an expression that may be a middleware wrapper.
fn read_wrapper(
    e: &Expr,
    route: &mut Route,
    level: usize,
    stuff: &mut HashMap<usize, Vec<String>>,
)
    ensures
        reading(*final(route), level, *final(stuff)) == scan_wrapper(
            *e,
            reading(*old(route), level, *old(stuff)),
        ),
{
    if let Expr::Path(path) = e {
        if let Some(wrapper) = path.get_ident() {
            wrap(wrapper, route, level, stuff);
        }
    }
}

/// Reads the arguments of a call that makes a resource.
fn read_resource(
    args: &Vec<Expr>,
    route: &mut Route,
    level: usize,
    stuff: &mut HashMap<usize, Vec<String>>,
)
    ensures
        reading(*final(route), level, *final(stuff)) == scan_resource(
            args@,
            reading(*old(route), level, *old(stuff)),
        ),
{
    if args.len() > 0 {
        if let Expr::Str(path) = &args[0] {
            route.path = path.clone();
            remember(stuff, level, path.clone());
        }
    }
}

/// Reads the receiver of a method call among the arguments.
fn read_method(
    e: &Expr,
    route: &mut Route,
    level: usize,
    stuff: &mut HashMap<usize, Vec<String>>,
)
    ensures
        reading(*final(route), level, *final(stuff)) == scan_method(
            *e,
            reading(*old(route), level, *old(stuff)),
        ),
{
    if let Expr::Call(call) = e {
        if let Expr::Path(func) = &call.func {
            let n = func.segments.len();
            if n > 0 {
                route.method = func.segments[n - 1].ident.clone();
                remember(stuff, level, route.method.clone());
            }
        }
        read_resource(&call.args, route, level, stuff);
    }
}

/// The handler and the service that the path of a handler names.
fn handler_of(path: &Path) -> (named: (Option<String>, Option<String>))
    ensures
        match named.0 {
            Some(handler) => named_upto(path.segments@, path.segments@.len() as int).0 == Some(
                handler@,
            ),
            None => named_upto(path.segments@, path.segments@.len() as int).0 is None,
        },
        match named.1 {
            Some(service) => named_upto(path.segments@, path.segments@.len() as int).1 == Some(
                service@,
            ),
            None => named_upto(path.segments@, path.segments@.len() as int).1 is None,
        },
{
    let module = String::from_str("handler");
    let mut handler: Option<String> = None;
    let mut service: Option<String> = None;
    let mut i: usize = 0;
    while i < path.segments.len()
        invariant
            i <= path.segments@.len(),
            module@ == "handler"@,
            match handler {
                Some(h) => named_upto(path.segments@, i as int).0 == Some(h@),
                None => named_upto(path.segments@, i as int).0 is None,
            },
            match service {
                Some(s) => named_upto(path.segments@, i as int).1 == Some(s@),
                None => named_upto(path.segments@, i as int).1 is None,
            },
        decreases path.segments@.len() - i,
    {
        let segment = &path.segments[i];
        if segment.ident != module {
            let n = segment.type_args.len();
            if n > 0 {
                service = Some(segment.type_args[n - 1].clone());
            }
            handler = Some(segment.ident.clone());
        }
        i = i + 1;
    }
    (handler, service)
}

/// Reads the first argument of a method call among the arguments.
fn read_first(
    args: &Vec<Expr>,
    route: &mut Route,
    level: usize,
    stuff: &mut HashMap<usize, Vec<String>>,
)
    ensures
        reading(*final(route), level, *final(stuff)) == scan_first(
            args@,
            reading(*old(route), level, *old(stuff)),
        ),
{
    if args.len() > 0 {
        if let Expr::Path(path) = &args[0] {
            let (handler, service) = handler_of(path);
            if let Some(h) = handler {
                let named = match &service {
                    Some(s) => s.clone(),
                    None => String::new(),
                };
                remember(stuff, level, named);
                remember(stuff, level, h.clone());
                route.handler_name = h;
                route.service = service;
            }
        }
    }
}

/// Reads one argument of a method call.
fn read_arg(
    arg: &Expr,
    route: &mut Route,
    level: &mut usize,
    stuff: &mut HashMap<usize, Vec<String>>,
)
    ensures
        reading(*final(route), *final(level), *final(stuff)) == scan_arg(
            *arg,
            reading(*old(route), *old(level), *old(stuff)),
        ),
    decreases arg, 0nat,
{
    read_wrapper(arg, route, *level, stuff);
    if let Expr::MethodCall(call) = arg {
        if let Expr::MethodCall(inner) = &call.receiver {
            scan_call_recursive(inner, route, level, stuff);
        }
        read_method(&call.receiver, route, *level, stuff);
        read_wrapper(&call.receiver, route, *level, stuff);
        read_first(&call.args, route, *level, stuff);
    }
}

/// Read a method call recursively and map all its arguments and receivers.
///
/// The route takes the path, method, handler, service and middleware that
/// the chain names. `stuff` takes everything found, under the level at
/// which it was found, and `level` grows by one with every method call of
/// the chain that is read.
pub fn scan_call_recursive(
    method_call: &MethodCall,
    route: &mut Route,
    level: &mut usize,
    stuff: &mut HashMap<usize, Vec<String>>,
)
    ensures
        reading(*final(route), *final(level), *final(stuff)) == scan(
            *method_call,
            reading(*old(route), *old(level), *old(stuff)),
        ),
    decreases method_call, 1nat,
{
    // If the receiver is another method call, scan it recursively.
    if let Expr::MethodCall(inner) = &method_call.receiver {
        scan_call_recursive(inner, route, level, stuff);
    }
    // This checks for the resource("/path") string literal.
    if let Expr::Call(made) = &method_call.receiver {
        read_resource(&made.args, route, *level, stuff);
    }
    // Iterate through all the method call arguments
    let mut i: usize = 0;
    while i < method_call.args.len()
        invariant
            i <= method_call.args@.len(),
            reading(*route, *level, *stuff) == scan_args(
                method_call.args@,
                i as nat,
                scan_receiver(*method_call, reading(*old(route), *old(level), *old(stuff))),
            ),
        decreases method_call.args@.len() - i,
    {
        read_arg(&method_call.args[i], route, level, stuff);
        i = i + 1;
    }
    if *level < usize::MAX {
        *level = *level + 1;
    }
}

} // verus!
