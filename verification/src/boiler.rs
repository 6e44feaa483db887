//! Generated source text: the middleware of a service.

use vstd::prelude::*;

verus! {

/// One level of indentation in generated code.
pub const INDENT: &'static str = "    ";

/// The capital of a small Latin letter; any other character is itself.
pub open spec fn upper(c: char) -> char {
    if 'a' <= c && c <= 'z' {
        ((c as u8) - 32) as char
    } else {
        c
    }
}

/// The text with its first character made a capital.
pub open spec fn uppercased(s: Seq<char>) -> Seq<char> {
    if s.len() == 0 {
        s
    } else {
        seq![upper(s[0])] + s.subrange(1, s.len() as int)
    }
}

/// The first character of the text, made a capital: the name of the type
/// parameter that stands for a contract.
pub open spec fn letter(s: Seq<char>) -> Seq<char> {
    if s.len() == 0 {
        s
    } else {
        seq![upper(s[0])]
    }
}

/// The capital of a small Latin letter as a text, or `None` for a character
/// that is its own capital.
fn capital(c: char) -> (text: Option<&'static str>)
    ensures
        text matches Some(s) ==> s@ =~= seq![upper(c)],
        text is None ==> upper(c) == c,
{
    proof {
        reveal_strlit("A");
        reveal_strlit("B");
        reveal_strlit("C");
        reveal_strlit("D");
        reveal_strlit("E");
        reveal_strlit("F");
        reveal_strlit("G");
        reveal_strlit("H");
        reveal_strlit("I");
        reveal_strlit("J");
        reveal_strlit("K");
        reveal_strlit("L");
        reveal_strlit("M");
        reveal_strlit("N");
        reveal_strlit("O");
        reveal_strlit("P");
        reveal_strlit("Q");
        reveal_strlit("R");
        reveal_strlit("S");
        reveal_strlit("T");
        reveal_strlit("U");
        reveal_strlit("V");
        reveal_strlit("W");
        reveal_strlit("X");
        reveal_strlit("Y");
        reveal_strlit("Z");
    }
    match c {
        'a' => Some("A"),
        'b' => Some("B"),
        'c' => Some("C"),
        'd' => Some("D"),
        'e' => Some("E"),
        'f' => Some("F"),
        'g' => Some("G"),
        'h' => Some("H"),
        'i' => Some("I"),
        'j' => Some("J"),
        'k' => Some("K"),
        'l' => Some("L"),
        'm' => Some("M"),
        'n' => Some("N"),
        'o' => Some("O"),
        'p' => Some("P"),
        'q' => Some("Q"),
        'r' => Some("R"),
        's' => Some("S"),
        't' => Some("T"),
        'u' => Some("U"),
        'v' => Some("V"),
        'w' => Some("W"),
        'x' => Some("X"),
        'y' => Some("Y"),
        'z' => Some("Z"),
        _ => None,
    }
}

/// The first character of the name, made a capital.
pub fn first_letter(s: &str) -> (text: String)
    ensures
        text@ == letter(s@),
{
    let n = s.unicode_len();
    if n == 0 {
        return String::from_str(s);
    }
    let first = s.get_char(0);
    match capital(first) {
        Some(capital) => String::from_str(capital),
        None => {
            let head = s.substring_char(0, 1);
            assert(head@ =~= seq![upper(first)]);
            String::from_str(head)
        },
    }
}

/// The name with its first character made a capital.
pub fn uppercase(s: &str) -> (text: String)
    ensures
        text@ == uppercased(s@),
{
    let n = s.unicode_len();
    if n == 0 {
        return String::from_str(s);
    }
    let mut text = first_letter(s);
    text.append(s.substring_char(1, n));
    text
}

/// The traits of the first `k` contracts, separated by commas.
pub open spec fn names_upto(contracts: Seq<&str>, k: int) -> Seq<char>
    decreases k,
{
    if k <= 0 {
        Seq::empty()
    } else {
        let before = names_upto(contracts, k - 1);
        let separated = if k > 1 {
            before + ", "@
        } else {
            before
        };
        separated + uppercased(contracts[k - 1]@) + "Contract"@
    }
}

/// The traits of the contracts and the end of the import that lists them.
pub open spec fn contract_names(contracts: Seq<&str>) -> Seq<char> {
    names_upto(contracts, contracts.len() as int) + "};\n"@
}

/// Writes the traits of the contracts and closes the import that lists
/// them.
pub fn write_contracts_use(stmt: &mut String, contracts: &[&str])
    ensures
        final(stmt)@ == old(stmt)@ + contract_names(contracts@),
{
    let mut names = String::new();
    let mut i: usize = 0;
    while i < contracts.len()
        invariant
            i <= contracts@.len(),
            names@ == names_upto(contracts@, i as int),
        decreases contracts@.len() - i,
    {
        if i > 0 {
            names.append(", ");
        }
        let name = uppercase(contracts[i]);
        names.append(name.as_str());
        names.append("Contract");
        i = i + 1;
    }
    names.append("};\n");
    stmt.append(names.as_str());
}

/// The opening bracket and the letters of the first `k` contracts,
/// separated by commas.
pub open spec fn letters_upto(contracts: Seq<&str>, k: int) -> Seq<char>
    decreases k,
{
    if k <= 0 {
        "<"@
    } else {
        let before = letters_upto(contracts, k - 1);
        let separated = if k > 1 {
            before + ", "@
        } else {
            before
        };
        separated + letter(contracts[k - 1]@)
    }
}

/// The type parameters in angle brackets: one letter per contract, and `S`
/// for the wrapped service where `service` is set. Without parameters there
/// are no brackets.
pub open spec fn bounds(contracts: Seq<&str>, service: bool) -> Seq<char> {
    if contracts.len() == 0 && !service {
        Seq::empty()
    } else {
        let letters = letters_upto(contracts, contracts.len() as int);
        let all = if service {
            let separated = if contracts.len() > 0 {
                letters + ", "@
            } else {
                letters
            };
            separated + "S"@
        } else {
            letters
        };
        all + ">"@
    }
}

/// Writes the type parameters in angle brackets.
pub fn write_letter_bounds(stmt: &mut String, contracts: &[&str], service: bool)
    ensures
        final(stmt)@ == old(stmt)@ + bounds(contracts@, service),
{
    if contracts.len() == 0 && !service {
        assert(stmt@ + Seq::<char>::empty() =~= stmt@);
        return ;
    }
    let mut letters = String::from_str("<");
    let mut i: usize = 0;
    while i < contracts.len()
        invariant
            i <= contracts@.len(),
            letters@ == letters_upto(contracts@, i as int),
        decreases contracts@.len() - i,
    {
        if i > 0 {
            letters.append(", ");
        }
        let one = first_letter(contracts[i]);
        letters.append(one.as_str());
        i = i + 1;
    }
    if service {
        if contracts.len() > 0 {
            letters.append(", ");
        }
        letters.append("S");
    }
    letters.append(">");
    stmt.append(letters.as_str());
}

/// The bounds of the first `k` contracts, one line each: the letter, the
/// trait, and `suffix`.
pub open spec fn lines_upto(contracts: Seq<&str>, suffix: Seq<char>, k: int) -> Seq<char>
    decreases k,
{
    if k <= 0 {
        Seq::empty()
    } else {
        lines_upto(contracts, suffix, k - 1) + INDENT@ + letter(contracts[k - 1]@) + ": "@
            + uppercased(contracts[k - 1]@) + suffix
    }
}

/// The bounds of the contracts, one line each.
pub open spec fn bound_lines(contracts: Seq<&str>, suffix: Seq<char>) -> Seq<char> {
    lines_upto(contracts, suffix, contracts.len() as int)
}

/// Writes the bounds of the contracts, one line each.
pub fn write_bound_lines(stmt: &mut String, contracts: &[&str], suffix: &str)
    ensures
        final(stmt)@ == old(stmt)@ + bound_lines(contracts@, suffix@),
{
    let mut lines = String::new();
    let mut i: usize = 0;
    while i < contracts.len()
        invariant
            i <= contracts@.len(),
            lines@ == lines_upto(contracts@, suffix@, i as int),
        decreases contracts@.len() - i,
    {
        let one = first_letter(contracts[i]);
        let name = uppercase(contracts[i]);
        lines.append(INDENT);
        lines.append(one.as_str());
        lines.append(": ");
        lines.append(name.as_str());
        lines.append(suffix);
        i = i + 1;
    }
    stmt.append(lines.as_str());
}

/// The imports of the generated file.
pub open spec fn use_text(service_name: Seq<char>, contracts: Seq<&str>) -> Seq<char> {
    let head = "use super::contract::"@;
    let body = if contracts.len() > 0 {
        head
            + "{ServiceContract, "@
            + contract_names(contracts)
    } else {
        head
            + "ServiceContract;\n"@
    };
    body
        + "use super::domain::"@
        + service_name
        + ";\n"@
        + "use actix_web::dev::{forward_ready, Service, ServiceRequest, ServiceResponse, Transform};\n"@
        + "use futures_util::future::LocalBoxFuture;\n"@
        + "use futures_util::FutureExt;\n"@
        + "use std::{\n"@
        + "    future::{ready, Ready},\n"@
        + "    rc::Rc,\n"@
        + "};\n\n"@
}

/// The imports of the generated file.
fn use_statement(service_name: &str, contracts: &[&str]) -> (text: String)
    ensures
        text@ == use_text(service_name@, contracts@),
{
    let mut text = String::from_str("use super::contract::");
    if contracts.len() > 0 {
        text.append("{ServiceContract, ");
        write_contracts_use(&mut text, contracts);
    } else {
        text.append("ServiceContract;\n");
    }
    text.append("use super::domain::");
    text.append(service_name);
    text.append(";\n");
    text.append("use actix_web::dev::{forward_ready, Service, ServiceRequest, ServiceResponse, Transform};\n");
    text.append("use futures_util::future::LocalBoxFuture;\n");
    text.append("use futures_util::FutureExt;\n");
    text.append("use std::{\n");
    text.append("    future::{ready, Ready},\n");
    text.append("    rc::Rc,\n");
    text.append("};\n\n");
    text
}

/// The guard: the struct that holds the service.
pub open spec fn guard_text(service_name: Seq<char>, contracts: Seq<&str>) -> Seq<char> {
    let head = "#[derive(Debug, Clone)]\n"@
        + "pub(crate) struct "@
        + service_name
        + "Guard"@;
    let body = if contracts.len() > 0 {
        head
            + bounds(contracts, false)
            + "\n"@
            + "where\n"@
            + bound_lines(contracts, "Contract,\n"@)
            + "{\n"@
            + "    guard: Rc<"@
            + service_name
            + bounds(contracts, false)
    } else {
        head
            + " {\n"@
            + "    guard: Rc<"@
            + service_name
    };
    body
        + ">,\n"@
        + "}\n\n"@
}

/// The guard: the struct that holds the service.
fn guard_struct(service_name: &str, contracts: &[&str]) -> (text: String)
    ensures
        text@ == guard_text(service_name@, contracts@),
{
    let mut text = String::from_str("#[derive(Debug, Clone)]\n");
    text.append("pub(crate) struct ");
    text.append(service_name);
    text.append("Guard");
    if contracts.len() > 0 {
        write_letter_bounds(&mut text, contracts, false);
        text.append("\n");
        text.append("where\n");
        write_bound_lines(&mut text, contracts, "Contract,\n");
        text.append("{\n");
        text.append("    guard: Rc<");
        text.append(service_name);
        write_letter_bounds(&mut text, contracts, false);
    } else {
        text.append(" {\n");
        text.append("    guard: Rc<");
        text.append(service_name);
    }
    text.append(">,\n");
    text.append("}\n\n");
    text
}

/// The guard's `Transform`, which wraps a service in the middleware.
pub open spec fn transform_text(service_name: Seq<char>, contracts: Seq<&str>) -> Seq<char> {
    let head = "impl"@
        + bounds(contracts, true)
        + " Transform<S, ServiceRequest> for "@
        + service_name
        + "Guard"@;
    let body = if contracts.len() > 0 {
        head
            + bounds(contracts, false)
    } else {
        head
    };
    body
        + "\n"@
        + "where\n"@
        + "    S: Service<ServiceRequest, Response = ServiceResponse, Error = actix_web::Error> + 'static,\n"@
        + "    S::Future: 'static,\n"@
        + bound_lines(contracts, "Contract + Send + Sync + 'static,\n"@)
        + "{\n"@
        + "    type Response = ServiceResponse;\n"@
        + "    type Error = actix_web::Error;\n"@
        + "    type InitError = ();\n"@
        + "    type Transform = "@
        + service_name
        + "Middleware"@
        + bounds(contracts, true)
        + ";\n"@
        + "    type Future = Ready<Result<Self::Transform, Self::InitError>>;\n\n"@
        + "    fn new_transform(&self, service: S) -> Self::Future {\n"@
        + "        ready(Ok("@
        + service_name
        + "Middleware {\n"@
        + "            service: Rc::new(service),\n"@
        + "            guard: self.guard.clone(),\n"@
        + "        }))\n"@
        + "    }\n"@
        + "}\n\n"@
}

/// The guard's `Transform`, which wraps a service in the middleware.
fn transform_impl(service_name: &str, contracts: &[&str]) -> (text: String)
    ensures
        text@ == transform_text(service_name@, contracts@),
{
    let mut text = String::from_str("impl");
    write_letter_bounds(&mut text, contracts, true);
    text.append(" Transform<S, ServiceRequest> for ");
    text.append(service_name);
    text.append("Guard");
    if contracts.len() > 0 {
        write_letter_bounds(&mut text, contracts, false);
    }
    text.append("\n");
    text.append("where\n");
    text.append("    S: Service<ServiceRequest, Response = ServiceResponse, Error = actix_web::Error> + 'static,\n");
    text.append("    S::Future: 'static,\n");
    write_bound_lines(&mut text, contracts, "Contract + Send + Sync + 'static,\n");
    text.append("{\n");
    text.append("    type Response = ServiceResponse;\n");
    text.append("    type Error = actix_web::Error;\n");
    text.append("    type InitError = ();\n");
    text.append("    type Transform = ");
    text.append(service_name);
    text.append("Middleware");
    write_letter_bounds(&mut text, contracts, true);
    text.append(";\n");
    text.append("    type Future = Ready<Result<Self::Transform, Self::InitError>>;\n\n");
    text.append("    fn new_transform(&self, service: S) -> Self::Future {\n");
    text.append("        ready(Ok(");
    text.append(service_name);
    text.append("Middleware {\n");
    text.append("            service: Rc::new(service),\n");
    text.append("            guard: self.guard.clone(),\n");
    text.append("        }))\n");
    text.append("    }\n");
    text.append("}\n\n");
    text
}

/// The middleware: the struct that holds the guard and the wrapped service.
pub open spec fn middleware_text(service_name: Seq<char>, contracts: Seq<&str>) -> Seq<char> {
    let head = "pub(crate) struct "@
        + service_name
        + "Middleware"@
        + bounds(contracts, true);
    let body = if contracts.len() > 0 {
        head
            + "\n"@
            + "where\n"@
            + bound_lines(contracts, "Contract,\n"@)
            + "{\n"@
            + "    guard: Rc<"@
            + service_name
            + bounds(contracts, false)
    } else {
        head
            + " {\n"@
            + "    guard: Rc<"@
            + service_name
    };
    body
        + ">,\n"@
        + "    service: Rc<S>,\n"@
        + "}\n\n"@
}

/// The middleware: the struct that holds the guard and the wrapped service.
fn middleware_struct(service_name: &str, contracts: &[&str]) -> (text: String)
    ensures
        text@ == middleware_text(service_name@, contracts@),
{
    let mut text = String::from_str("pub(crate) struct ");
    text.append(service_name);
    text.append("Middleware");
    write_letter_bounds(&mut text, contracts, true);
    if contracts.len() > 0 {
        text.append("\n");
        text.append("where\n");
        write_bound_lines(&mut text, contracts, "Contract,\n");
        text.append("{\n");
        text.append("    guard: Rc<");
        text.append(service_name);
        write_letter_bounds(&mut text, contracts, false);
    } else {
        text.append(" {\n");
        text.append("    guard: Rc<");
        text.append(service_name);
    }
    text.append(">,\n");
    text.append("    service: Rc<S>,\n");
    text.append("}\n\n");
    text
}

/// The middleware's `Service`, which passes each request on.
pub open spec fn service_text(service_name: Seq<char>, contracts: Seq<&str>) -> Seq<char> {
    "impl"@
        + bounds(contracts, true)
        + " Service<ServiceRequest> for "@
        + service_name
        + "Middleware"@
        + bounds(contracts, true)
        + "\n"@
        + "where\n"@
        + "    S: Service<ServiceRequest, Response = ServiceResponse, Error = actix_web::Error> + 'static,\n"@
        + "    S::Future: 'static,\n"@
        + bound_lines(contracts, "Contract + Send + Sync + 'static,\n"@)
        + "{\n"@
        + "    type Response = ServiceResponse;\n"@
        + "    type Error = actix_web::Error;\n"@
        + "    type Future = LocalBoxFuture<'static, Result<Self::Response, Self::Error>>;\n\n"@
        + "    forward_ready!(service);\n\n"@
        + "    fn call(&self, req: ServiceRequest) -> Self::Future {\n"@
        + "        let guard = self.guard.clone();\n"@
        + "        let service = self.service.clone();\n\n"@
        + "        async move {\n"@
        + "            let res = service.call(req).await?;\n"@
        + "            Ok(res)\n"@
        + "        }\n"@
        + "        .boxed_local()\n"@
        + "    }\n"@
        + "}\n"@
}

/// The middleware's `Service`, which passes each request on.
fn service_impl(service_name: &str, contracts: &[&str]) -> (text: String)
    ensures
        text@ == service_text(service_name@, contracts@),
{
    let mut text = String::from_str("impl");
    write_letter_bounds(&mut text, contracts, true);
    text.append(" Service<ServiceRequest> for ");
    text.append(service_name);
    text.append("Middleware");
    write_letter_bounds(&mut text, contracts, true);
    text.append("\n");
    text.append("where\n");
    text.append("    S: Service<ServiceRequest, Response = ServiceResponse, Error = actix_web::Error> + 'static,\n");
    text.append("    S::Future: 'static,\n");
    write_bound_lines(&mut text, contracts, "Contract + Send + Sync + 'static,\n");
    text.append("{\n");
    text.append("    type Response = ServiceResponse;\n");
    text.append("    type Error = actix_web::Error;\n");
    text.append("    type Future = LocalBoxFuture<'static, Result<Self::Response, Self::Error>>;\n\n");
    text.append("    forward_ready!(service);\n\n");
    text.append("    fn call(&self, req: ServiceRequest) -> Self::Future {\n");
    text.append("        let guard = self.guard.clone();\n");
    text.append("        let service = self.service.clone();\n\n");
    text.append("        async move {\n");
    text.append("            let res = service.call(req).await?;\n");
    text.append("            Ok(res)\n");
    text.append("        }\n");
    text.append("        .boxed_local()\n");
    text.append("    }\n");
    text.append("}\n");
    text
}

/// The source of the middleware that guards `service_name`: the imports,
/// the guard, its `Transform`, the middleware, and its `Service`. Each
/// contract becomes a type parameter named by its first letter and bound by
/// its trait.
pub open spec fn interceptor_text(service_name: Seq<char>, contracts: Seq<&str>) -> Seq<char> {
    use_text(service_name, contracts) + guard_text(service_name, contracts) + transform_text(
        service_name,
        contracts,
    ) + middleware_text(service_name, contracts) + service_text(service_name, contracts)
}

/// Writes the source of the middleware that guards `service_name` to the
/// end of `buf`.
pub fn mw_interceptor(buf: &mut String, service_name: &str, contracts: &[&str])
    ensures
        final(buf)@ == old(buf)@ + interceptor_text(service_name@, contracts@),
{
    let mut text = use_statement(service_name, contracts);
    text.append(guard_struct(service_name, contracts).as_str());
    text.append(transform_impl(service_name, contracts).as_str());
    text.append(middleware_struct(service_name, contracts).as_str());
    text.append(service_impl(service_name, contracts).as_str());
    buf.append(text.as_str());
}

} // verus!
