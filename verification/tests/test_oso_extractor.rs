use actix_web::dev::Extensions;
use actix_web_middleware_oso::extractor::ExtractedOso;
use actix_web_middleware_oso::middleware::Reply;
use actix_web_middleware_oso::{OsoAuthorization, OsoAuthorizationMiddleware};
use oso::{Class, ClassBuilder, Oso, PolarClass};

#[derive(Debug)]
pub struct User {
    pub name: String,
}

impl PolarClass for User {
    fn get_polar_class_builder() -> ClassBuilder<User> {
        Class::builder()
            .name("User")
            .add_attribute_getter("name", |user: &User| user.name.clone())
    }
}

pub fn init_oso() -> Oso {
    let mut o = Oso::new();
    o.register_class(User::get_polar_class()).unwrap();
    o.load_str(r#"allow(actor, _action, _resource) if actor matches User{name: "alice"};"#)
        .unwrap();
    o
}

struct Request;

struct Response {
    status: u16,
    body: String,
}

impl Response {
    fn new(status: u16, body: &str) -> Response {
        Response {
            status,
            body: String::from(body),
        }
    }

    fn is_success(&self) -> bool {
        (200..300).contains(&self.status)
    }
}

/// Runs a handler that asks for the oracle: a failed extraction answers in
/// the handler's place.
fn route(store: &Extensions, handler: fn(ExtractedOso) -> Response) -> Response {
    match ExtractedOso::from_request(store) {
        Ok(oso) => handler(oso),
        Err(e) => Response::new(e.status_code(), e.message()),
    }
}

fn call_service<S, F>(app: &OsoAuthorizationMiddleware<S, F>, req: Request) -> Response
where
    F: Fn(Request, ExtractedOso) -> Result<Request, &'static str>,
    S: Fn(Request, &Extensions) -> Response,
{
    let mut store = Extensions::new();
    match app.call(req, None, &mut store) {
        Reply::Right(response) => response,
        Reply::Left(_) => panic!("the request was rejected"),
    }
}

fn hello(oso: ExtractedOso) -> Response {
    let user = User {
        name: "alice".to_string(),
    };

    if oso.is_allowed(user, "action", "resource").unwrap() {
        Response::new(200, "cool cool")
    } else {
        Response::new(401, "nope, sorry")
    }
}

#[test]
fn test_oso_extractor_success() {
    let o = init_oso();
    let authz = OsoAuthorization::new(o, |req, _oso: ExtractedOso| Ok(req));

    let app = authz.new_transform(|_req: Request, store: &Extensions| route(store, hello));
    let req = Request;
    let resp = call_service(&app, req);

    assert!(resp.is_success());
    assert_eq!(resp.body, "cool cool");
}

fn goodbye(oso: ExtractedOso) -> Response {
    let user = User {
        name: "notalice".to_string(),
    };

    if oso.is_allowed(user, "action", "resource").unwrap() {
        Response::new(200, "cool cool")
    } else {
        Response::new(401, "nope, sorry")
    }
}

#[test]
#[should_panic]
fn test_oso_extractor_failure() {
    let o = init_oso();
    let authz = OsoAuthorization::new(o, |req, _oso: ExtractedOso| Ok(req));

    let app = authz.new_transform(|_req: Request, store: &Extensions| route(store, goodbye));
    let req = Request;
    let resp = call_service(&app, req);

    assert!(resp.is_success());
}

#[test]
#[should_panic]
fn test_oso_extractor_no_oso() {
    let store = Extensions::new();
    let resp = route(&store, goodbye);

    assert!(resp.is_success());
}

#[test]
fn extractor_failure_is_a_refusal_by_the_handler() {
    let o = init_oso();
    let authz = OsoAuthorization::new(o, |req, _oso: ExtractedOso| Ok(req));

    let app = authz.new_transform(|_req: Request, store: &Extensions| route(store, goodbye));
    let resp = call_service(&app, Request);

    assert_eq!(resp.status, 401);
    assert_eq!(resp.body, "nope, sorry");
}

#[test]
fn extractor_without_middleware_is_a_bad_request() {
    let store = Extensions::new();
    let resp = route(&store, goodbye);

    assert_eq!(resp.status, 400);
    assert_eq!(resp.body, "No Oso could be extracted");
}
