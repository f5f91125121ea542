use std::rc::Rc;

use actix_chain::factory::ResourceDef;
use actix_chain::fastcgi::factory::FastCGI;
use actix_chain::fastcgi::service::{param_name, FastCGIInner, FastCGIService};
use actix_chain::fastcgi::stream::StreamAddr;
use actix_chain::request::{Endpoint, RequestHead};
use actix_chain::uri::Uri;

fn request() -> RequestHead {
    RequestHead {
        method: "POST".to_string(),
        uri: Uri::from_parts(None, None, Some("/index.php?a=b".to_string())).unwrap(),
        host: "example.com".to_string(),
        local_addr: Endpoint { ip: "10.0.0.1".to_string(), port: 8080 },
        peer_addr: Some(Endpoint { ip: "192.168.1.7".to_string(), port: 50123 }),
        headers: vec![
            ("content-type".to_string(), Some("text/plain".to_string())),
            ("content-length".to_string(), Some("3".to_string())),
            ("x-forwarded-for".to_string(), Some("1.2.3.4".to_string())),
            ("x-binary".to_string(), None),
            ("accept".to_string(), Some("*/*".to_string())),
            ("accept".to_string(), Some("text/html".to_string())),
        ],
    }
}

fn service() -> FastCGIService {
    FastCGIService(Rc::new(FastCGIInner {
        root: "/var/www".to_string(),
        fastcgi_address: "tcp://127.0.0.1:9000".to_string(),
    }))
}

#[test]
fn header_names_become_parameter_names() {
    assert_eq!(param_name("content-type"), "CONTENT_TYPE");
    assert_eq!(param_name("content-length"), "CONTENT_LENGTH");
    assert_eq!(param_name("x-forwarded-for"), "HTTP_X_FORWARDED_FOR");
    assert_eq!(param_name("accept"), "HTTP_ACCEPT");
    assert_eq!(param_name("content-encoding"), "HTTP_CONTENT_ENCODING");
    assert_eq!(param_name(""), "HTTP_");
    assert_eq!(param_name("--a--"), "HTTP___A__");
}

#[test]
fn fill_params_sets_script_server_and_client() {
    let params = service().fill_params("/var/www/index.php", "index.php", &request());
    let get = |name: &str| params.get(name).map(|value| value.to_string());
    assert_eq!(get("GATEWAY_INTERFACE"), Some("FastCGI/1.0".to_string()));
    assert_eq!(get("SERVER_SOFTWARE"), Some("fastcgi-client-rs".to_string()));
    assert_eq!(get("SERVER_PROTOCOL"), Some("HTTP/1.1".to_string()));
    assert_eq!(get("DOCUMENT_URI"), Some("/index.php".to_string()));
    assert_eq!(get("DOCUMENT_ROOT"), Some("/var/www".to_string()));
    assert_eq!(get("REQUEST_METHOD"), Some("POST".to_string()));
    assert_eq!(get("REQUEST_URI"), Some("/index.php".to_string()));
    assert_eq!(get("SCRIPT_NAME"), Some("/index.php".to_string()));
    assert_eq!(get("SCRIPT_FILENAME"), Some("/var/www/index.php".to_string()));
    assert_eq!(get("SERVER_NAME"), Some("example.com".to_string()));
    assert_eq!(get("SERVER_ADDR"), Some("10.0.0.1".to_string()));
    assert_eq!(get("SERVER_PORT"), Some("8080".to_string()));
    assert_eq!(get("REMOTE_ADDR"), Some("192.168.1.7".to_string()));
    assert_eq!(get("REMOTE_PORT"), Some("50123".to_string()));
}

#[test]
fn fill_params_carries_the_header_lines() {
    let params = service().fill_params("/var/www/index.php", "index.php", &request());
    let get = |name: &str| params.get(name).map(|value| value.to_string());
    assert_eq!(get("CONTENT_TYPE"), Some("text/plain".to_string()));
    assert_eq!(get("CONTENT_LENGTH"), Some("3".to_string()));
    assert_eq!(get("HTTP_X_FORWARDED_FOR"), Some("1.2.3.4".to_string()));
    // the later line of a name stays
    assert_eq!(get("HTTP_ACCEPT"), Some("text/html".to_string()));
    // a value that is no text is left out
    assert_eq!(get("HTTP_X_BINARY"), None);
    assert_eq!(params.len(), 3 + 9 + 4 + 2);
}

#[test]
fn fill_params_without_a_client_address() {
    let mut req = request();
    req.peer_addr = None;
    req.headers.clear();
    req.local_addr.port = 0;
    let params = service().fill_params("", "", &req);
    let get = |name: &str| params.get(name).map(|value| value.to_string());
    assert_eq!(get("REMOTE_ADDR"), None);
    assert_eq!(get("REMOTE_PORT"), None);
    assert_eq!(get("SERVER_PORT"), Some("0".to_string()));
    assert_eq!(get("SCRIPT_NAME"), Some("/".to_string()));
    assert_eq!(get("SCRIPT_FILENAME"), Some(String::new()));
    assert_eq!(params.len(), 3 + 9);
}

#[test]
fn header_line_does_not_replace_a_fixed_parameter() {
    let mut req = request();
    req.headers = vec![
        ("_".to_string(), Some("x".to_string())),
        ("server-name".to_string(), Some("evil".to_string())),
        ("request_method".to_string(), Some("DELETE".to_string())),
    ];
    let params = service().fill_params("/r/s", "s", &req);
    let get = |name: &str| params.get(name).map(|value| value.to_string());
    assert_eq!(get("HTTP__"), Some("x".to_string()));
    assert_eq!(get("HTTP_SERVER_NAME"), Some("evil".to_string()));
    assert_eq!(get("HTTP_REQUEST_METHOD"), Some("DELETE".to_string()));
    assert_eq!(get("SERVER_NAME"), Some("example.com".to_string()));
    assert_eq!(get("REQUEST_METHOD"), Some("POST".to_string()));
    assert_eq!(params.len(), 3 + 9 + 3 + 2);
}

#[test]
fn stream_addr_reads_the_scheme() {
    assert_eq!(
        StreamAddr::parse("unix:///var/run/program.sock"),
        StreamAddr::Unix("/var/run/program.sock".to_string())
    );
    assert_eq!(
        StreamAddr::parse("UNIX:///run/a.sock"),
        StreamAddr::Unix("/run/a.sock".to_string())
    );
    assert_eq!(
        StreamAddr::parse("tcp://localhost:9000"),
        StreamAddr::Tcp("localhost:9000".to_string())
    );
    assert_eq!(
        StreamAddr::parse("192.168.0.2:9000"),
        StreamAddr::Tcp("192.168.0.2:9000".to_string())
    );
    assert_eq!(StreamAddr::parse("http://a://b"), StreamAddr::Tcp("a://b".to_string()));
    assert_eq!(StreamAddr::parse("://x"), StreamAddr::Tcp("x".to_string()));
    assert_eq!(StreamAddr::parse(""), StreamAddr::Tcp(String::new()));
    assert_eq!(StreamAddr::parse("unix://"), StreamAddr::Unix(String::new()));
}

#[test]
fn fastcgi_builder_registers_and_assembles() {
    type Guard = fn(&str) -> bool;
    fn any(_: &str) -> bool {
        true
    }
    let declared =
        FastCGI::<Guard>::new("/php", Some("/var/www".to_string()), "tcp://127.0.0.1:9000")
            .guard(any as Guard);
    let service = declared.new_service();
    assert_eq!(service.root, "/var/www");
    assert_eq!(service.fastcgi_address, "tcp://127.0.0.1:9000");
    let registration = declared.register(false);
    assert_eq!(registration.rdef, ResourceDef::Prefix("/php".to_string()));
    assert_eq!(registration.guards.map(|guards| guards.len()), Some(1));
    let plain = FastCGI::<Guard>::new("/", None, "unix:///run/fpm.sock");
    assert_eq!(plain.new_service().root, "");
    let registration = plain.register(true);
    assert_eq!(registration.rdef, ResourceDef::RootPrefix("/".to_string()));
    assert!(registration.guards.is_none());
}
