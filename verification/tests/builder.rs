use reqwest_traits::{check_header_name, check_header_value, BuildError, Client, Method};

#[test]
fn header_name_grammar() {
    assert!(check_header_name(b"Content-Type"));
    assert!(check_header_name(b"x-request-id"));
    assert!(check_header_name(b"X_Custom.1!#$%&'*+^`|~"));
    assert!(!check_header_name(b""));
    assert!(!check_header_name(b"Bad Header"));
    assert!(!check_header_name(b"Bad:Header"));
    assert!(!check_header_name(b"Bad\nHeader"));
    assert!(!check_header_name(b"Bad\"Header\""));
}

#[test]
fn header_value_grammar() {
    assert!(check_header_value(b"application/text"));
    assert!(check_header_value(b"no-cache"));
    assert!(check_header_value(b""));
    assert!(check_header_value(b"with space and ~ punctuation!"));
    assert!(!check_header_value(b"line\nbreak"));
    assert!(!check_header_value(b"carriage\rreturn"));
    assert!(!check_header_value(b"tab\tseparated"));
    assert!(!check_header_value(&[0x00]));
    assert!(!check_header_value(&[0x7f]));
    assert!(!check_header_value(&[0x80]));
}

#[test]
fn method_names() {
    assert_eq!(Method::Get.name(), "GET");
    assert_eq!(Method::Post.name(), "POST");
    assert_eq!(Method::Put.name(), "PUT");
    assert_eq!(Method::Patch.name(), "PATCH");
    assert_eq!(Method::Delete.name(), "DELETE");
    assert_eq!(Method::Head.name(), "HEAD");
}

#[test]
fn verb_constructors_set_the_method() {
    let c = Client::new();
    let url = "http://localhost/example";
    assert_eq!(c.get(url.to_string()).build().unwrap().method, Method::Get);
    assert_eq!(c.post(url.to_string()).build().unwrap().method, Method::Post);
    assert_eq!(c.put(url.to_string()).build().unwrap().method, Method::Put);
    assert_eq!(c.patch(url.to_string()).build().unwrap().method, Method::Patch);
    assert_eq!(c.delete(url.to_string()).build().unwrap().method, Method::Delete);
    assert_eq!(c.head(url.to_string()).build().unwrap().method, Method::Head);
}

#[test]
fn request_keeps_an_arbitrary_method() {
    let c = Client::new();
    let methods = vec![
        Method::Get,
        Method::Post,
        Method::Put,
        Method::Patch,
        Method::Delete,
        Method::Head,
    ];
    for m in methods {
        let req = c
            .request(m, "http://localhost/example".to_string())
            .build()
            .unwrap();
        assert_eq!(req.method, m);
        assert_eq!(req.url, "http://localhost/example");
    }
}

#[test]
fn valid_headers_are_attached_unmodified_in_order() {
    let c = Client::new();
    let req = c
        .get("http://localhost/example".to_string())
        .header(b"Content-Type".to_vec(), b"application/text".to_vec())
        .header(b"Cache-Control".to_vec(), b"no-cache".to_vec())
        .build()
        .unwrap();
    assert_eq!(req.headers.len(), 2);
    assert_eq!(req.headers[0].name, b"Content-Type".to_vec());
    assert_eq!(req.headers[0].value, b"application/text".to_vec());
    assert_eq!(req.headers[1].name, b"Cache-Control".to_vec());
    assert_eq!(req.headers[1].value, b"no-cache".to_vec());
}

#[test]
fn malformed_url_is_rejected() {
    let c = Client::new();
    assert_eq!(
        c.get("not a url".to_string()).build().unwrap_err(),
        BuildError::InvalidUrl
    );
    assert_eq!(
        c.get("/example".to_string()).build().unwrap_err(),
        BuildError::InvalidUrl
    );
    assert!(c.get("http://localhost:8080/a?b=c".to_string()).build().is_ok());
}

#[test]
fn malformed_header_name_is_rejected() {
    let c = Client::new();
    let res = c
        .get("http://localhost/example".to_string())
        .header(b"Bad Name".to_vec(), b"fine".to_vec())
        .build();
    assert_eq!(res.unwrap_err(), BuildError::InvalidHeaderName);
}

#[test]
fn malformed_header_value_fails_at_construction() {
    let c = Client::new();
    let res = c
        .get("http://localhost/example".to_string())
        .header(b"X-Injected".to_vec(), b"evil\r\nX-Smuggled: yes".to_vec())
        .build();
    assert_eq!(res.unwrap_err(), BuildError::InvalidHeaderValue);
}

#[test]
fn first_error_is_latched() {
    let c = Client::new();
    let res = c
        .get("http://localhost/example".to_string())
        .header(b"Bad Name".to_vec(), b"fine".to_vec())
        .header(b"Good-Name".to_vec(), b"also fine".to_vec())
        .build();
    assert_eq!(res.unwrap_err(), BuildError::InvalidHeaderName);

    let res = c
        .get("not a url".to_string())
        .header(b"Good-Name".to_vec(), b"fine".to_vec())
        .build();
    assert_eq!(res.unwrap_err(), BuildError::InvalidUrl);
}

#[test]
fn headers_after_an_error_are_not_attached() {
    let c = Client::new();
    let res = c
        .get("http://localhost/example".to_string())
        .header(b"Good-One".to_vec(), b"kept".to_vec())
        .header(b"X-Bad".to_vec(), b"control\x01char".to_vec())
        .header(b"Good-Two".to_vec(), b"dropped".to_vec())
        .build();
    assert_eq!(res.unwrap_err(), BuildError::InvalidHeaderValue);
}
