use computercraft_k8s::api::{GatewayCommand, HttpOverRednetRoute, RednetBackend};
use computercraft_k8s::broker::{handle_response, Server};
use computercraft_k8s::fanout::{channel_commands, C2Server, Command};
use computercraft_k8s::rednet::{
    default_gateway_timeout, group_headers, route_request, select_route, starts_with, strip_gateway_prefix, GatewayError,
    HttpRequest, RednetConfig,
};

fn request(path: &str) -> HttpRequest {
    HttpRequest {
        method: "GET".to_string(),
        path: path.to_string(),
        query: None,
        headers: vec![("X".to_string(), vec!["1".to_string()])],
        body: String::new(),
    }
}

fn hello_config() -> RednetConfig {
    RednetConfig {
        routes: vec![HttpOverRednetRoute {
            prefix: "/hello".to_string(),
            backend: RednetBackend::Anycast { protocol: "echo".to_string() },
        }],
    }
}

#[test]
fn routed_request_goes_to_anycast_with_stripped_path() {
    let (backend, req) = route_request(&hello_config(), request("/gateway/hello/world")).ok().unwrap();
    assert!(matches!(backend, RednetBackend::Anycast { ref protocol } if protocol == "echo"));
    assert_eq!(req.path, "/hello/world");
    assert_eq!(req.method, "GET");
    assert_eq!(req.headers.len(), 1);
}

#[test]
fn unmatched_request_is_not_found() {
    let e = route_request(&hello_config(), request("/gateway/other")).err().unwrap();
    assert!(matches!(e, GatewayError::RouteNotMatched));
    assert_eq!(e.status_code(), 404);
}

#[test]
fn first_declared_route_wins() {
    let routes = vec![
        HttpOverRednetRoute { prefix: "/a".to_string(), backend: RednetBackend::Anycast { protocol: "first".to_string() } },
        HttpOverRednetRoute {
            prefix: "/a/b".to_string(),
            backend: RednetBackend::Computer { id: "c".to_string(), protocol: None },
        },
        HttpOverRednetRoute { prefix: "/".to_string(), backend: RednetBackend::Anycast { protocol: "fallback".to_string() } },
    ];
    let b = select_route(&routes, &request("/a/b/c")).unwrap();
    assert!(matches!(b, RednetBackend::Anycast { ref protocol } if protocol == "first"));
    let b = select_route(&routes, &request("/z")).unwrap();
    assert!(matches!(b, RednetBackend::Anycast { ref protocol } if protocol == "fallback"));
    assert!(select_route(&routes[..2].to_vec(), &request("/z")).is_none());
}

#[test]
fn prefix_and_strip() {
    assert!(starts_with("/hello/world", "/hello"));
    assert!(starts_with("/x", ""));
    assert!(!starts_with("/hel", "/hello"));
    assert!(starts_with("/héllo", "/hé"));
    assert_eq!(strip_gateway_prefix("/gateway/x"), "/x");
    assert_eq!(strip_gateway_prefix("/other"), "/other");
    assert_eq!(strip_gateway_prefix("/gateway"), "");
}

#[test]
fn status_codes() {
    assert_eq!(GatewayError::ConfigUnavailable.status_code(), 502);
    assert_eq!(GatewayError::NoListeners.status_code(), 502);
    assert_eq!(GatewayError::UpstreamTimeout.status_code(), 504);
    assert_eq!(GatewayError::UpstreamCancelled.status_code(), 502);
    assert_eq!(GatewayError::BodyReadFailure.status_code(), 500);
    assert_eq!(GatewayError::SendFailed.status_code(), 500);
    assert_eq!(default_gateway_timeout(), 5);
}

#[test]
fn no_listeners_is_bad_gateway() {
    let mut s: Server<u32, u32> = Server::new();
    let e = s.new_request(7).err().unwrap();
    assert!(matches!(e, GatewayError::NoListeners));
    assert_eq!(e.status_code(), 502);
    assert_eq!(s.in_flight_count(), 0);
}

#[test]
fn timed_out_request_leaves_table_as_before() {
    let mut s: Server<u32, u32> = Server::new();
    s.add_listener("C1".to_string(), 1);
    let before = s.in_flight_count();
    let p = s.new_request(7).ok().unwrap();
    assert_eq!(p.listener, 0);
    assert_eq!(*s.listener(p.listener), 1);
    assert_eq!(s.in_flight_count(), before + 1);
    s.cancel_request(p.request_id);
    assert_eq!(s.in_flight_count(), before);
}

#[test]
fn reply_is_delivered_once() {
    let mut s: Server<u32, u32> = Server::new();
    s.add_listener("C1".to_string(), 1);
    let p = s.new_request(42).ok().unwrap();
    assert_eq!(handle_response(&mut s, p.request_id), Some(42));
    assert_eq!(handle_response(&mut s, p.request_id), None);
    s.cancel_request(p.request_id);
    assert_eq!(s.in_flight_count(), 0);
}

#[test]
fn request_ids_are_fresh() {
    let mut s: Server<u32, u32> = Server::new();
    s.add_listener("C1".to_string(), 1);
    let a = s.new_request(1).ok().unwrap();
    let b = s.new_request(2).ok().unwrap();
    assert_ne!(a.request_id, b.request_id);
    assert_eq!(s.in_flight_count(), 2);
}

#[test]
fn listener_choice_stays_in_range() {
    let mut s: Server<u32, u32> = Server::new();
    s.add_listener("A".to_string(), 1);
    s.add_listener("B".to_string(), 2);
    s.add_listener("C".to_string(), 3);
    let mut seen = [false; 3];
    for _ in 0..300 {
        let i = s.choose_listener().ok().unwrap();
        assert!(i < 3);
        seen[i] = true;
    }
    assert!(seen.iter().all(|x| *x));
}

#[test]
fn disconnect_removes_listener() {
    let mut s: Server<u32, u32> = Server::new();
    s.add_listener("A".to_string(), 1);
    s.add_listener("B".to_string(), 2);
    s.add_listener("A".to_string(), 3);
    assert_eq!(s.listener_count(), 2);
    assert_eq!(*s.listener(1), 3);
    s.remove_listener(&"A".to_string());
    assert_eq!(s.listener_count(), 1);
    assert_eq!(*s.listener(0), 2);
    s.remove_listener(&"A".to_string());
    assert_eq!(s.listener_count(), 1);
    assert!(s.choose_listener().is_ok());
    s.remove_listener(&"B".to_string());
    assert!(s.choose_listener().is_err());
}

#[test]
fn channels_are_keyed_by_cluster() {
    let mut c: C2Server<u32> = C2Server::new();
    let a = c.sender("ns".to_string(), "a".to_string(), 1);
    let b = c.sender("ns".to_string(), "b".to_string(), 2);
    let a2 = c.sender("ns".to_string(), "a".to_string(), 3);
    assert_eq!(a, a2);
    assert_ne!(a, b);
    assert_eq!(*c.watcher(a), 1);
    assert_eq!(c.find(&"other".to_string(), &"a".to_string()), None);
    assert_eq!(c.find(&"ns".to_string(), &"b".to_string()), Some(b));
}

#[test]
fn channel_commands_keep_ids_in_order() {
    let cmds = vec![
        GatewayCommand::Wake { computer_id: "x".to_string() },
        GatewayCommand::Wake { computer_id: "y".to_string() },
    ];
    let out = channel_commands(&cmds);
    let ids: Vec<String> = out
        .iter()
        .map(|c| match c {
            Command::Wake { computer_id } => computer_id.clone(),
        })
        .collect();
    assert_eq!(ids, vec!["x".to_string(), "y".to_string()]);
}

#[test]
fn repeated_headers_are_grouped_in_order() {
    let pairs = vec![
        ("Accept".to_string(), "a".to_string()),
        ("X".to_string(), "1".to_string()),
        ("Accept".to_string(), "b".to_string()),
    ];
    let g = group_headers(&pairs);
    assert_eq!(
        g,
        vec![
            ("Accept".to_string(), vec!["a".to_string(), "b".to_string()]),
            ("X".to_string(), vec!["1".to_string()]),
        ]
    );
    assert!(group_headers(&vec![]).is_empty());
}
