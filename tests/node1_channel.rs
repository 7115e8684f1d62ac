use swqos::dispatch::{SignedTransaction, SwqosType};
use swqos::node1::Node1Client;
use swqos::error::TradeError;
use swqos::wire::AuthScheme;

fn client() -> Node1Client {
    Node1Client::new("https://rpc.example".into(), "https://node1.example/".into(), "token".into())
}

#[test]
fn new_keeps_its_arguments() {
    let c = client();
    assert_eq!(c.rpc_url, "https://rpc.example");
    assert_eq!(c.endpoint, "https://node1.example/");
    assert_eq!(c.auth_token, "token");
    assert!(c.tip_accounts.is_empty());
    assert_eq!(c.get_swqos_type(), SwqosType::Node1);
}

#[test]
fn send_request_uses_api_key_header() {
    let tx = SignedTransaction { bytes: vec![0, 1, 2], signature: "sig".into() };
    let r = client().send_request(&tx).unwrap();
    assert_eq!(r.url, "https://node1.example/");
    assert_eq!(r.headers.len(), 2);
    assert_eq!(r.headers[0], ("Content-Type".to_string(), "application/json".to_string()));
    assert_eq!(r.headers[1], ("api-key".to_string(), "token".to_string()));
    assert_eq!(
        r.body,
        "{\"id\":1,\"jsonrpc\":\"2.0\",\"method\":\"sendTransaction\",\"params\":[\"AAEC\",{\"encoding\":\"base64\",\"skipPreflight\":true}]}"
    );
}

#[test]
fn send_requests_keep_order() {
    let txs = vec![
        SignedTransaction { bytes: vec![0], signature: "a".into() },
        SignedTransaction { bytes: vec![255], signature: "b".into() },
    ];
    let rs = client().send_requests(&txs);
    assert_eq!(rs.len(), 2);
    assert!(rs[0].as_ref().unwrap().body.contains("\"AA==\""));
    assert!(rs[1].as_ref().unwrap().body.contains("\"/w==\""));
    assert!(client().send_requests(&Vec::new()).is_empty());
    let single = client().send_requests(&vec![SignedTransaction { bytes: vec![0], signature: "a".into() }]);
    let alone = client().send_request(&txs[0]).unwrap();
    assert_eq!(single[0].as_ref().unwrap().body, alone.body);
    assert_eq!(single[0].as_ref().unwrap().url, alone.url);
}

#[test]
fn status_request_goes_to_rpc() {
    let r = client().status_request("5abc").unwrap();
    assert_eq!(r.url, "https://rpc.example");
    assert_eq!(r.headers.len(), 1);
    assert!(r.body.contains("\"getSignatureStatuses\""));
    assert!(r.body.contains("[[\"5abc\"]"));
}

#[test]
fn channel_config_describes_node1() {
    let c = client().channel_config();
    assert_eq!(c.kind, SwqosType::Node1);
    assert_eq!(c.credential, "token");
    assert!(matches!(c.auth, AuthScheme::Header { ref name } if name == "api-key"));
}

#[test]
fn malformed_endpoint_is_a_configuration_error() {
    let c = Node1Client::new("https://rpc.example".into(), "".into(), "token".into());
    let tx = SignedTransaction { bytes: vec![1], signature: "s".into() };
    assert!(matches!(c.send_request(&tx), Err(TradeError::Config)));
    let rs = c.send_requests(&vec![tx, SignedTransaction { bytes: vec![2], signature: "t".into() }]);
    assert_eq!(rs.len(), 2);
    assert!(rs.iter().all(|r| matches!(r, Err(TradeError::Config))));
    let c = Node1Client::new("rpc".into(), "https://node1.example".into(), "token".into());
    assert!(matches!(c.status_request("s"), Err(TradeError::Config)));
}
