use swqos::node1::Node1Client;
use swqos::error::TradeError;
use swqos::tip::select_tip_account;

fn names(v: &[&str]) -> Vec<String> {
    v.iter().map(|s| s.to_string()).collect()
}

#[test]
fn draw_picks_candidate_at_its_position() {
    let c = names(&["a", "b", "c"]);
    let f = "fallback".to_string();
    assert_eq!(select_tip_account(&c, &f, 0), "a");
    assert_eq!(select_tip_account(&c, &f, 1), "b");
    assert_eq!(select_tip_account(&c, &f, 2), "c");
    assert_eq!(select_tip_account(&c, &f, 4), "b");
}

#[test]
fn empty_candidates_fall_back() {
    let c: Vec<String> = Vec::new();
    let f = "fallback".to_string();
    for d in 0..5 {
        assert_eq!(select_tip_account(&c, &f, d), "fallback");
    }
}

#[test]
fn random_choice_covers_every_candidate_evenly() {
    let c = names(&["a", "b", "c", "d"]);
    let client = Node1Client::new("http://rpc".into(), "http://node1".into(), "key".into())
        .with_tip_accounts(c.clone(), "fallback".into());
    let mut counts = [0usize; 4];
    let n = 8000;
    for _ in 0..n {
        let r = client.get_tip_account().unwrap();
        let i = c.iter().position(|x| *x == r).expect("a candidate");
        counts[i] += 1;
    }
    for k in counts {
        // expected 2000 each; a uniform draw stays far inside these bounds
        assert!(k > 1500 && k < 2500, "count {k}");
    }
}

#[test]
fn node1_tip_account_needs_a_configured_account() {
    let client = Node1Client::new("http://rpc".into(), "http://node1".into(), "key".into());
    assert!(matches!(client.get_tip_account(), Err(TradeError::Config)));
    let client = client.with_tip_accounts(Vec::new(), "default".into());
    assert_eq!(client.get_tip_account().unwrap(), "default");
    let client = client.with_tip_accounts(names(&["x", "y"]), "default".into());
    for _ in 0..50 {
        let a = client.get_tip_account().unwrap();
        assert!(a == "x" || a == "y");
    }
}

#[test]
fn node1_tip_account_for_a_draw() {
    let client = Node1Client::new("http://rpc".into(), "http://node1".into(), "key".into())
        .with_tip_accounts(names(&["x", "y", "z"]), "default".into());
    assert_eq!(client.tip_account_at(0).unwrap(), "x");
    assert_eq!(client.tip_account_at(2).unwrap(), "z");
    assert_eq!(client.tip_account_at(4).unwrap(), "y");
    let fallback = client.with_tip_accounts(Vec::new(), "default".into());
    assert_eq!(fallback.tip_account_at(7).unwrap(), "default");
    assert_eq!(fallback.tip_account_at(0).unwrap(), "default");
}
