use chrono::{TimeZone, Utc};
use parish::gossip::{distort, GossipNetwork};
use parish::npc::NpcId;

fn ts(hour: u32) -> i64 {
    Utc.with_ymd_and_hms(1820, 3, 20, hour, 0, 0).unwrap().timestamp()
}

#[test]
fn test_gossip_network_new() {
    let net = GossipNetwork::new();
    assert!(net.all_items().is_empty());
}

#[test]
fn test_add_gossip() {
    let mut net = GossipNetwork::new();
    let id = net.add_gossip("The landlord is coming".to_string(), NpcId(1), ts(10));
    assert_eq!(id, 0);
    let items = net.all_items();
    assert_eq!(items.len(), 1);
    assert!(items[0].known_by.contains(&NpcId(1)));
    assert_eq!(items[0].content, "The landlord is coming");
    assert_eq!(items[0].original_content, "The landlord is coming");
    assert_eq!(items[0].distortion_level, 0);
}

#[test]
fn test_add_multiple_gossip() {
    let mut net = GossipNetwork::new();
    let id1 = net.add_gossip("First gossip".to_string(), NpcId(1), ts(10));
    let id2 = net.add_gossip("Second gossip".to_string(), NpcId(2), ts(11));
    assert_eq!(id1, 0);
    assert_eq!(id2, 1);
    assert_eq!(net.all_items().len(), 2);
}

#[test]
fn test_gossip_for_npc() {
    let mut net = GossipNetwork::new();
    net.add_gossip("Gossip A".to_string(), NpcId(1), ts(10));
    net.add_gossip("Gossip B".to_string(), NpcId(2), ts(11));

    let npc1_gossip = net.gossip_for_npc(NpcId(1));
    assert_eq!(npc1_gossip.len(), 1);
    assert_eq!(npc1_gossip[0].content, "Gossip A");

    let npc3_gossip = net.gossip_for_npc(NpcId(3));
    assert!(npc3_gossip.is_empty());
}

#[test]
fn test_distort_saw() {
    let result = distort("I saw the landlord yesterday");
    assert!(result.contains("heard"));
    assert!(!result.contains("saw"));
}

#[test]
fn test_distort_told() {
    let result = distort("She told me about it");
    assert!(result.contains("mentioned"));
}

#[test]
fn test_distort_no_match_adds_hedge() {
    let result = distort("The weather is nice");
    assert!(
        result.starts_with("Apparently, ")
            || result.starts_with("Supposedly, ")
            || result.starts_with("I heard that ")
    );
}

#[test]
fn distort_exact_results() {
    // Only the first occurrence of the first applicable swap is replaced.
    assert_eq!(distort("I saw him, I saw her"), "I heard him, I saw her");
    assert_eq!(distort("He said she went to Mass"), "He said she was seen near Mass");
    assert_eq!(distort("Tom was angry"), "Tom was upset");
    // 19 bytes: 19 mod 3 = 1 picks the second hedge.
    assert_eq!(distort("The weather is nice"), "Supposedly, The weather is nice");
    // 0 bytes: the first hedge.
    assert_eq!(distort(""), "Apparently, ");
}

#[test]
fn distort_always_changes_text() {
    for s in ["", "x", "saw", "nothing here", "angry said told"] {
        assert_ne!(distort(s), s);
    }
}

#[test]
fn test_inject_gossip_context_empty() {
    let net = GossipNetwork::new();
    let ctx = net.inject_gossip_context(NpcId(1));
    assert!(ctx.is_empty());
}

#[test]
fn test_inject_gossip_context_with_items() {
    let mut net = GossipNetwork::new();
    net.add_gossip("The priest is leaving".to_string(), NpcId(1), ts(14));

    let ctx = net.inject_gossip_context(NpcId(1));
    assert!(ctx.contains("Gossip you've heard:"));
    assert!(ctx.contains("[14:00]"));
    assert!(ctx.contains("The priest is leaving"));
}

#[test]
fn test_propagate_probabilistic() {
    let mut transfer_count = 0;
    let trials = 1000;

    for _ in 0..trials {
        let mut net = GossipNetwork::new();
        net.add_gossip("Test gossip".to_string(), NpcId(1), ts(10));
        net.propagate(NpcId(1), NpcId(2));

        if net.all_items()[0].known_by.contains(&NpcId(2)) {
            transfer_count += 1;
        }
    }

    let rate = transfer_count as f64 / trials as f64;
    assert!(rate > 0.4 && rate < 0.8, "Transfer rate {:.2} should be near 0.6", rate);
}

#[test]
fn test_propagate_does_not_affect_unknown() {
    let mut net = GossipNetwork::new();
    net.add_gossip("Gossip A".to_string(), NpcId(1), ts(10));
    net.add_gossip("Gossip B".to_string(), NpcId(2), ts(11));

    net.propagate(NpcId(3), NpcId(4));

    assert!(!net.all_items()[0].known_by.contains(&NpcId(4)));
    assert!(!net.all_items()[1].known_by.contains(&NpcId(4)));
}

#[test]
fn propagate_with_fixed_rolls() {
    let mut net = GossipNetwork::new();
    net.add_gossip("I saw the cow".to_string(), NpcId(1), ts(10));
    net.add_gossip("Quiet day".to_string(), NpcId(1), ts(11));
    net.add_gossip("Not known".to_string(), NpcId(5), ts(12));
    // Item 0 transfers and distorts, item 1 fails the transfer roll,
    // item 2 is not known by the sender.
    net.propagate_with_rolls(NpcId(1), NpcId(2), &vec![(59, 19), (60, 0), (0, 0)]);
    let items = net.all_items();
    assert_eq!(items[0].known_by, vec![NpcId(1), NpcId(2)]);
    assert_eq!(items[0].content, "I heard the cow");
    assert_eq!(items[0].original_content, "I saw the cow");
    assert_eq!(items[0].distortion_level, 1);
    assert_eq!(items[1].known_by, vec![NpcId(1)]);
    assert_eq!(items[1].content, "Quiet day");
    assert_eq!(items[2].known_by, vec![NpcId(5)]);

    // Transfer without distortion; a second transfer to a knower changes nothing.
    net.propagate_with_rolls(NpcId(1), NpcId(2), &vec![(0, 0), (0, 20), (0, 0)]);
    let items = net.all_items();
    assert_eq!(items[0].known_by, vec![NpcId(1), NpcId(2)]);
    assert_eq!(items[0].distortion_level, 1);
    assert_eq!(items[1].known_by, vec![NpcId(1), NpcId(2)]);
    assert_eq!(items[1].content, "Quiet day");
    assert_eq!(items[1].distortion_level, 0);
}

#[test]
fn test_default_gossip_network() {
    let net = GossipNetwork::default();
    assert!(net.all_items().is_empty());
}
