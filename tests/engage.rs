use arc_fork::agent::{reply_target, Agent, Step};
use arc_fork::character::{Character, PersonaDef};
use arc_fork::credentials::Message;
use arc_fork::mentions::{find_mention, highest_id, mention_batch, mention_list, parse_choice, parse_reply_choice, Mention, MentionWatermark};
use arc_fork::schedule::ScheduleConfig;

fn m(id: u64, text: &str) -> Mention {
    Mention { id, text: text.to_string() }
}

fn agent(latest: u64) -> Agent {
    let def = PersonaDef {
        alias: "Nova".to_string(),
        twitter_user_name: "nova_ai".to_string(),
        bio: "b".to_string(),
        adjectives: vec!["wry".to_string()],
        lore: vec!["l".to_string()],
        styles: vec!["terse".to_string()],
        topics: vec!["tides".to_string()],
    };
    Agent {
        character: Character::load("nova", Ok(def)).unwrap(),
        watermark: MentionWatermark { latest },
        config: ScheduleConfig::default(),
    }
}

#[test]
fn watermark_starts_at_highest_visible_id() {
    assert_eq!(MentionWatermark::from_startup(None).latest, 0);
    assert_eq!(MentionWatermark::from_startup(Some(&vec![])).latest, 0);
    assert_eq!(MentionWatermark::from_startup(Some(&vec![m(4, "a"), m(9, "b"), m(2, "c")])).latest, 9);
}

#[test]
fn watermark_never_moves_back() {
    let mut w = MentionWatermark { latest: 10 };
    let fetches: Vec<Option<Vec<Mention>>> = vec![
        Some(vec![m(12, "a"), m(11, "b")]),
        None,
        Some(vec![]),
        Some(vec![m(3, "stale")]),
        Some(vec![m(20, "c")]),
    ];
    let mut seen = vec![];
    let mut prev = w.latest;
    for f in &fetches {
        w.record_fetch(f.as_ref());
        assert!(w.latest >= prev);
        prev = w.latest;
        seen.push(w.latest);
    }
    assert_eq!(seen, vec![12, 12, 12, 12, 20]);
}

#[test]
fn empty_fetch_does_nothing() {
    let mut a = agent(7);
    assert!(matches!(a.on_mentions_fetched(Some(&vec![])), Step::Done));
    assert_eq!(a.watermark.latest, 7);
    assert!(matches!(a.on_mentions_fetched(None), Step::Done));
    assert_eq!(a.watermark.latest, 7);
    assert!(mention_batch(&vec![]).is_none());
}

#[test]
fn fetched_mentions_advance_watermark_and_build_prompt() {
    let mut a = agent(7);
    let ms = vec![m(12, "hello there"), m(15, "what is the tide?")];
    let (prompt, read) = match a.on_mentions_fetched(Some(&ms)) {
        Step::AskChoice { prompt, read } => (prompt, read),
        other => panic!("expected a choice step, got {:?}", other),
    };
    assert_eq!(read, 2);
    assert_eq!(a.watermark.latest, 15);
    assert!(prompt.contains("12 - hello there\n15 - what is the tide?"));
    assert!(prompt.contains("nova_ai"));
}

#[test]
fn mention_list_format() {
    assert_eq!(mention_list(&vec![m(12, "hi"), m(15, "yo")]), "12 - hi\n15 - yo");
    assert_eq!(mention_list(&vec![m(0, "zero")]), "0 - zero");
    assert_eq!(mention_list(&vec![]), "");
    assert_eq!(highest_id(&vec![]), 0);
}

#[test]
fn reply_choice_parsing() {
    assert_eq!(parse_reply_choice(" 15\n"), Some(15));
    assert_eq!(parse_reply_choice("\t42  "), Some(42));
    assert_eq!(parse_reply_choice("+7"), Some(7));
    assert_eq!(parse_reply_choice("\u{3000}8\u{85}\u{2029}"), Some(8));
    assert_eq!(parse_reply_choice("\u{200b}8"), None);
    assert_eq!(parse_reply_choice("abc"), None);
    assert_eq!(parse_reply_choice(""), None);
    assert_eq!(parse_reply_choice("1 2"), None);
    assert_eq!(parse_reply_choice("99999999999999999999"), None);
    assert_eq!(parse_reply_choice("18446744073709551615"), Some(u64::MAX));
    assert_eq!(parse_choice(" 15"), None);
    assert_eq!(parse_choice("+"), None);
    assert_eq!(parse_choice("-3"), None);
}

#[test]
fn reply_target_finds_chosen_mention() {
    let ms = vec![m(12, "a"), m(15, "b")];
    assert_eq!(reply_target(&ms, " 15 "), Some(1));
    assert_eq!(reply_target(&ms, "13"), None);
    assert_eq!(reply_target(&ms, "first"), None);
    assert_eq!(find_mention(&ms, 12), Some(0));
    assert_eq!(find_mention(&vec![], 12), None);
}

#[test]
fn memory_record_for_mention() {
    let msg = Message::for_mention(&m(42, "hello"));
    assert_eq!(msg.id, "tweet_42");
    assert_eq!(msg.content, "hello");
}

#[test]
fn choice_step_names_the_reply() {
    let a = agent(0);
    let ms = vec![m(12, "a"), m(15, "b")];
    match a.on_choice(&ms, Some("15\n")) {
        Step::Reply { index, memory } => {
            assert_eq!(index, 1);
            assert_eq!(memory.id, "tweet_15");
            assert_eq!(memory.content, "b");
        }
        other => panic!("expected a reply step, got {:?}", other),
    }
    assert!(matches!(a.on_choice(&ms, Some("13")), Step::Done));
    assert!(matches!(a.on_choice(&ms, Some("twelve")), Step::Done));
    assert!(matches!(a.on_choice(&ms, None), Step::Done));
}

#[test]
fn post_step_after_completion() {
    let mut a = agent(3);
    assert!(matches!(a.on_post_generated(None), Step::Done));
    assert!(a.character.previous_posts.is_empty());
    assert_eq!(a.character.posts_since_branch, 0);
    for i in 1..=5 {
        match a.on_post_generated(Some("the tide")) {
            Step::Publish { text, branch_due } => {
                assert_eq!(text, "the tide");
                assert_eq!(branch_due, i == 5);
            }
            other => panic!("expected a publish step, got {:?}", other),
        }
    }
    assert_eq!(a.character.posts_since_branch, 0);
    assert_eq!(a.watermark.latest, 3);
}
