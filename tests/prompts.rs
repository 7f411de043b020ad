use arc_fork::character::{Character, PersonaDef};

fn strings(items: &[&str]) -> Vec<String> {
    items.iter().map(|s| s.to_string()).collect()
}

fn nova() -> Character {
    let def = PersonaDef {
        alias: "Nova".to_string(),
        twitter_user_name: "nova_ai".to_string(),
        bio: "b".to_string(),
        adjectives: strings(&["wry"]),
        lore: strings(&["L1", "L2", "L3", "L4", "L5"]),
        styles: strings(&["terse"]),
        topics: strings(&["T1", "T2"]),
    };
    Character::load("nova", Ok(def)).unwrap()
}

fn section<'a>(text: &'a str, open: &str, close: &str) -> &'a str {
    let start = text.find(open).unwrap() + open.len();
    let end = start + text[start..].find(close).unwrap();
    &text[start..end]
}

#[test]
fn post_prompt_from_given_items() {
    let mut c = nova();
    c.add_previous_post("first");
    c.add_previous_post("second");
    let p = c.post_prompt(&strings(&["L2"]), &strings(&["T1", "T2"]), &strings(&["wry", "odd"]), &strings(&["terse"]));
    assert!(p.starts_with("<instructions>\nGenerate a post in the voice and style of Nova, aka @nova_ai."));
    assert!(p.contains("post that is wry,odd about T1\nT2 (without mentioning T1\nT2 directly), from the perspective of Nova with terse style."));
    assert_eq!(section(&p, "<lore>\n", "\n</lore>"), "L2");
    assert_eq!(section(&p, "<previousMessages>\n", "\n</previousMessages>"), "first\nsecond");
}

#[test]
fn sampled_post_prompt_takes_three_distinct_lore_items() {
    let c = nova();
    let mut rng = rand::thread_rng();
    for _ in 0..20 {
        let p = c.gen_twitter_post_prompt(&mut rng);
        let lore: Vec<&str> = section(&p, "<lore>\n", "\n</lore>").split('\n').collect();
        assert_eq!(lore.len(), 3);
        for l in &lore {
            assert!(c.lore.iter().any(|x| x == l));
        }
        assert!(lore[0] != lore[1] && lore[1] != lore[2] && lore[0] != lore[2]);
        assert!(p.contains("about T1\nT2") || p.contains("about T2\nT1"));
        assert!(p.contains("post that is wry about"));
    }
}

#[test]
fn reply_prompt_wraps_the_mention() {
    let c = nova();
    let mut rng = rand::thread_rng();
    let p = c.gen_twitter_reply_prompt("is the sea awake?", &mut rng);
    assert_eq!(section(&p, "<tweet>\n", "\n</tweet>"), "is the sea awake?");
    assert!(p.contains("response that is wry about <tweet>, from the perspective of Nova with terse style."));
    assert_eq!(section(&p, "<lore>\n", "\n</lore>").split('\n').count(), 3);
    let q = c.reply_prompt("hi", &strings(&["L1"]), &strings(&["wry"]), &strings(&["terse"]));
    assert_eq!(section(&q, "<lore>\n", "\n</lore>"), "L1");
}

#[test]
fn choice_and_branch_prompts() {
    let c = nova();
    let p = c.reply_choice_prompt("12 - hi");
    assert!(p.contains("mentioning you username nova_ai,"));
    assert_eq!(section(&p, "<tweets>\n", "\n</tweets>"), "12 - hi");
    let b = c.branch_prompt();
    assert!(b.contains("You MUST use the alias Nova and twitterUserName nova_ai prefilled"));
    assert!(b.contains("\"alias\": \"Nova\""));
    assert!(b.contains("\"twitterUserName\": \"nova_ai\""));
}
