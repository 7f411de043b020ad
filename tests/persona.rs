use arc_fork::agent::Agent;
use arc_fork::character::{Character, PersonaDef, PersonaError};
use arc_fork::lineage::{parse_lookup_name, versioned_lookup_name};
use arc_fork::mentions::MentionWatermark;
use arc_fork::schedule::ScheduleConfig;
use arc_fork::store::{atomic_write, definition_file_name, StoreOp};
use std::collections::HashMap;

fn strings(items: &[&str]) -> Vec<String> {
    items.iter().map(|s| s.to_string()).collect()
}

fn def(alias: &str) -> PersonaDef {
    PersonaDef {
        alias: alias.to_string(),
        twitter_user_name: "nova_ai".to_string(),
        bio: "A wandering voice.".to_string(),
        adjectives: strings(&["curious", "wry"]),
        lore: strings(&["born in a lighthouse", "counted every star", "lost a map"]),
        styles: strings(&["terse"]),
        topics: strings(&["tides", "maps", "silence"]),
    }
}

fn nova(name: &str) -> Character {
    Character::load(name, Ok(def("Nova"))).unwrap()
}

#[test]
fn load_reads_version_from_lookup_name() {
    let c = nova("nova.v3");
    assert_eq!(c.character_name, "nova");
    assert_eq!(c.version, 3);
    let d = nova("nova");
    assert_eq!(d.character_name, "nova");
    assert_eq!(d.version, 1);
    assert_eq!(d.posts_since_branch, 0);
    assert_eq!(d.posts_before_branch, 5);
    assert!(d.previous_posts.is_empty());
    assert_eq!(d.alias, "Nova");
}

#[test]
fn load_reads_version_from_a_lone_version_token() {
    let c = nova("v3");
    assert_eq!(c.character_name, "v3");
    assert_eq!(c.version, 3);
}

#[test]
fn load_hands_back_read_and_decode_errors() {
    assert_eq!(Character::load("nova", Err(PersonaError::NotFound)).err(), Some(PersonaError::NotFound));
    assert_eq!(Character::load("nova", Err(PersonaError::ParseError)).err(), Some(PersonaError::ParseError));
}

#[test]
fn lookup_names_parse() {
    assert_eq!(parse_lookup_name("vera.v2"), ("vera".to_string(), 2));
    assert_eq!(parse_lookup_name("nova.v300"), ("nova".to_string(), 1));
    assert_eq!(parse_lookup_name("nova.v0"), ("nova".to_string(), 1));
    assert_eq!(parse_lookup_name("nova.x.v7"), ("nova".to_string(), 7));
    assert_eq!(parse_lookup_name("nova.v2.v5"), ("nova".to_string(), 2));
    assert_eq!(parse_lookup_name("nova.vx"), ("nova".to_string(), 1));
    assert_eq!(parse_lookup_name("v4"), ("v4".to_string(), 4));
    assert_eq!(parse_lookup_name("v3.v4"), ("v3".to_string(), 3));
    assert_eq!(parse_lookup_name("vera.x"), ("vera".to_string(), 1));
    assert_eq!(parse_lookup_name(".v3"), (".v3".to_string(), 3));
    assert_eq!(parse_lookup_name(".hidden"), (".hidden".to_string(), 1));
    assert_eq!(parse_lookup_name(""), ("".to_string(), 1));
    assert_eq!(versioned_lookup_name("nova", 12), "nova.v12");
}

#[test]
fn recent_posts_keep_the_last_five() {
    let mut c = nova("nova");
    for i in 1..=7 {
        c.add_previous_post(&format!("post {}", i));
        assert!(c.previous_posts.len() <= 5);
    }
    let kept: Vec<String> = c.previous_posts.iter().cloned().collect();
    assert_eq!(kept, strings(&["post 3", "post 4", "post 5", "post 6", "post 7"]));
}

#[test]
fn recent_posts_below_capacity_keep_all() {
    let mut c = nova("nova");
    c.add_previous_post("a");
    c.add_previous_post("b");
    let kept: Vec<String> = c.previous_posts.iter().cloned().collect();
    assert_eq!(kept, strings(&["a", "b"]));
}

#[test]
fn should_branch_fires_every_fifth_call() {
    let mut c = nova("nova");
    let fired: Vec<bool> = (0..12).map(|_| c.should_branch()).collect();
    for (i, f) in fired.iter().enumerate() {
        assert_eq!(*f, (i + 1) % 5 == 0, "call {}", i + 1);
    }
    assert_eq!(c.posts_since_branch, 2);
}

#[test]
fn should_branch_with_custom_threshold() {
    let mut c = nova("nova");
    c.posts_before_branch = 2;
    assert!(!c.should_branch());
    assert!(c.should_branch());
    assert_eq!(c.posts_since_branch, 0);
    c.posts_before_branch = 1;
    assert!(c.should_branch());
}

#[test]
fn post_tick_at_four_sets_branch_flag() {
    let mut c = nova("nova");
    c.posts_since_branch = 4;
    let mut agent = Agent { character: c, watermark: MentionWatermark::from_startup(None), config: ScheduleConfig::default() };
    assert!(agent.record_post("the tide keeps count"));
    assert_eq!(agent.character.posts_since_branch, 0);
    assert_eq!(agent.character.previous_posts.back().unwrap(), "the tide keeps count");
}

#[test]
fn save_increments_version_and_keeps_lineage() {
    let mut c = nova("nova.v3");
    c.add_previous_post("old post");
    c.posts_since_branch = 3;
    let next = c.save(Ok(def("Nova Prime"))).unwrap();
    assert_eq!(next.version, 4);
    assert_eq!(next.character_name, "nova");
    assert_eq!(next.alias, "Nova Prime");
    assert_eq!(next.posts_since_branch, 0);
    assert!(next.previous_posts.is_empty());
    assert_eq!(next.lookup_name(), "nova.v4");
    assert_eq!(parse_lookup_name(&next.lookup_name()), ("nova".to_string(), 4));
    assert_eq!(definition_file_name(&next.lookup_name()), "nova.v4.json");
    assert_eq!(c.version, 3);
}

#[test]
fn save_with_malformed_definition_fails_and_changes_nothing() {
    let mut c = nova("nova.v3");
    c.add_previous_post("kept");
    let r = c.save(Err(PersonaError::ParseError));
    assert_eq!(r.err(), Some(PersonaError::ParseError));
    assert_eq!(c.version, 3);
    assert_eq!(c.character_name, "nova");
    assert_eq!(c.previous_posts.len(), 1);
    let mut agent = Agent { character: c, watermark: MentionWatermark { latest: 9 }, config: ScheduleConfig::default() };
    assert_eq!(agent.adopt_branch(Err(PersonaError::ParseError)), Err(PersonaError::ParseError));
    assert_eq!(agent.character.version, 3);
    assert_eq!(agent.character.alias, "Nova");
}

#[test]
fn save_at_last_version_is_refused() {
    let c = nova("nova.v255");
    assert_eq!(c.version, 255);
    assert_eq!(c.save(Ok(def("Nova"))).err(), Some(PersonaError::VersionExhausted));
}

#[test]
fn adopt_branch_replaces_persona() {
    let mut agent = Agent { character: nova("nova.v1"), watermark: MentionWatermark { latest: 0 }, config: ScheduleConfig::default() };
    assert_eq!(agent.adopt_branch(Ok(def("Nova II"))), Ok(()));
    assert_eq!(agent.character.version, 2);
    assert_eq!(agent.character.alias, "Nova II");
    assert_eq!(agent.character.lookup_name(), "nova.v2");
}

#[test]
fn definition_is_the_published_part() {
    let c = nova("nova.v2");
    let d = c.definition();
    assert_eq!(d.alias, "Nova");
    assert_eq!(d.topics, strings(&["tides", "maps", "silence"]));
    assert_eq!(d.lore.len(), 3);
}

fn apply(store: &mut HashMap<String, String>, op: &StoreOp) {
    match op {
        StoreOp::Write { file, content } => {
            store.insert(file.clone(), content.clone());
        }
        StoreOp::Rename { from, to } => {
            if let Some(c) = store.remove(from) {
                store.insert(to.clone(), c);
            }
        }
    }
}

#[test]
fn atomic_write_crash_leaves_previous_version_intact() {
    let mut store: HashMap<String, String> = HashMap::new();
    store.insert("nova.v3.json".to_string(), "{\"alias\":\"Nova\"}".to_string());
    let ops = atomic_write("nova.v4", "{\"alias\":\"Nova II\"}".to_string());
    assert_eq!(ops.len(), 2);
    match &ops[0] {
        StoreOp::Write { file, .. } => assert_eq!(file, "nova.v4.tmp"),
        _ => panic!("first step must write the temporary file"),
    }
    let mut crashed = store.clone();
    apply(&mut crashed, &ops[0]);
    assert_eq!(crashed.get("nova.v3.json"), store.get("nova.v3.json"));
    assert!(crashed.get("nova.v4.json").is_none());
    let mut done = store.clone();
    for op in &ops {
        apply(&mut done, op);
    }
    assert_eq!(done.get("nova.v4.json").unwrap(), "{\"alias\":\"Nova II\"}");
    assert_eq!(done.get("nova.v3.json"), store.get("nova.v3.json"));
    assert!(done.get("nova.v4.tmp").is_none());
}
