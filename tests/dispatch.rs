use rand::Rng;
use arc_fork::prompt::branch_example;
use arc_fork::schedule::{choose_action, Action, ScheduleConfig};
use arc_fork::text::{decimal_string, join_strings};

#[test]
fn dispatch_split_is_the_post_weight() {
    let posts = (0..100u32).filter(|r| choose_action(*r, 79) == Action::Post).count();
    assert_eq!(posts, 79);
    assert_eq!(choose_action(78, 79), Action::Post);
    assert_eq!(choose_action(79, 79), Action::Engage);
    assert_eq!(choose_action(0, 0), Action::Engage);
    assert_eq!(choose_action(99, 100), Action::Post);
}

#[test]
fn dispatch_ratio_over_many_draws() {
    let mut rng = rand::thread_rng();
    let trials = 100_000;
    let posts = (0..trials).filter(|_| choose_action(rng.gen_range(0..100), 79) == Action::Post).count();
    let share = posts as f64 / trials as f64;
    assert!((share - 0.79).abs() < 0.02, "share {}", share);
}

#[test]
fn default_schedule() {
    let c = ScheduleConfig::default();
    assert_eq!(c.post_weight, 79);
    assert_eq!(c.mention_limit, 5);
    assert_eq!(c.sleep_seconds(0), 600);
    assert_eq!(c.sleep_seconds(12345), 600);
    let wide = ScheduleConfig { post_weight: 50, mention_limit: 5, min_sleep_minutes: 10, max_sleep_minutes: 13 };
    assert_eq!(wide.sleep_seconds(4), 660);
}

#[test]
fn decimals_and_joins() {
    assert_eq!(decimal_string(0), "0");
    assert_eq!(decimal_string(1234), "1234");
    assert_eq!(decimal_string(u64::MAX), u64::MAX.to_string());
    let items = vec!["a".to_string(), "b".to_string(), "c".to_string()];
    assert_eq!(join_strings(&items, ", "), "a, b, c");
    assert_eq!(join_strings(&vec![], "\n"), "");
}

#[test]
fn example_wraps_snapshot() {
    assert_eq!(branch_example("{}"), "<example>\n{}\n</example>\n");
}
