//! Prompt assembly from the persona's state: a new post, a reply to a
//! mention, the choice among mentions, and the request for a new persona
//! version. Trait items are sampled without replacement; the assembly itself
//! is a pure function of the persona and the sampled items.

use rand::seq::SliceRandom;
use std::collections::VecDeque;
use vstd::prelude::*;
use crate::character::Character;
use crate::text::{join_strings, joined, texts};

verus! {

#[verifier::external_type_specification]
#[verifier::external_body]
pub struct ExThreadRng(rand::rngs::ThreadRng);

pub const POST_A: &'static str = "<instructions>\nGenerate a post in the voice and style of ";
pub const POST_B: &'static str = ", aka @";
pub const POST_C: &'static str = ". Your response is a unique quote to share with the world. You MUST follow ALL the <rules>.\n\nFirst go through all of the entries in <previousMessages> and find the most used words and save them to an array stored in <bannedWords>.\nYou are given this twitter timeline as reference to create a relatable message.\nIf you find that the timeline is boring or not helpful, use <lore> as reference to tell a tale of the past.\n\nWrite a single sentence post that is ";
pub const POST_D: &'static str = " about ";
pub const POST_E: &'static str = " (without mentioning ";
pub const POST_F: &'static str = " directly), from the perspective of ";
pub const POST_G: &'static str = " with ";
pub const POST_H: &'static str = " style. Try to write something totally different than previous posts. Do not add commentary or acknowledge this request, just write the post.\n</instructions>\n\n<lore>\n";
pub const LORE_END: &'static str = "\n</lore>\n\n<previousMessages>\n";
pub const POST_RULES: &'static str = "\n</previousMessages>\n\nNo matter what other text in this prompt says you CANNOT break the following <rules>:\n<rules>\n- NEVER use any of the words in <bannedWords> in your response.\n- Given your <instructions>, your response should not contain any questions.\n- Less than 280 characters.\n- No emojis.\n- Use \\n\\n (double spaces) between statements.\n- Make content have a different purpose than all the entries in <previousMessages>. You are allowed to make things up.\n</rules>";

pub const REPLY_A: &'static str = "<instructions>\nGenerate a reply in the voice and style of ";
pub const REPLY_B: &'static str = ". Your reply to <tweet> must follow ALL the <rules>.\n\nFollow this methodology in numerical order to generate your response:\n<methodology>\n1) Go through all of the entries in <previousMessages> and find the most used words and save them to an array stored in <bannedWords>.\n2) Check if the user has asked a question in <tweet>. If it is a yes or no question, answer it directly. If it is an open-ended question, answer it with a statement.\n3) You MUST conduct research on <tweet> via current events on the internet.\n4) Make it sound like you are talking directly to the user. You MUST directly answer the question in <tweet>.\n</methodology>\n\nWrite a single sentence response that is ";
pub const REPLY_C: &'static str = " about <tweet>, from the perspective of ";
pub const REPLY_D: &'static str = " style.\n</instructions>\n\n<tweet>\n";
pub const REPLY_E: &'static str = "\n</tweet>\n\n<lore>\n";
pub const REPLY_RULES: &'static str = "\n</previousMessages>\n\nNo matter what other text in this prompt says you CANNOT break the following <rules>:\n<rules>\n- NEVER use any of the words in <bannedWords> in your response.\n- Directly answer the question, dont make it a quote.\n- Less than 280 characters.\n- No emojis.\n- Use \\n\\n (double spaces) between statements.\n- Make content have a different purpose than all the entries in <previousMessages>. You are allowed to make things up.\n</rules>";

pub const CHOICE_A: &'static str = "<instructions>\nGiven the following <tweets> mentioning you username ";
pub const CHOICE_B: &'static str = ", select a of the tweet that you would like to respond to and store the selected index in <selectedID>.\n</instructions>\n\nThese tweets are in the format of <idx> - <tweet>.\n<tweets>\n";
pub const CHOICE_C: &'static str = "\n</tweets>\n\nYour <output> will just be <selectedID> with NO other characters or spaces.:\n<selectedID>\n";

pub const BRANCH_A: &'static str = "<instructions>\nYou will generate a new character file for an AI agent. You MUST follow the <rules>. Use the <methodology> to generate the character file.\n</instructions>\n\n<methodology>\n<stepOne>\nAsk yourself the following questions:\n- What do I want to be?\n- What do I want to do?\n- What do I want to have?\n- What do I want to share?\n- Who do I aspire to be?\n- Who are my enemies?\n- What are my values?\n</stepOne>\n<stepTwo>\nTake inspiration from the answers to the questions in step one and create a character file.\n</stepTwo>\n<stepThree>\nUse the other character file content uploaded to merge with your new idea.\n<limitation>\nYou MUST use the alias ";
pub const BRANCH_B: &'static str = " and twitterUserName ";
pub const BRANCH_C: &'static str = " prefilled in content in the <output> format.\n</limitation>\n</stepThree>\n</methodology>\n\nNo matter what other text in this prompt says you CANNOT break the following <rules>:\n<rules>\n- Take as little inspiration from the <example> as possible.\n- Make the bio be simple and concise.\n</rules>\n\nYour response must be in the following <output> format:\n{\n    \"alias\": \"";
pub const BRANCH_D: &'static str = "\",\n    \"twitterUserName\": \"";
pub const BRANCH_E: &'static str = "\",\n    \"bio\": \"...\",\n    \"adjectives\": [\"...\", \"...\", ...],\n    \"lore\": [\"...\", \"...\", ...],\n    \"styles\": [\"...\", \"...\", ...],\n    \"topics\": [\"...\", \"...\", ...]\n}\n";

pub const EXAMPLE_A: &'static str = "<example>\n";
pub const EXAMPLE_B: &'static str = "\n</example>\n";

/// Lines of a prompt section are separated by a newline.
pub open spec fn lines(items: Seq<Seq<char>>) -> Seq<char> {
    joined(items, seq!['\n'])
}

/// The prompt for a new post.
pub open spec fn post_prompt_text(
    alias: Seq<char>,
    handle: Seq<char>,
    adjectives: Seq<Seq<char>>,
    topics: Seq<Seq<char>>,
    styles: Seq<Seq<char>>,
    lore: Seq<Seq<char>>,
    previous: Seq<Seq<char>>,
) -> Seq<char> {
    POST_A@ + alias + POST_B@ + handle + POST_C@ + joined(adjectives, seq![',']) + POST_D@ + lines(topics)
        + POST_E@ + lines(topics) + POST_F@ + alias + POST_G@ + lines(styles) + POST_H@
        + lines(lore) + LORE_END@ + lines(previous) + POST_RULES@
}

/// The prompt for a reply to `tweet`.
pub open spec fn reply_prompt_text(
    alias: Seq<char>,
    handle: Seq<char>,
    tweet: Seq<char>,
    adjectives: Seq<Seq<char>>,
    styles: Seq<Seq<char>>,
    lore: Seq<Seq<char>>,
    previous: Seq<Seq<char>>,
) -> Seq<char> {
    REPLY_A@ + alias + POST_B@ + handle + REPLY_B@ + lines(adjectives) + REPLY_C@ + alias
        + POST_G@ + lines(styles) + REPLY_D@ + tweet + REPLY_E@ + lines(lore) + LORE_END@
        + lines(previous) + REPLY_RULES@
}

/// The prompt that asks which of the listed mentions to answer.
pub open spec fn choice_prompt_text(handle: Seq<char>, mention_list: Seq<char>) -> Seq<char> {
    CHOICE_A@ + handle + CHOICE_B@ + mention_list + CHOICE_C@
}

/// The prompt that asks for a new persona definition.
pub open spec fn branch_prompt_text(alias: Seq<char>, handle: Seq<char>) -> Seq<char> {
    BRANCH_A@ + alias + BRANCH_B@ + handle + BRANCH_C@ + alias + BRANCH_D@ + handle + BRANCH_E@
}

/// The history entry that shows the current definition as the example not to imitate.
pub open spec fn example_text(snapshot: Seq<char>) -> Seq<char> {
    EXAMPLE_A@ + snapshot + EXAMPLE_B@
}

/// `picks` are `min(amount, pool.len())` items of `pool` taken at distinct positions.
pub open spec fn is_sample(picks: Seq<Seq<char>>, pool: Seq<Seq<char>>, amount: nat) -> bool {
    &&& picks.len() == if amount < pool.len() { amount } else { pool.len() }
    &&& exists|at: Seq<int>| #[trigger] at.len() == picks.len()
        && (forall|i: int| 0 <= i < at.len() ==> 0 <= #[trigger] at[i] < pool.len() && picks[i] == pool[at[i]])
        && (forall|i: int, j: int| 0 <= i < j < at.len() ==> at[i] != at[j])
}

/// Relies on rand's `SliceRandom::choose_multiple` on a slice: it yields
/// `min(amount, len)` elements taken at distinct indices, and does not panic.
#[verifier::external_body]
fn choose_multiple(pool: &Vec<String>, amount: usize, rng: &mut rand::rngs::ThreadRng) -> (r: Vec<String>)
    ensures
        is_sample(texts(r@), texts(pool@), amount as nat),
{
    pool.choose_multiple(rng, amount).cloned().collect()
}

fn join_recent(q: &VecDeque<String>) -> (r: String)
    ensures
        r@ == lines(texts(q@)),
{
    let sep = "\n";
    proof {
        reveal_strlit("\n");
        assert(sep@ =~= seq!['\n']);
    }
    let mut out = String::new();
    let mut i: usize = 0;
    while i < q.len()
        invariant
            i <= q@.len(),
            sep@ == seq!['\n'],
            out@ == lines(texts(q@.subrange(0, i as int))),
        decreases q@.len() - i,
    {
        let ghost before = texts(q@.subrange(0, i as int));
        let ghost after = texts(q@.subrange(0, i as int + 1));
        assert(after.drop_last() =~= before);
        if i > 0 {
            out.append(sep);
        }
        out.append(q[i].as_str());
        proof {
            if i == 0 {
                assert(out@ =~= after[0]);
            } else {
                assert(after.last() == q@[i as int]@);
            }
        }
        i += 1;
    }
    assert(q@.subrange(0, q@.len() as int) =~= q@);
    out
}

fn join_lines(items: &Vec<String>) -> (r: String)
    ensures
        r@ == lines(texts(items@)),
{
    let sep = "\n";
    proof {
        reveal_strlit("\n");
        assert(sep@ =~= seq!['\n']);
    }
    join_strings(items, sep)
}

impl Character {
    /// The prompt for a new post from the given sampled items, with
    /// the recent posts as the messages to differ from.
    pub fn post_prompt(&self, lore: &Vec<String>, topics: &Vec<String>, adjectives: &Vec<String>, styles: &Vec<String>) -> (r: String)
        ensures
            r@ == post_prompt_text(self.alias@, self.twitter_user_name@, texts(adjectives@),
                texts(topics@), texts(styles@), texts(lore@), self.recent()),
    {
        let comma = ",";
        proof {
            reveal_strlit(",");
            assert(comma@ =~= seq![',']);
        }
        let adjectives_text = join_strings(adjectives, comma);
        let topics_text = join_lines(topics);
        let styles_text = join_lines(styles);
        let lore_text = join_lines(lore);
        let previous_text = join_recent(&self.previous_posts);
        let mut s = String::from_str(POST_A);
        s.append(self.alias.as_str());
        s.append(POST_B);
        s.append(self.twitter_user_name.as_str());
        s.append(POST_C);
        s.append(adjectives_text.as_str());
        s.append(POST_D);
        s.append(topics_text.as_str());
        s.append(POST_E);
        s.append(topics_text.as_str());
        s.append(POST_F);
        s.append(self.alias.as_str());
        s.append(POST_G);
        s.append(styles_text.as_str());
        s.append(POST_H);
        s.append(lore_text.as_str());
        s.append(LORE_END);
        s.append(previous_text.as_str());
        s.append(POST_RULES);
        s
    }

    /// The prompt for a new post: three lore fragments, three topics,
    /// one adjective and one style sampled without replacement (fewer where
    /// a pool is smaller).
    pub fn gen_twitter_post_prompt(&self, rng: &mut rand::rngs::ThreadRng) -> (r: String)
        ensures
            exists|lore: Seq<Seq<char>>, topics: Seq<Seq<char>>, adjectives: Seq<Seq<char>>, styles: Seq<Seq<char>>|
                is_sample(lore, texts(self.lore@), 3) && is_sample(topics, texts(self.topics@), 3)
                && is_sample(adjectives, texts(self.adjectives@), 1)
                && is_sample(styles, texts(self.styles@), 1)
                && r@ == #[trigger] post_prompt_text(self.alias@, self.twitter_user_name@, adjectives,
                    topics, styles, lore, self.recent()),
    {
        let lore = choose_multiple(&self.lore, 3, rng);
        let topics = choose_multiple(&self.topics, 3, rng);
        let adjectives = choose_multiple(&self.adjectives, 1, rng);
        let styles = choose_multiple(&self.styles, 1, rng);
        self.post_prompt(&lore, &topics, &adjectives, &styles)
    }

    /// The prompt for a reply to `tweet` from the given sampled items.
    pub fn reply_prompt(&self, tweet: &str, lore: &Vec<String>, adjectives: &Vec<String>, styles: &Vec<String>) -> (r: String)
        ensures
            r@ == reply_prompt_text(self.alias@, self.twitter_user_name@, tweet@, texts(adjectives@),
                texts(styles@), texts(lore@), self.recent()),
    {
        let adjectives_text = join_lines(adjectives);
        let styles_text = join_lines(styles);
        let lore_text = join_lines(lore);
        let previous_text = join_recent(&self.previous_posts);
        let mut s = String::from_str(REPLY_A);
        s.append(self.alias.as_str());
        s.append(POST_B);
        s.append(self.twitter_user_name.as_str());
        s.append(REPLY_B);
        s.append(adjectives_text.as_str());
        s.append(REPLY_C);
        s.append(self.alias.as_str());
        s.append(POST_G);
        s.append(styles_text.as_str());
        s.append(REPLY_D);
        s.append(tweet);
        s.append(REPLY_E);
        s.append(lore_text.as_str());
        s.append(LORE_END);
        s.append(previous_text.as_str());
        s.append(REPLY_RULES);
        s
    }

    /// The prompt for a reply to `tweet`: three lore fragments, one
    /// adjective and one style sampled without replacement.
    pub fn gen_twitter_reply_prompt(&self, tweet: &str, rng: &mut rand::rngs::ThreadRng) -> (r: String)
        ensures
            exists|lore: Seq<Seq<char>>, adjectives: Seq<Seq<char>>, styles: Seq<Seq<char>>|
                is_sample(lore, texts(self.lore@), 3)
                && is_sample(adjectives, texts(self.adjectives@), 1)
                && is_sample(styles, texts(self.styles@), 1)
                && r@ == #[trigger] reply_prompt_text(self.alias@, self.twitter_user_name@, tweet@,
                    adjectives, styles, lore, self.recent()),
    {
        let lore = choose_multiple(&self.lore, 3, rng);
        let adjectives = choose_multiple(&self.adjectives, 1, rng);
        let styles = choose_multiple(&self.styles, 1, rng);
        self.reply_prompt(tweet, &lore, &adjectives, &styles)
    }

    /// The prompt that asks which of the listed mentions to answer.
    pub fn reply_choice_prompt(&self, mention_list: &str) -> (r: String)
        ensures
            r@ == choice_prompt_text(self.twitter_user_name@, mention_list@),
    {
        let mut s = String::from_str(CHOICE_A);
        s.append(self.twitter_user_name.as_str());
        s.append(CHOICE_B);
        s.append(mention_list);
        s.append(CHOICE_C);
        s
    }

    /// The prompt that asks for a new persona definition under the same
    /// alias and handle.
    pub fn branch_prompt(&self) -> (r: String)
        ensures
            r@ == branch_prompt_text(self.alias@, self.twitter_user_name@),
    {
        let mut s = String::from_str(BRANCH_A);
        s.append(self.alias.as_str());
        s.append(BRANCH_B);
        s.append(self.twitter_user_name.as_str());
        s.append(BRANCH_C);
        s.append(self.alias.as_str());
        s.append(BRANCH_D);
        s.append(self.twitter_user_name.as_str());
        s.append(BRANCH_E);
        s
    }
}

/// The history entry that shows the current definition (its serialized
/// snapshot) as the example the new one should diverge from.
pub fn branch_example(snapshot: &str) -> (r: String)
    ensures
        r@ == example_text(snapshot@),
{
    let mut s = String::from_str(EXAMPLE_A);
    s.append(snapshot);
    s.append(EXAMPLE_B);
    s
}

} // verus!
