//! The decisions of one tick of the scheduling loop. The loop itself (the
//! sleep, the provider calls, publishing) runs outside; it hands each
//! outcome to these methods and performs what they return.

use vstd::prelude::*;
use crate::credentials::{mention_memory_id, Message};
use crate::character::{branch_fires, branch_next, is_next_version, push_recent, Character, PersonaDef, PersonaError};
use crate::mentions::{after_fetch, choice_of, find_mention, ids_of, mention_batch, mention_list_text, parse_reply_choice, trimmed, Mention, MentionWatermark};
use crate::prompt::choice_prompt_text;
use crate::schedule::{action_for, choose_action, Action, ScheduleConfig};

verus! {

/// The state the loop owns: the persona, the mention watermark and the
/// configuration.
pub struct Agent {
    pub character: Character,
    pub watermark: MentionWatermark,
    pub config: ScheduleConfig,
}

/// What the loop does next within a tick.
#[derive(Debug)]
pub enum Step {
    /// Nothing more this tick: no publish, reply or counter update.
    Done,
    /// Publish `text`, count it as a post, and run a branch when `branch_due`.
    Publish { text: String, branch_due: bool },
    /// Add `read` to the messages-read counter, then ask the completion
    /// provider which mention to answer with `prompt`.
    AskChoice { prompt: String, read: u32 },
    /// Store `memory` (best effort: a failure does not stop the reply), then
    /// reply to the mention at `index`.
    Reply { index: usize, memory: Message },
}

/// The fetch outcome over ids: `None` for a failed fetch.
pub open spec fn fetched_ids(fetched: Option<&Vec<Mention>>) -> Option<Seq<u64>> {
    match fetched {
        Some(v) => Some(ids_of(v@)),
        None => None,
    }
}

impl Agent {
    /// The path a tick takes for a roll in `0..100`.
    pub fn next_action(&self, roll: u32) -> (a: Action)
        ensures
            a == action_for(roll as int, self.config.post_weight as int),
    {
        choose_action(roll, self.config.post_weight)
    }

    /// The post path after the completion produced `text`: the post joins
    /// the recent posts and is counted; the result says whether a branch is
    /// now due (the counter is then back at 0).
    pub fn record_post(&mut self, text: &str) -> (branch_due: bool)
        ensures
            final(self).character.recent() == push_recent(old(self).character.recent(), text@),
            branch_due == branch_fires(
                old(self).character.posts_since_branch as nat,
                old(self).character.posts_before_branch as nat,
            ),
            final(self).character.posts_since_branch as nat == branch_next(
                old(self).character.posts_since_branch as nat,
                old(self).character.posts_before_branch as nat,
            ),
            final(self).character.version == old(self).character.version,
            final(self).character.character_name == old(self).character.character_name,
            final(self).character.posts_before_branch == old(self).character.posts_before_branch,
            final(self).watermark == old(self).watermark,
            final(self).config == old(self).config,
    {
        self.character.add_previous_post(text);
        self.character.should_branch()
    }

    /// The post path after the completion call: `None` when it failed, in
    /// which case nothing changes and the tick is over. Otherwise the post
    /// joins the recent posts and is counted, and the step says to publish it
    /// and whether a branch is now due.
    pub fn on_post_generated(&mut self, generated: Option<&str>) -> (s: Step)
        ensures
            generated is None ==> s is Done && *final(self) == *old(self),
            generated is Some ==> (s matches Step::Publish { text, branch_due }
                && text@ == generated->Some_0@
                && branch_due == branch_fires(
                    old(self).character.posts_since_branch as nat,
                    old(self).character.posts_before_branch as nat,
                )),
            generated is Some ==> final(self).character.recent() == push_recent(
                old(self).character.recent(),
                generated->Some_0@,
            ),
            generated is Some ==> final(self).character.posts_since_branch as nat == branch_next(
                old(self).character.posts_since_branch as nat,
                old(self).character.posts_before_branch as nat,
            ),
            final(self).character.version == old(self).character.version,
            final(self).character.character_name == old(self).character.character_name,
            final(self).watermark == old(self).watermark,
            final(self).config == old(self).config,
    {
        match generated {
            None => Step::Done,
            Some(text) => {
                let branch_due = self.record_post(text);
                Step::Publish { text: text.to_owned(), branch_due }
            },
        }
    }

    /// The engage path after a fetch (`None` when it failed): the watermark
    /// takes in the ids. When mentions came, the step asks which one to
    /// answer and counts them as read; otherwise the tick is over.
    pub fn on_mentions_fetched(&mut self, fetched: Option<&Vec<Mention>>) -> (s: Step)
        ensures
            final(self).watermark.latest as nat == after_fetch(old(self).watermark.latest as nat, fetched_ids(fetched)),
            !(fetched is Some && fetched->Some_0@.len() > 0) ==> s is Done,
            (fetched is Some && fetched->Some_0@.len() > 0) ==> (s matches Step::AskChoice { prompt, read }
                && prompt@ == choice_prompt_text(
                    old(self).character.twitter_user_name@,
                    mention_list_text(fetched->Some_0@),
                )
                && read as nat == (if fetched->Some_0@.len() <= u32::MAX { fetched->Some_0@.len() } else { u32::MAX as nat })),
            final(self).character == old(self).character,
            final(self).config == old(self).config,
    {
        self.watermark.record_fetch(fetched);
        match fetched {
            None => Step::Done,
            Some(ms) => match mention_batch(ms) {
                None => Step::Done,
                Some(list) => {
                    let read: u32 = if ms.len() <= u32::MAX as usize { ms.len() as u32 } else { u32::MAX };
                    Step::AskChoice { prompt: self.character.reply_choice_prompt(list.as_str()), read }
                },
            },
        }
    }

    /// The engage path after the completion chose among `ms` (`None` when
    /// the call failed): reply to the first mention whose id is the number
    /// in the reply, with its memory record; the tick is over when the call
    /// failed, the reply is no number, or no mention has that id.
    pub fn on_choice(&self, ms: &Vec<Mention>, response: Option<&str>) -> (s: Step)
        ensures
            response is None ==> s is Done,
            response is Some && choice_of(trimmed(response->Some_0@)) is None ==> s is Done,
            response is Some && choice_of(trimmed(response->Some_0@)) is Some ==> ({
                let id = choice_of(trimmed(response->Some_0@))->Some_0;
                &&& (forall|k: int| 0 <= k < ms@.len() ==> ms@[k].id != id) ==> s is Done
                &&& (exists|k: int| 0 <= k < ms@.len() && ms@[k].id == id) ==> (s matches Step::Reply { index, memory }
                    && index < ms@.len() && ms@[index as int].id == id
                    && (forall|k: int| 0 <= k < index ==> ms@[k].id != id)
                    && memory.id@ == mention_memory_id(id)
                    && memory.content == ms@[index as int].text)
            }),
    {
        match response {
            None => Step::Done,
            Some(r) => match reply_target(ms, r) {
                None => Step::Done,
                Some(i) => Step::Reply { index: i, memory: Message::for_mention(&ms[i]) },
            },
        }
    }

    /// Replaces the persona by its next version built from `candidate`; on
    /// any error the persona stays as it was.
    pub fn adopt_branch(&mut self, candidate: Result<PersonaDef, PersonaError>) -> (r: Result<(), PersonaError>)
        ensures
            candidate is Err ==> r == Err::<(), PersonaError>(candidate->Err_0),
            candidate is Ok && old(self).character.version == u8::MAX ==> r == Err::<(), PersonaError>(
                PersonaError::VersionExhausted,
            ),
            candidate is Ok && old(self).character.version < u8::MAX ==> r is Ok && is_next_version(
                final(self).character,
                old(self).character,
                candidate->Ok_0,
            ),
            r is Err ==> final(self).character == old(self).character,
            final(self).watermark == old(self).watermark,
            final(self).config == old(self).config,
    {
        match self.character.save(candidate) {
            Ok(next) => {
                self.character = next;
                Ok(())
            },
            Err(e) => Err(e),
        }
    }
}

/// The mention to answer: the first whose id is the number in the
/// completion's reply; `None` when the reply is no number or names none.
pub fn reply_target(ms: &Vec<Mention>, response: &str) -> (r: Option<usize>)
    ensures
        choice_of(trimmed(response@)) is None ==> r is None,
        choice_of(trimmed(response@)) is Some ==> ({
            let id = choice_of(trimmed(response@))->Some_0;
            &&& r is None ==> forall|k: int| 0 <= k < ms@.len() ==> ms@[k].id != id
            &&& r is Some ==> r->Some_0 < ms@.len() && ms@[r->Some_0 as int].id == id
                && forall|k: int| 0 <= k < r->Some_0 ==> ms@[k].id != id
        }),
{
    match parse_reply_choice(response) {
        None => None,
        Some(id) => find_mention(ms, id),
    }
}

} // verus!
