//! The persona ("character"): its published definition, its lineage
//! (base name and version), the bounded buffer of recent posts and the
//! counter that decides when a new version branches off.

use std::collections::VecDeque;
use vstd::prelude::*;
use crate::lineage::{base_name_of, lemma_versioned_name_round_trip, parse_lookup_name, token_value, version_of, versioned_lookup_name, versioned_name};
use crate::text::texts;

verus! {

/// How many recent posts a persona keeps.
pub const RECENT_POSTS_CAPACITY: usize = 5;

/// Posts between two branches unless configured otherwise.
pub const DEFAULT_POSTS_BEFORE_BRANCH: u8 = 5;

/// Why a persona could not be loaded or saved.
#[derive(Debug, Clone, Copy, PartialEq, Eq, Structural)]
pub enum PersonaError {
    /// The named definition does not exist.
    NotFound,
    /// The definition is not a well-formed persona.
    ParseError,
    /// The version counter has no room for another version.
    VersionExhausted,
}

/// The published part of a persona: identity and the four trait pools.
/// This is what a stored definition holds; lineage and runtime state are not
/// part of it.
#[derive(Debug)]
pub struct PersonaDef {
    pub alias: String,
    pub twitter_user_name: String,
    pub bio: String,
    pub adjectives: Vec<String>,
    pub lore: Vec<String>,
    pub styles: Vec<String>,
    pub topics: Vec<String>,
}

/// A persona: the published definition plus lineage and runtime state.
#[derive(Debug)]
pub struct Character {
    pub alias: String,
    pub twitter_user_name: String,
    pub bio: String,
    pub adjectives: Vec<String>,
    pub lore: Vec<String>,
    pub styles: Vec<String>,
    pub topics: Vec<String>,
    /// Lineage key: the lookup name without its version suffix.
    pub character_name: String,
    /// Position in the lineage, starting at 1.
    pub version: u8,
    /// Posts since the last branch.
    pub posts_since_branch: u8,
    /// How many posts make a branch.
    pub posts_before_branch: u8,
    /// The most recent posts, oldest first.
    pub previous_posts: VecDeque<String>,
}

/// The last `n` items of `s` (all of them when there are fewer).
pub open spec fn keep_last(s: Seq<Seq<char>>, n: nat) -> Seq<Seq<char>> {
    if s.len() <= n {
        s
    } else {
        s.subrange(s.len() - n, s.len() as int)
    }
}

/// The recent-post buffer after one more post.
pub open spec fn push_recent(buf: Seq<Seq<char>>, post: Seq<char>) -> Seq<Seq<char>> {
    keep_last(buf.push(post), RECENT_POSTS_CAPACITY as nat)
}

/// Whether a post made with `count` earlier posts since the last branch fires a branch.
pub open spec fn branch_fires(count: nat, threshold: nat) -> bool {
    count + 1 >= threshold
}

/// The branch counter after one more post.
pub open spec fn branch_next(count: nat, threshold: nat) -> nat {
    if branch_fires(count, threshold) {
        0
    } else {
        count + 1
    }
}

/// The persona-visible fields of `c` are those of `d`.
pub open spec fn holds_definition(c: Character, d: PersonaDef) -> bool {
    &&& c.alias == d.alias
    &&& c.twitter_user_name == d.twitter_user_name
    &&& c.bio == d.bio
    &&& c.adjectives == d.adjectives
    &&& c.lore == d.lore
    &&& c.styles == d.styles
    &&& c.topics == d.topics
}

/// `c` is a fresh persona: no recent posts and nothing counted towards a branch.
pub open spec fn is_fresh(c: Character) -> bool {
    c.previous_posts@.len() == 0 && c.posts_since_branch == 0
}

/// `next` is the version that follows `cur` with definition `d`.
pub open spec fn is_next_version(next: Character, cur: Character, d: PersonaDef) -> bool {
    &&& holds_definition(next, d)
    &&& next.character_name == cur.character_name
    &&& next.version == cur.version + 1
    &&& next.posts_before_branch == cur.posts_before_branch
    &&& is_fresh(next)
}

/// The recent-post buffer after a sequence of posts, one at a time.
pub open spec fn recent_after(buf: Seq<Seq<char>>, posts: Seq<Seq<char>>) -> Seq<Seq<char>>
    decreases posts.len(),
{
    if posts.len() == 0 {
        buf
    } else {
        push_recent(recent_after(buf, posts.drop_last()), posts.last())
    }
}

/// The branch counter after `calls` posts from a fresh persona.
pub open spec fn count_after(threshold: nat, calls: nat) -> nat
    decreases calls,
{
    if calls == 0 {
        0
    } else {
        branch_next(count_after(threshold, (calls - 1) as nat), threshold)
    }
}

proof fn lemma_keep_last_push(s: Seq<Seq<char>>, x: Seq<char>, n: nat)
    requires
        n >= 1,
    ensures
        keep_last(keep_last(s, n).push(x), n) == keep_last(s.push(x), n),
{
    if s.len() > n {
        let k = keep_last(s, n);
        assert(keep_last(k.push(x), n) =~= keep_last(s.push(x), n));
    }
}

/// However many posts are added, one at a time, to a buffer that holds at
/// most five, the buffer holds the last five of everything added, oldest
/// first: the oldest entry is always the one evicted.
pub proof fn lemma_recent_posts_fifo(buf: Seq<Seq<char>>, posts: Seq<Seq<char>>)
    requires
        buf.len() <= RECENT_POSTS_CAPACITY,
    ensures
        recent_after(buf, posts) == keep_last(buf + posts, RECENT_POSTS_CAPACITY as nat),
        recent_after(buf, posts).len() <= RECENT_POSTS_CAPACITY,
    decreases posts.len(),
{
    if posts.len() == 0 {
        assert(buf + posts =~= buf);
    } else {
        let init = posts.drop_last();
        lemma_recent_posts_fifo(buf, init);
        lemma_keep_last_push(buf + init, posts.last(), RECENT_POSTS_CAPACITY as nat);
        assert((buf + init).push(posts.last()) =~= buf + posts);
    }
}

proof fn lemma_mod_step(k: nat, n: nat)
    requires
        n >= 1,
    ensures
        k % n + 1 >= n ==> (k + 1) % n == 0,
        k % n + 1 < n ==> (k + 1) % n == k % n + 1,
{
    let c = k % n;
    let q = k / n;
    vstd::arithmetic::div_mod::lemma_fundamental_div_mod(k as int, n as int);
    vstd::arithmetic::div_mod::lemma_mod_bound(k as int, n as int);
    if c + 1 >= n {
        assert(k + 1 == (q + 1) * n) by (nonlinear_arith)
            requires k == n * q + c, c + 1 == n;
        vstd::arithmetic::div_mod::lemma_mod_multiples_basic((q + 1) as int, n as int);
    } else {
        assert(k + 1 == q * n + (c + 1)) by (nonlinear_arith)
            requires k == n * q + c;
        vstd::arithmetic::div_mod::lemma_fundamental_div_mod_converse(
            (k + 1) as int,
            n as int,
            q as int,
            (c + 1) as int,
        );
    }
}

/// From a fresh persona with a branch threshold of N (at least 1), the
/// counter after k posts is k mod N, and post k + 1 fires a branch exactly
/// when k + 1 is a multiple of N; firing leaves the counter at 0.
pub proof fn lemma_branch_every_nth(threshold: nat, k: nat)
    requires
        threshold >= 1,
    ensures
        count_after(threshold, k) == k % threshold,
        branch_fires(count_after(threshold, k), threshold) <==> (k + 1) % threshold == 0,
        branch_fires(count_after(threshold, k), threshold) ==> count_after(threshold, k + 1) == 0,
    decreases k,
{
    if k == 0 {
        vstd::arithmetic::div_mod::lemma_small_mod(0, threshold);
    } else {
        lemma_branch_every_nth(threshold, (k - 1) as nat);
        lemma_mod_step((k - 1) as nat, threshold);
    }
    lemma_mod_step(k, threshold);
    assert(count_after(threshold, k + 1) == branch_next(count_after(threshold, k), threshold));
}

/// A saved version is one more than the version it was saved from, and its
/// lookup name (the destination it is stored under) carries exactly that
/// version and the unchanged lineage key, for a key that is not empty,
/// holds no dot and is not itself a version token (`v` and digits).
pub proof fn lemma_save_names_next_version(next: Character, cur: Character, d: PersonaDef)
    requires
        is_next_version(next, cur, d),
        cur.character_name@.len() >= 1,
        forall|k: int| 0 <= k < cur.character_name@.len() ==> cur.character_name@[k] != '.',
        token_value(cur.character_name@) is None,
    ensures
        next.version == cur.version + 1,
        version_of(versioned_name(next.character_name@, next.version as nat)) == cur.version + 1,
        base_name_of(versioned_name(next.character_name@, next.version as nat)) == cur.character_name@,
{
    lemma_versioned_name_round_trip(cur.character_name@, next.version as nat);
}

impl Character {
    /// Builds the persona named `character_name` from its decoded definition:
    /// the lineage key and version come from the name, the buffer of recent
    /// posts starts empty and the branch threshold is the default.
    /// A failed read or decode is handed back as it came.
    pub fn load(character_name: &str, decoded: Result<PersonaDef, PersonaError>) -> (r: Result<Character, PersonaError>)
        ensures
            decoded is Err ==> r == Err::<Character, PersonaError>(decoded->Err_0),
            decoded is Ok ==> r is Ok && holds_definition(r->Ok_0, decoded->Ok_0)
                && r->Ok_0.character_name@ == base_name_of(character_name@)
                && r->Ok_0.version as nat == version_of(character_name@)
                && r->Ok_0.posts_before_branch == DEFAULT_POSTS_BEFORE_BRANCH
                && is_fresh(r->Ok_0),
    {
        match decoded {
            Err(e) => Err(e),
            Ok(d) => {
                let (base, version) = parse_lookup_name(character_name);
                Ok(Character::from_definition(d, base, version, DEFAULT_POSTS_BEFORE_BRANCH))
            },
        }
    }

    fn from_definition(d: PersonaDef, base: String, version: u8, posts_before_branch: u8) -> (c: Character)
        ensures
            holds_definition(c, d),
            c.character_name == base,
            c.version == version,
            c.posts_before_branch == posts_before_branch,
            is_fresh(c),
    {
        Character {
            alias: d.alias,
            twitter_user_name: d.twitter_user_name,
            bio: d.bio,
            adjectives: d.adjectives,
            lore: d.lore,
            styles: d.styles,
            topics: d.topics,
            character_name: base,
            version,
            posts_since_branch: 0,
            posts_before_branch,
            previous_posts: VecDeque::new(),
        }
    }

    /// The next version of this persona, built from a candidate definition.
    /// Its lineage key is this persona's and its version is one more; nothing
    /// of the candidate's own lineage is kept. A candidate that failed to
    /// decode is refused with its error, and a persona at the last version
    /// that a `u8` holds cannot branch. This persona is left as it is.
    pub fn save(&self, candidate: Result<PersonaDef, PersonaError>) -> (r: Result<Character, PersonaError>)
        ensures
            candidate is Err ==> r == Err::<Character, PersonaError>(candidate->Err_0),
            candidate is Ok && self.version == u8::MAX ==> r == Err::<Character, PersonaError>(PersonaError::VersionExhausted),
            candidate is Ok && self.version < u8::MAX ==> r is Ok
                && is_next_version(r->Ok_0, *self, candidate->Ok_0),
    {
        match candidate {
            Err(e) => Err(e),
            Ok(d) => {
                if self.version == u8::MAX {
                    Err(PersonaError::VersionExhausted)
                } else {
                    let base = self.character_name.clone();
                    Ok(Character::from_definition(d, base, self.version + 1, self.posts_before_branch))
                }
            },
        }
    }

    /// The published part of this persona.
    pub fn definition(&self) -> (d: PersonaDef)
        ensures
            d.alias == self.alias,
            d.twitter_user_name == self.twitter_user_name,
            d.bio == self.bio,
            d.adjectives@ == self.adjectives@,
            d.lore@ == self.lore@,
            d.styles@ == self.styles@,
            d.topics@ == self.topics@,
    {
        PersonaDef {
            alias: self.alias.clone(),
            twitter_user_name: self.twitter_user_name.clone(),
            bio: self.bio.clone(),
            adjectives: clone_strings(&self.adjectives),
            lore: clone_strings(&self.lore),
            styles: clone_strings(&self.styles),
            topics: clone_strings(&self.topics),
        }
    }

    /// The lookup name of this version: `base.vN`.
    pub fn lookup_name(&self) -> (r: String)
        ensures
            r@ == versioned_name(self.character_name@, self.version as nat),
    {
        versioned_lookup_name(self.character_name.as_str(), self.version)
    }

    /// The recent posts as character sequences, oldest first.
    pub open spec fn recent(&self) -> Seq<Seq<char>> {
        texts(self.previous_posts@)
    }

    /// Appends a post to the recent-post buffer, evicting the oldest
    /// entries so that at most five remain.
    pub fn add_previous_post(&mut self, post: &str)
        ensures
            final(self).recent() == push_recent(old(self).recent(), post@),
            final(self).recent().len() <= RECENT_POSTS_CAPACITY,
            final(self).alias == old(self).alias,
            final(self).twitter_user_name == old(self).twitter_user_name,
            final(self).bio == old(self).bio,
            final(self).adjectives == old(self).adjectives,
            final(self).lore == old(self).lore,
            final(self).styles == old(self).styles,
            final(self).topics == old(self).topics,
            final(self).character_name == old(self).character_name,
            final(self).version == old(self).version,
            final(self).posts_since_branch == old(self).posts_since_branch,
            final(self).posts_before_branch == old(self).posts_before_branch,
    {
        let ghost start = self.recent();
        let ghost mut removed: int = 0;
        while self.previous_posts.len() >= RECENT_POSTS_CAPACITY
            invariant
                0 <= removed <= start.len(),
                self.recent() == start.subrange(removed, start.len() as int),
                removed > 0 ==> self.recent().len() >= RECENT_POSTS_CAPACITY - 1,
                self.alias == old(self).alias,
                self.twitter_user_name == old(self).twitter_user_name,
                self.bio == old(self).bio,
                self.adjectives == old(self).adjectives,
                self.lore == old(self).lore,
                self.styles == old(self).styles,
                self.topics == old(self).topics,
                self.character_name == old(self).character_name,
                self.version == old(self).version,
                self.posts_since_branch == old(self).posts_since_branch,
                self.posts_before_branch == old(self).posts_before_branch,
            decreases self.previous_posts@.len(),
        {
            let ghost q = self.previous_posts@;
            self.previous_posts.pop_front();
            proof {
                assert(texts(q.drop_first()) =~= texts(q).drop_first());
                assert(start.subrange(removed + 1, start.len() as int)
                    =~= start.subrange(removed, start.len() as int).drop_first());
                removed = removed + 1;
            }
        }
        let ghost q = self.previous_posts@;
        let s = post.to_owned();
        self.previous_posts.push_back(s);
        proof {
            assert(texts(q.push(s)) =~= texts(q).push(post@));
            let full = start.push(post@);
            if start.len() < RECENT_POSTS_CAPACITY {
                assert(removed == 0);
                assert(start.subrange(0, start.len() as int) =~= start);
            } else {
                assert(removed == start.len() - (RECENT_POSTS_CAPACITY - 1));
                assert(full.subrange(full.len() - RECENT_POSTS_CAPACITY, full.len() as int)
                    =~= start.subrange(removed, start.len() as int).push(post@));
            }
        }
    }

    /// Counts one more post; when the count reaches the threshold, resets it
    /// to zero and reports that a branch is due.
    pub fn should_branch(&mut self) -> (fired: bool)
        ensures
            fired == branch_fires(old(self).posts_since_branch as nat, old(self).posts_before_branch as nat),
            final(self).posts_since_branch as nat == branch_next(
                old(self).posts_since_branch as nat,
                old(self).posts_before_branch as nat,
            ),
            final(self).alias == old(self).alias,
            final(self).twitter_user_name == old(self).twitter_user_name,
            final(self).bio == old(self).bio,
            final(self).adjectives == old(self).adjectives,
            final(self).lore == old(self).lore,
            final(self).styles == old(self).styles,
            final(self).topics == old(self).topics,
            final(self).character_name == old(self).character_name,
            final(self).version == old(self).version,
            final(self).posts_before_branch == old(self).posts_before_branch,
            final(self).previous_posts == old(self).previous_posts,
    {
        let next: u16 = self.posts_since_branch as u16 + 1;
        if next >= self.posts_before_branch as u16 {
            self.posts_since_branch = 0;
            true
        } else {
            self.posts_since_branch = next as u8;
            false
        }
    }
}

fn clone_strings(v: &Vec<String>) -> (r: Vec<String>)
    ensures
        r@ == v@,
{
    let mut r: Vec<String> = Vec::new();
    let mut i: usize = 0;
    while i < v.len()
        invariant
            i <= v.len(),
            r@ == v@.subrange(0, i as int),
        decreases v.len() - i,
    {
        r.push(v[i].clone());
        assert(r@ =~= v@.subrange(0, i as int + 1));
        i += 1;
    }
    assert(v@.subrange(0, v.len() as int) =~= v@);
    r
}

} // verus!
