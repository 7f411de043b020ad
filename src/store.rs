//! Atomic replacement of a stored persona definition: the full content is
//! written under a temporary name and then renamed onto the destination, so
//! that at no point a reader sees a partial destination.

use vstd::prelude::*;

verus! {

/// One step against the definition store.
#[derive(Debug)]
pub enum StoreOp {
    /// Create or truncate `file` and write `content` to it.
    Write { file: String, content: String },
    /// Atomically move `from` onto `to`, replacing what `to` held.
    Rename { from: String, to: String },
}

/// A store step over character sequences.
pub enum StoreStep {
    Write(Seq<char>, Seq<char>),
    Rename(Seq<char>, Seq<char>),
}

impl View for StoreOp {
    type V = StoreStep;

    open spec fn view(&self) -> StoreStep {
        match self {
            StoreOp::Write { file, content } => StoreStep::Write(file@, content@),
            StoreOp::Rename { from, to } => StoreStep::Rename(from@, to@),
        }
    }
}

/// The store (file name to content) after one step.
pub open spec fn apply_step(store: Map<Seq<char>, Seq<char>>, step: StoreStep) -> Map<Seq<char>, Seq<char>> {
    match step {
        StoreStep::Write(file, content) => store.insert(file, content),
        StoreStep::Rename(from, to) => if store.contains_key(from) {
            store.remove(from).insert(to, store[from])
        } else {
            store
        },
    }
}

/// The store after a sequence of steps, in order.
pub open spec fn apply_steps(store: Map<Seq<char>, Seq<char>>, steps: Seq<StoreStep>) -> Map<Seq<char>, Seq<char>>
    decreases steps.len(),
{
    if steps.len() == 0 {
        store
    } else {
        apply_step(apply_steps(store, steps.drop_last()), steps.last())
    }
}

/// The file that holds the definition with lookup name `name`.
pub open spec fn definition_file(name: Seq<char>) -> Seq<char> {
    name + seq!['.', 'j', 's', 'o', 'n']
}

/// The temporary file a new definition with lookup name `name` is written to first.
pub open spec fn temporary_file(name: Seq<char>) -> Seq<char> {
    name + seq!['.', 't', 'm', 'p']
}

/// The steps that store `content` under lookup name `name`.
pub open spec fn atomic_write_plan(name: Seq<char>, content: Seq<char>) -> Seq<StoreStep> {
    seq![
        StoreStep::Write(temporary_file(name), content),
        StoreStep::Rename(temporary_file(name), definition_file(name)),
    ]
}

/// `a` and `b` agree on `file`: both lack it, or both hold the same content.
pub open spec fn agrees_at(a: Map<Seq<char>, Seq<char>>, b: Map<Seq<char>, Seq<char>>, file: Seq<char>) -> bool {
    a.contains_key(file) == b.contains_key(file) && (a.contains_key(file) ==> a[file] == b[file])
}

/// Stopped after any number of its steps, an atomic write leaves every
/// file but the temporary one and the destination exactly as it was (the
/// previous version's file among them); the destination keeps its old state
/// until the last step, and after the last step it holds the whole content.
pub proof fn lemma_atomic_write_crash_safe(store: Map<Seq<char>, Seq<char>>, name: Seq<char>, content: Seq<char>, done: nat)
    requires
        done <= 2,
    ensures
        ({
            let after = apply_steps(store, atomic_write_plan(name, content).take(done as int));
            &&& forall|f: Seq<char>| f != temporary_file(name) && f != definition_file(name)
                ==> #[trigger] agrees_at(after, store, f)
            &&& done < 2 ==> agrees_at(after, store, definition_file(name))
            &&& done == 2 ==> after.contains_key(definition_file(name))
                && after[definition_file(name)] == content
        }),
{
    let plan = atomic_write_plan(name, content);
    let tmp = temporary_file(name);
    let dest = definition_file(name);
    assert(tmp.len() != dest.len());
    assert(tmp != dest);
    let s1 = store.insert(tmp, content);
    assert(plan.take(0) =~= Seq::<StoreStep>::empty());
    assert(plan.take(1).drop_last() =~= plan.take(0));
    assert(plan.take(2).drop_last() =~= plan.take(1));
    assert(apply_steps(store, plan.take(0)) == store);
    assert(plan.take(1).last() == StoreStep::Write(tmp, content));
    assert(plan.take(2).last() == StoreStep::Rename(tmp, dest));
    assert(apply_steps(store, plan.take(1)) == s1);
    assert(apply_steps(store, plan.take(2)) == s1.remove(tmp).insert(dest, content));
}

/// The lookup name's definition file.
pub fn definition_file_name(name: &str) -> (r: String)
    ensures
        r@ == definition_file(name@),
{
    let mut s = name.to_owned();
    s.append(".json");
    proof {
        reveal_strlit(".json");
        assert(s@ =~= definition_file(name@));
    }
    s
}

/// The steps that store `content` as the definition with lookup name
/// `name`: write a temporary file, then rename it onto the destination.
pub fn atomic_write(name: &str, content: String) -> (ops: Vec<StoreOp>)
    ensures
        ops@.map_values(|o: StoreOp| o@) == atomic_write_plan(name@, content@),
{
    let mut tmp = name.to_owned();
    tmp.append(".tmp");
    proof {
        reveal_strlit(".tmp");
        assert(tmp@ =~= temporary_file(name@));
    }
    let dest = definition_file_name(name);
    let tmp2 = tmp.clone();
    let mut ops: Vec<StoreOp> = Vec::new();
    ops.push(StoreOp::Write { file: tmp, content });
    ops.push(StoreOp::Rename { from: tmp2, to: dest });
    assert(ops@[0]@ == StoreStep::Write(temporary_file(name@), content@));
    assert(ops@[1]@ == StoreStep::Rename(temporary_file(name@), definition_file(name@)));
    assert(ops@.map_values(|o: StoreOp| o@) =~= atomic_write_plan(name@, content@));
    ops
}

} // verus!
