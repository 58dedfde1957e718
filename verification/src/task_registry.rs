//! The pipelines that are under way, by the id of their profile.
//!
//! Each pipeline has a cancellation signal; the registry keeps a handle of
//! it for as long as the pipeline runs, so that a request to cancel can
//! reach it. There is one entry for a profile at most.

use std::collections::HashMap;
use tokio_util::sync::CancellationToken;
use vstd::prelude::*;

verus! {

broadcast use vstd::std_specs::hash::group_hash_axioms;

/// The cancellation signal of `tokio_util`. It is shared by its clones and
/// by the tasks that wait for it; what state it is in depends on what
/// others have done, so nothing is said of that here.
#[verifier::external_type_specification]
#[verifier::external_body]
pub struct ExCancellationToken(CancellationToken);

/// `CancellationToken::new` makes a signal of its own, shared with nobody.
pub assume_specification[ CancellationToken::new ]() -> (token: CancellationToken)
;

/// `CancellationToken::clone` hands out another handle of the same signal:
/// the two share one node, and the type's own `==` holds of them.
pub assume_specification[ <CancellationToken as Clone>::clone ](token: &CancellationToken) -> (r:
    CancellationToken)
    ensures
        r == *token,
;

/// `CancellationToken::cancel` sets the signal, for good; it neither fails nor waits.
pub assume_specification[ CancellationToken::cancel ](token: &CancellationToken)
;

/// The signals of the pipelines that are under way.
pub struct TaskRegistry {
    pub tasks: HashMap<u32, CancellationToken>,
}

impl View for TaskRegistry {
    type V = Map<u32, CancellationToken>;

    /// The signal of each profile for which a pipeline is under way.
    open spec fn view(&self) -> Map<u32, CancellationToken> {
        self.tasks@
    }
}

impl TaskRegistry {
    /// A registry without an entry.
    pub fn new() -> (r: TaskRegistry)
        ensures
            r@ == Map::<u32, CancellationToken>::empty(),
    {
        TaskRegistry { tasks: HashMap::new() }
    }

    /// Is a pipeline under way for the profile?
    pub fn is_active(&self, id: u32) -> (r: bool)
        ensures
            r == self@.contains_key(id),
    {
        self.tasks.contains_key(&id)
    }

    /// The number of pipelines under way.
    pub fn len(&self) -> (r: usize)
        ensures
            r == self@.len(),
    {
        self.tasks.len()
    }

    /// Enters a pipeline for the profile and hands out its signal: the
    /// profile's entry holds the signal handed out, in place of any that it
    /// held before, and every other entry is as it was.
    pub fn register(&mut self, id: u32) -> (token: CancellationToken)
        ensures
            final(self)@ == old(self)@.insert(id, token),
    {
        let token = CancellationToken::new();
        self.tasks.insert(id, token.clone());
        token
    }

    /// Takes the profile's entry out, if it has one: its pipeline has
    /// ended. Every other entry is as it was.
    pub fn finish(&mut self, id: u32)
        ensures
            final(self)@ == old(self)@.remove(id),
    {
        self.tasks.remove(&id);
    }

    /// Cancels the profile's pipeline, if one is under way: its signal is
    /// set and its entry taken out. Tells whether there was one. Every
    /// other entry is as it was.
    pub fn cancel(&mut self, id: u32) -> (r: bool)
        ensures
            r == old(self)@.contains_key(id),
            final(self)@ == old(self)@.remove(id),
    {
        let entry = self.tasks.remove(&id);
        match entry {
            Some(token) => {
                token.cancel();
                true
            },
            None => false,
        }
    }
}

/// Entering a pipeline and taking it out again leaves the registry as it
/// was, where the profile had no entry before: no other profile's signal
/// is touched.
pub proof fn lemma_entered_and_taken_out(
    before: Map<u32, CancellationToken>,
    id: u32,
    token: CancellationToken,
)
    requires
        !before.contains_key(id),
    ensures
        before.insert(id, token).remove(id) == before,
        forall|other: u32|
            other != id && before.contains_key(other) ==> #[trigger] before.insert(
                id,
                token,
            )[other] == before[other],
{
    assert(before.insert(id, token).remove(id) =~= before);
}

} // verus!
