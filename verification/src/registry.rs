use vstd::prelude::*;
use std::collections::HashSet;

verus! {

/// Why a context could not be added to the registry.
#[derive(Clone, Copy, Debug, PartialEq, Eq, Structural)]
pub enum ContextError {
    /// The context is already registered.
    AlreadyExist,
}

/// What `insert` answers for a context, given what is registered.
pub open spec fn insert_spec(registered: Set<u64>, ctx_ptr: u64) -> Result<(), ContextError> {
    if registered.contains(ctx_ptr) {
        Err(ContextError::AlreadyExist)
    } else {
        Ok(())
    }
}

/// The callback contexts that may currently be used.
///
/// When a trace is closed, events that were already buffered are still fed
/// to the callback afterwards, and nothing tells which invocation is the last
/// one. So the state behind a context can only be freed if every later
/// invocation for it is discarded. This set is what the callback consults: a
/// context is in it from the moment it is subscribed until the moment its
/// trace is asked to close.
///
/// A context is the address of the handler state, used as a key and never
/// followed.
pub struct UniqueValidContexts {
    contexts: HashSet<u64>,
}

impl View for UniqueValidContexts {
    type V = Set<u64>;

    closed spec fn view(&self) -> Set<u64> {
        self.contexts@
    }
}

impl UniqueValidContexts {
    /// An empty registry.
    pub fn new() -> (registry: Self)
        ensures
            registry@ == Set::<u64>::empty(),
    {
        UniqueValidContexts { contexts: HashSet::new() }
    }

    /// Adds a context, unless it is already there.
    pub fn insert(&mut self, ctx_ptr: u64) -> (r: Result<(), ContextError>)
        ensures
            final(self)@ == old(self)@.insert(ctx_ptr),
            r == insert_spec(old(self)@, ctx_ptr),
    {
        match self.contexts.insert(ctx_ptr) {
            true => Ok(()),
            false => Err(ContextError::AlreadyExist),
        }
    }

    /// Removes a context. Removing one that is not there changes nothing.
    pub fn remove(&mut self, ctx_ptr: u64)
        ensures
            final(self)@ == old(self)@.remove(ctx_ptr),
            !old(self)@.contains(ctx_ptr) ==> final(self)@ == old(self)@,
    {
        self.contexts.remove(&ctx_ptr);
        proof {
            if !old(self)@.contains(ctx_ptr) {
                assert(old(self)@.remove(ctx_ptr) =~= old(self)@);
            }
        }
    }

    /// Whether a context may be used.
    pub fn is_valid(&self, ctx_ptr: u64) -> (valid: bool)
        ensures
            valid == self@.contains(ctx_ptr),
    {
        self.contexts.contains(&ctx_ptr)
    }
}

/// A call that changes the registry.
pub enum RegistryOp {
    /// `insert` of a context.
    Insert(u64),
    /// `remove` of a context.
    Remove(u64),
}

/// What is registered after one call.
pub open spec fn apply_op(registered: Set<u64>, op: RegistryOp) -> Set<u64> {
    match op {
        RegistryOp::Insert(ctx_ptr) => registered.insert(ctx_ptr),
        RegistryOp::Remove(ctx_ptr) => registered.remove(ctx_ptr),
    }
}

/// What is registered after a series of calls, made in their order.
pub open spec fn apply_ops(registered: Set<u64>, ops: Seq<RegistryOp>) -> Set<u64>
    decreases ops.len(),
{
    if ops.len() == 0 {
        registered
    } else {
        apply_op(apply_ops(registered, ops.drop_last()), ops.last())
    }
}

/// A registered context stays registered as long as it is not removed,
/// whatever is done with other contexts.
pub proof fn lemma_stays_registered(registered: Set<u64>, ctx_ptr: u64, ops: Seq<RegistryOp>)
    requires
        registered.contains(ctx_ptr),
        forall|i: int| 0 <= i < ops.len() ==> ops[i] != RegistryOp::Remove(ctx_ptr),
    ensures
        apply_ops(registered, ops).contains(ctx_ptr),
    decreases ops.len(),
{
    if ops.len() > 0 {
        lemma_stays_registered(registered, ctx_ptr, ops.drop_last());
    }
}

/// A context that is not registered stays so as long as it is not inserted,
/// whatever is done with other contexts.
pub proof fn lemma_stays_unregistered(registered: Set<u64>, ctx_ptr: u64, ops: Seq<RegistryOp>)
    requires
        !registered.contains(ctx_ptr),
        forall|i: int| 0 <= i < ops.len() ==> ops[i] != RegistryOp::Insert(ctx_ptr),
    ensures
        !apply_ops(registered, ops).contains(ctx_ptr),
    decreases ops.len(),
{
    if ops.len() > 0 {
        lemma_stays_unregistered(registered, ctx_ptr, ops.drop_last());
    }
}

/// Inserting a context a second time is refused, whether the first insert
/// added it or found it, and whatever was done in between, unless the context
/// was removed in between.
pub proof fn lemma_second_insert_is_refused(
    registered: Set<u64>,
    ctx_ptr: u64,
    between: Seq<RegistryOp>,
)
    requires
        forall|i: int| 0 <= i < between.len() ==> between[i] != RegistryOp::Remove(ctx_ptr),
    ensures
        insert_spec(apply_ops(registered.insert(ctx_ptr), between), ctx_ptr) == Err::<(), _>(
            ContextError::AlreadyExist,
        ),
{
    lemma_stays_registered(registered.insert(ctx_ptr), ctx_ptr, between);
}

/// Removing a context that is not registered changes nothing.
pub proof fn lemma_remove_absent_is_noop(registered: Set<u64>, ctx_ptr: u64)
    requires
        !registered.contains(ctx_ptr),
    ensures
        apply_op(registered, RegistryOp::Remove(ctx_ptr)) == registered,
{
    assert(registered.remove(ctx_ptr) =~= registered);
}

} // verus!
