//! Driving a durable function: what it runs in, how its run is raced against
//! suspension, and what came of it.
use vstd::prelude::*;

use crate::error::Error;
use crate::types::Outcome;

verus! {

/// The execution environment passed to a durable function.
///
/// - `Function`: leaf functions receive read-only metadata of type `I`.
/// - `Workflow`: workflow functions receive a full context of type `C` for
///   sub-tasks.
pub enum ExecutionEnv<'a, I, C> {
    Function(&'a I),
    Workflow(&'a C),
}

impl<'a, I, C> Copy for ExecutionEnv<'a, I, C> {

}

impl<'a, I, C> Clone for ExecutionEnv<'a, I, C> {
    fn clone(&self) -> (env: Self)
        ensures
            env == *self,
    {
        *self
    }
}

impl<'a, I, C> ExecutionEnv<'a, I, C> {
    /// The context to ask for remote dependencies and for the suspend signal.
    ///
    /// Leaf functions can't spawn durable work: they have no dependencies and
    /// never suspend, so there is nothing to ask.
    pub fn remote_context(self) -> (context: Option<&'a C>)
        ensures
            context == match self {
                ExecutionEnv::Workflow(ctx) => Some(ctx),
                ExecutionEnv::Function(_) => None,
            },
    {
        match self {
            ExecutionEnv::Workflow(ctx) => Some(ctx),
            ExecutionEnv::Function(_) => None,
        }
    }

    /// Extract the context of a workflow.
    pub fn into_context(self) -> (context: &'a C)
        requires
            self is Workflow,
        ensures
            self == ExecutionEnv::<'a, I, C>::Workflow(context),
    {
        match self {
            ExecutionEnv::Workflow(ctx) => ctx,
            ExecutionEnv::Function(_) => vstd::pervasive::unreached(),
        }
    }

    /// Extract the metadata of a leaf function.
    pub fn into_info(self) -> (info: &'a I)
        requires
            self is Function,
        ensures
            self == ExecutionEnv::<'a, I, C>::Function(info),
    {
        match self {
            ExecutionEnv::Function(info) => info,
            ExecutionEnv::Workflow(_) => vstd::pervasive::unreached(),
        }
    }
}

/// Where the race of a user future against a suspend signal stands.
pub enum Race<T> {
    /// The future completed.
    Completed(T),
    /// The suspend signal fired first; the future is to be dropped.
    Suspended,
    /// Neither happened yet.
    Running,
}

/// One look at the race: what the user future delivered so far, and whether
/// the suspend signal has fired. A ready completion wins a simultaneous signal.
pub fn race_suspend<T>(delivered: Option<T>, suspend_fired: bool) -> (race: Race<T>)
    ensures
        race == match delivered {
            Some(r) => Race::Completed(r),
            None => if suspend_fired {
                Race::Suspended
            } else {
                Race::Running
            },
        },
{
    match delivered {
        Some(r) => Race::Completed(r),
        None => if suspend_fired {
            Race::Suspended
        } else {
            Race::Running
        },
    }
}

/// Decide whether a driven future completed or suspended, given the race result
/// (`None`: it parked) and the remote todos collected afterward. Suspends iff
/// the future parked or left unresolved remote work; only a clean completion
/// with no outstanding todos is `Done`.
///
/// A park always registers work to wait on: otherwise the task would stay
/// suspended with nothing to resume it.
pub fn finalize_outcome<T>(
    result: Option<Result<T, Error>>,
    remote_todos: Vec<String>,
) -> (outcome: Outcome<T>)
    requires
        result is None ==> remote_todos@.len() > 0,
    ensures
        remote_todos@.len() == 0 ==> outcome == Outcome::Done(result->Some_0),
        remote_todos@.len() > 0 ==> outcome == (Outcome::<T>::Suspended { remote_todos }),
{
    match result {
        Some(result) => if remote_todos.len() == 0 {
            Outcome::Done(result)
        } else {
            Outcome::Suspended { remote_todos }
        },
        None => Outcome::Suspended { remote_todos },
    }
}

/// A function is done exactly where it completed and left nothing to wait for; its
/// outcome is then what it returned, and otherwise what is left to wait for.
pub proof fn lemma_done_or_suspended<T>(
    result: Option<Result<T, Error>>,
    remote_todos: Vec<String>,
    outcome: Outcome<T>,
)
    requires
        result is None ==> remote_todos@.len() > 0,
        call_ensures(finalize_outcome::<T>, (result, remote_todos), outcome),
    ensures
        outcome is Done <==> result is Some && remote_todos@.len() == 0,
        outcome matches Outcome::Done(r) ==> result == Some(r),
        outcome matches Outcome::Suspended { remote_todos: todos } ==> todos == remote_todos,
{
}

/// A completion wins over a signal that fires at the same time, and a signal is not
/// overlooked.
pub proof fn lemma_completion_wins<T>(delivered: Option<T>, fired: bool, race: Race<T>)
    requires
        call_ensures(race_suspend::<T>, (delivered, fired), race),
    ensures
        race is Completed <==> delivered is Some,
        race matches Race::Completed(r) ==> delivered == Some(r),
        race is Suspended <==> delivered is None && fired,
        race is Running <==> delivered is None && !fired,
{
}

/// A workflow has a context to ask, a leaf function has none; either hands out what it was
/// given.
pub proof fn lemma_environment<'a, I, C>(
    env: ExecutionEnv<'a, I, C>,
    context: Option<&'a C>,
    ctx: &'a C,
    info: &'a I,
)
    requires
        call_ensures(ExecutionEnv::<'a, I, C>::remote_context, (env,), context),
    ensures
        context is Some <==> env is Workflow,
        env matches ExecutionEnv::Workflow(c) ==> context == Some(c),
        env is Workflow && call_ensures(ExecutionEnv::<'a, I, C>::into_context, (env,), ctx)
            ==> env == ExecutionEnv::<'a, I, C>::Workflow(ctx),
        env is Function && call_ensures(ExecutionEnv::<'a, I, C>::into_info, (env,), info) ==> env
            == ExecutionEnv::<'a, I, C>::Function(info),
{
}

} // verus!
