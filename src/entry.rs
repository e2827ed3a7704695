use vstd::prelude::*;
use lambda_runtime::{Context, LambdaEvent};
use crate::payload::{Payload, is_default_payload};

verus! {

/// lambda_runtime's invocation context, carried through unread.
#[verifier::external_type_specification]
#[verifier::external_body]
pub struct ExContext(lambda_runtime::Context);

/// lambda_runtime's event: its public fields `payload` and `context`.
#[verifier::external_type_specification]
#[verifier::reject_recursive_types(T)]
pub struct ExLambdaEvent<T>(lambda_runtime::LambdaEvent<T>);

/// Relies on lambda_runtime's `LambdaEvent::new`, which stores the payload
/// and the context as they are given.
pub assume_specification<T>[ lambda_runtime::LambdaEvent::<T>::new ](
    payload: T,
    context: lambda_runtime::Context,
) -> (r: lambda_runtime::LambdaEvent<T>)
    ensures
        r.payload == payload,
        r.context == context,
;

/// Relies on lambda_runtime's `Context::default`: the invocation context of
/// an event that no service delivered.
#[verifier::external_body]
fn default_context() -> (r: Context) {
    Context::default()
}

/// How a handler's entry point was asked to run it.
#[derive(Clone, Copy, Debug, PartialEq, Eq, Structural)]
pub enum Directive {
    /// Always hand the handler to the execution service's run loop.
    Managed,
    /// Invoke the handler once with a fabricated event.
    Local,
    /// Decide between the two from the environment at start-up.
    Adaptive,
}

/// One step of an entry point. The steps of a plan run in order, and the
/// first one that fails ends the process with its error.
#[derive(Clone, Copy, Debug, PartialEq, Eq, Structural)]
pub enum Step {
    /// Print whether the managed platform was detected.
    Announce(bool),
    /// Register the handler with the execution service and run its loop.
    RunService,
    /// Call the handler once with the event of `local_event`.
    InvokeHandler,
    /// Print the debug form of the handler's result.
    PrintResult,
}

/// The prefix that names of the managed platform's environment variables carry.
pub open spec fn platform_prefix() -> Seq<char> {
    "AWS_LAMBDA"@
}

/// `s` begins with `prefix`.
pub open spec fn has_prefix(s: Seq<char>, prefix: Seq<char>) -> bool {
    prefix.len() <= s.len() && s.subrange(0, prefix.len() as int) == prefix
}

/// Some name among `names` carries the platform prefix.
pub open spec fn names_platform(names: Seq<String>) -> bool {
    exists|i: int| 0 <= i < names.len() && has_prefix(#[trigger] names[i]@, platform_prefix())
}

/// The plan of an entry point that runs under the execution service.
pub open spec fn managed_plan() -> Seq<Step> {
    seq![Step::RunService]
}

/// The plan of an entry point that runs the handler once, locally.
pub open spec fn local_plan() -> Seq<Step> {
    seq![Step::InvokeHandler, Step::PrintResult]
}

/// The plan of an adaptive entry point, given whether the platform was detected.
pub open spec fn adaptive_plan(detected: bool) -> Seq<Step> {
    seq![Step::Announce(detected)] + if detected {
        managed_plan()
    } else {
        local_plan()
    }
}

/// The plan that `directive` gives in an environment whose variable names are `names`.
pub open spec fn plan_for(directive: Directive, names: Seq<String>) -> Seq<Step> {
    match directive {
        Directive::Managed => managed_plan(),
        Directive::Local => local_plan(),
        Directive::Adaptive => adaptive_plan(names_platform(names)),
    }
}

/// How many times a plan calls the handler directly.
pub open spec fn invocations(plan: Seq<Step>) -> nat
    decreases plan.len(),
{
    if plan.len() == 0 {
        0
    } else {
        invocations(plan.drop_last()) + if plan.last() is InvokeHandler {
            1nat
        } else {
            0nat
        }
    }
}

/// The line an adaptive entry point prints before it dispatches.
pub open spec fn detection_text(detected: bool) -> Seq<char> {
    if detected {
        "Running in Lambda environment: true"@
    } else {
        "Running in Lambda environment: false"@
    }
}

/// Whether `s` begins with `prefix`.
pub fn starts_with(s: &str, prefix: &str) -> (r: bool)
    ensures
        r == has_prefix(s@, prefix@),
{
    let n = s.unicode_len();
    let m = prefix.unicode_len();
    if m > n {
        return false;
    }
    let mut i: usize = 0;
    while i < m
        invariant
            m == prefix@.len(),
            n == s@.len(),
            m <= n,
            i <= m,
            forall|j: int| 0 <= j < i ==> s@[j] == prefix@[j],
        decreases m - i,
    {
        if s.get_char(i) != prefix.get_char(i) {
            assert(s@.subrange(0, m as int)[i as int] != prefix@[i as int]);
            return false;
        }
        i += 1;
    }
    assert(s@.subrange(0, m as int) =~= prefix@);
    true
}

/// Whether any of the environment variable names carries the platform prefix.
/// Only presence counts: one matching name decides as many would.
pub fn is_managed_environment(names: &Vec<String>) -> (r: bool)
    ensures
        r == names_platform(names@),
{
    let mut i: usize = 0;
    while i < names.len()
        invariant
            i <= names@.len(),
            forall|j: int| 0 <= j < i ==> !has_prefix(#[trigger] names@[j]@, platform_prefix()),
        decreases names@.len() - i,
    {
        if starts_with(names[i].as_str(), "AWS_LAMBDA") {
            return true;
        }
        i += 1;
    }
    false
}

/// The line that reports whether the platform was detected.
pub fn detection_line(detected: bool) -> (r: String)
    ensures
        r@ == detection_text(detected),
{
    if detected {
        "Running in Lambda environment: true".to_owned()
    } else {
        "Running in Lambda environment: false".to_owned()
    }
}

/// The event that a local run hands to the handler: the default payload
/// and a default invocation context.
pub fn local_event<T: Default>() -> (r: LambdaEvent<Payload<T>>)
    ensures
        is_default_payload(r.payload),
{
    let payload = Payload::<T>::default();
    LambdaEvent::new(payload, default_context())
}

/// The steps of an entry point under `directive`, where `env_names` are the
/// names of the process's environment variables, read once at start-up.
pub fn entry_plan(directive: Directive, env_names: &Vec<String>) -> (r: Vec<Step>)
    ensures
        r@ == plan_for(directive, env_names@),
{
    match directive {
        Directive::Managed => managed_function(),
        Directive::Local => local_function(),
        Directive::Adaptive => lambda_function(env_names),
    }
}

/// The steps of an entry point that always runs under the execution service.
pub fn managed_function() -> (r: Vec<Step>)
    ensures
        r@ == managed_plan(),
{
    vec![Step::RunService]
}

/// The steps of an entry point that runs the handler once with a fabricated event.
pub fn local_function() -> (r: Vec<Step>)
    ensures
        r@ == local_plan(),
{
    vec![Step::InvokeHandler, Step::PrintResult]
}

/// The steps of an adaptive entry point: report the detection, then follow
/// the managed plan where a platform variable is present and the local plan
/// where none is.
pub fn lambda_function(env_names: &Vec<String>) -> (r: Vec<Step>)
    ensures
        r@ == adaptive_plan(names_platform(env_names@)),
{
    let detected = is_managed_environment(env_names);
    let mut plan = vec![Step::Announce(detected)];
    if detected {
        plan.push(Step::RunService);
    } else {
        plan.push(Step::InvokeHandler);
        plan.push(Step::PrintResult);
    }
    assert(plan@ =~= adaptive_plan(detected));
    plan
}

/// A local entry point calls the handler exactly once, with the event of
/// `local_event`, and never starts the service loop.
pub proof fn law_local_calls_handler_once(env_names: Seq<String>)
    ensures
        invocations(plan_for(Directive::Local, env_names)) == 1,
        !plan_for(Directive::Local, env_names).contains(Step::RunService),
{
    let plan = plan_for(Directive::Local, env_names);
    reveal_with_fuel(invocations, 3);
    assert(plan.drop_last() =~= seq![Step::InvokeHandler]);
    assert(plan.drop_last().drop_last() =~= Seq::<Step>::empty());
    if plan.contains(Step::RunService) {
        let k = choose|k: int| 0 <= k < plan.len() && plan[k] == Step::RunService;
        assert(plan[k] != Step::RunService);
    }
}

/// A managed entry point only registers the handler with the service: it
/// never calls the handler itself, so it never needs a fabricated event.
pub proof fn law_managed_never_calls_handler(env_names: Seq<String>)
    ensures
        plan_for(Directive::Managed, env_names) == seq![Step::RunService],
        invocations(plan_for(Directive::Managed, env_names)) == 0,
{
    let plan = plan_for(Directive::Managed, env_names);
    reveal_with_fuel(invocations, 2);
    assert(plan.drop_last() =~= Seq::<Step>::empty());
}

/// An adaptive entry point first reports the detection, then behaves as a
/// managed one where some variable name carries the platform prefix, and as
/// a local one where none does.
pub proof fn law_adaptive_follows_detection(env_names: Seq<String>)
    ensures
        plan_for(Directive::Adaptive, env_names)[0] == Step::Announce(names_platform(env_names)),
        names_platform(env_names) ==> plan_for(Directive::Adaptive, env_names).drop_first()
            == plan_for(Directive::Managed, env_names),
        !names_platform(env_names) ==> plan_for(Directive::Adaptive, env_names).drop_first()
            == plan_for(Directive::Local, env_names),
        invocations(plan_for(Directive::Adaptive, env_names)) == if names_platform(env_names) {
            0nat
        } else {
            1nat
        },
{
    let d = names_platform(env_names);
    let plan = plan_for(Directive::Adaptive, env_names);
    reveal_with_fuel(invocations, 4);
    if d {
        assert(plan.drop_first() =~= managed_plan());
        assert(plan.drop_last() =~= seq![Step::Announce(d)]);
        assert(plan.drop_last().drop_last() =~= Seq::<Step>::empty());
    } else {
        assert(plan.drop_first() =~= local_plan());
        assert(plan.drop_last() =~= seq![Step::Announce(d), Step::InvokeHandler]);
        assert(plan.drop_last().drop_last() =~= seq![Step::Announce(d)]);
        assert(plan.drop_last().drop_last().drop_last() =~= Seq::<Step>::empty());
    }
}

/// Detection depends on presence alone: once one name carries the platform
/// prefix, any further names, matching or not, leave the outcome unchanged.
pub proof fn law_detection_is_presence(env_names: Seq<String>, more: Seq<String>)
    requires
        names_platform(env_names),
    ensures
        names_platform(env_names + more),
        names_platform(more + env_names),
{
    let i = choose|i: int| 0 <= i < env_names.len() && has_prefix(#[trigger] env_names[i]@, platform_prefix());
    assert((env_names + more)[i] == env_names[i]);
    assert((more + env_names)[more.len() + i] == env_names[i]);
}

} // verus!
