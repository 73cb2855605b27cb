//! Planning of the `#[activity]` and `#[workflow]` attribute macros.
//!
//! The macros read a function's signature and decide what to generate: the
//! name of the registration function, whether the first parameter is the
//! context, which parameters are decoded from the input, and which
//! signatures are refused. Those decisions are made here, on a plain model of
//! the signature; writing out the tokens is left to the macro crate.
use vstd::prelude::*;
use crate::workflow::joined;

verus! {

/// One parameter of a function signature.
#[derive(Debug)]
pub struct FnParam {
    /// `false` for a receiver (`self`, `&self`, ...), `true` for a typed
    /// parameter.
    pub typed: bool,
    /// The identifier, where the parameter's pattern is a plain identifier.
    pub ident: Option<String>,
}

/// Abstract value of [`FnParam`].
pub struct FnParamView {
    pub typed: bool,
    pub ident: Option<Seq<char>>,
}

impl View for FnParam {
    type V = FnParamView;

    open spec fn view(&self) -> FnParamView {
        FnParamView {
            typed: self.typed,
            ident: match self.ident {
                Some(i) => Some(i@),
                None => None,
            },
        }
    }
}

/// The parts of a function signature that the macros read.
#[derive(Debug)]
pub struct FnSignature {
    /// The function's name.
    pub name: String,
    /// Whether the function is `async`.
    pub is_async: bool,
    /// Whether the signature writes a return type.
    pub has_return_type: bool,
    /// Whether the written return type is a `Result` type: a path whose last
    /// segment is `Result` or ends in `Result` (such as `ActivityResult`).
    pub returns_result: bool,
    /// The parameters, in order.
    pub params: Vec<FnParam>,
}

/// The abstract parameters of a signature.
pub open spec fn params_view(ps: Seq<FnParam>) -> Seq<FnParamView> {
    ps.map_values(|p: FnParam| p@)
}

/// Why the `#[activity]` macro refuses a function.
#[derive(Debug, Clone, Copy, PartialEq, Eq, Structural)]
pub enum ActivityMacroError {
    /// The function is not `async`.
    NotAsync,
    /// The function's return type is not a `Result` (or is not written).
    NoResultType,
}

impl ActivityMacroError {
    /// The compile error's message.
    pub open spec fn text(self) -> Seq<char> {
        match self {
            ActivityMacroError::NotAsync => "activity functions must be async"@,
            ActivityMacroError::NoResultType => "activity functions must return a Result type"@,
        }
    }

    /// The compile error's message.
    pub fn message(&self) -> (s: String)
        ensures
            s@ == self.text(),
    {
        match self {
            ActivityMacroError::NotAsync => String::from_str("activity functions must be async"),
            ActivityMacroError::NoResultType => String::from_str(
                "activity functions must return a Result type",
            ),
        }
    }
}

/// What the `#[activity]` macro generates for a function.
#[derive(Debug)]
pub struct ActivityPlan {
    /// The registered activity name: the function's name.
    pub activity_name: String,
    /// The name of the generated registration function.
    pub registration_fn: String,
    /// Whether the first typed parameter is the activity context.
    pub has_context: bool,
    /// The positions, in the signature's parameter list, of the parameters
    /// that are decoded from the activity input.
    pub value_params: Vec<usize>,
    /// The identifiers of those of them whose pattern is an identifier.
    pub value_names: Vec<String>,
}

/// The positions of the typed parameters.
pub open spec fn typed_positions(ps: Seq<FnParamView>) -> Seq<usize>
    decreases ps.len(),
{
    if ps.len() == 0 {
        Seq::empty()
    } else {
        let rest = typed_positions(ps.drop_last());
        if ps.last().typed {
            rest.push((ps.len() - 1) as usize)
        } else {
            rest
        }
    }
}

/// Whether an identifier names the context parameter.
pub open spec fn is_context_ident(ident: Option<Seq<char>>) -> bool {
    match ident {
        Some(n) => n == "ctx"@ || n == "_ctx"@,
        None => false,
    }
}

/// Whether the first typed parameter is the context.
pub open spec fn has_context_param(ps: Seq<FnParamView>) -> bool {
    let t = typed_positions(ps);
    t.len() > 0 && is_context_ident(ps[t[0] as int].ident)
}

/// The positions of the parameters decoded from the input: the typed ones,
/// without the context.
pub open spec fn value_positions(ps: Seq<FnParamView>) -> Seq<usize> {
    if has_context_param(ps) {
        typed_positions(ps).drop_first()
    } else {
        typed_positions(ps)
    }
}

/// The identifiers of the parameters at `positions` whose pattern is an
/// identifier, in order.
pub open spec fn named_idents(ps: Seq<FnParamView>, positions: Seq<usize>) -> Seq<Seq<char>>
    decreases positions.len(),
{
    if positions.len() == 0 {
        Seq::empty()
    } else {
        let rest = named_idents(ps, positions.drop_last());
        match ps[positions.last() as int].ident {
            Some(n) => rest.push(n),
            None => rest,
        }
    }
}

/// The name of the registration function the `#[activity]` macro generates.
pub open spec fn activity_registration_name(name: Seq<char>) -> Seq<char> {
    "__temporal_activity_register_"@ + name
}

/// The name of the registration function the `#[workflow]` macro generates.
pub open spec fn workflow_registration_name(name: Seq<char>) -> Seq<char> {
    name + "_registration"@
}

fn is_context_name(ident: &Option<String>) -> (b: bool)
    ensures
        b == is_context_ident(match ident {
            Some(i) => Some(i@),
            None => None,
        }),
{
    match ident {
        Some(n) => {
            let ctx = String::from_str("ctx");
            let under = String::from_str("_ctx");
            *n == ctx || *n == under
        },
        None => false,
    }
}

fn typed_params(params: &Vec<FnParam>) -> (t: Vec<usize>)
    ensures
        t@ == typed_positions(params_view(params@)),
        forall|k: int| 0 <= k < t@.len() ==> t@[k] < params@.len(),
{
    let ghost ps = params_view(params@);
    let mut t: Vec<usize> = Vec::new();
    let mut i: usize = 0;
    assert(ps.take(0) =~= Seq::<FnParamView>::empty());
    while i < params.len()
        invariant
            i <= params@.len(),
            ps == params_view(params@),
            t@ == typed_positions(ps.take(i as int)),
            forall|k: int| 0 <= k < t@.len() ==> t@[k] < i,
        decreases params@.len() - i,
    {
        assert(ps.take(i as int + 1).drop_last() =~= ps.take(i as int));
        assert(ps.take(i as int + 1).last() == params@[i as int]@);
        if params[i].typed {
            t.push(i);
        }
        i = i + 1;
    }
    assert(ps.take(i as int) =~= ps);
    t
}

fn named_params(params: &Vec<FnParam>, positions: &Vec<usize>) -> (names: Vec<String>)
    requires
        forall|k: int| 0 <= k < positions@.len() ==> positions@[k] < params@.len(),
    ensures
        names@.map_values(|n: String| n@) == named_idents(params_view(params@), positions@),
{
    let ghost ps = params_view(params@);
    let mut names: Vec<String> = Vec::new();
    let mut i: usize = 0;
    assert(positions@.take(0) =~= Seq::<usize>::empty());
    assert(names@.map_values(|n: String| n@) =~= Seq::<Seq<char>>::empty());
    while i < positions.len()
        invariant
            i <= positions@.len(),
            ps == params_view(params@),
            forall|k: int| 0 <= k < positions@.len() ==> positions@[k] < params@.len(),
            names@.map_values(|n: String| n@) == named_idents(ps, positions@.take(i as int)),
        decreases positions@.len() - i,
    {
        let ghost before = names@.map_values(|n: String| n@);
        assert(positions@.take(i as int + 1).drop_last() =~= positions@.take(i as int));
        assert(positions@.take(i as int + 1).last() == positions@[i as int]);
        let p: usize = positions[i];
        match &params[p].ident {
            Some(n) => {
                names.push(n.clone());
                assert(names@.map_values(|n: String| n@) =~= before.push(n@));
            },
            None => {},
        }
        i = i + 1;
    }
    assert(positions@.take(i as int) =~= positions@);
    names
}

/// Plans the `#[activity]` macro for a function: refuses a function that is
/// not `async`, then one that does not return a `Result`; otherwise the activity is
/// registered under the function's name, a first typed parameter named `ctx`
/// or `_ctx` receives the context, and the other typed parameters are
/// decoded from the input.
pub fn plan_activity(sig: &FnSignature) -> (r: Result<ActivityPlan, ActivityMacroError>)
    ensures
        !sig.is_async ==> r == Err::<ActivityPlan, ActivityMacroError>(ActivityMacroError::NotAsync),
        sig.is_async && !(sig.has_return_type && sig.returns_result) ==> r == Err::<
            ActivityPlan,
            ActivityMacroError,
        >(ActivityMacroError::NoResultType),
        sig.is_async && sig.has_return_type && sig.returns_result ==> r is Ok,
        r matches Ok(plan) ==> {
            let ps = params_view(sig.params@);
            &&& plan.activity_name@ == sig.name@
            &&& plan.registration_fn@ == activity_registration_name(sig.name@)
            &&& plan.has_context == has_context_param(ps)
            &&& plan.value_params@ == value_positions(ps)
            &&& plan.value_names@.map_values(|n: String| n@) == named_idents(ps, value_positions(ps))
        },
{
    if !sig.is_async {
        return Err(ActivityMacroError::NotAsync);
    }
    if !(sig.has_return_type && sig.returns_result) {
        return Err(ActivityMacroError::NoResultType);
    }
    let ghost ps = params_view(sig.params@);
    let typed = typed_params(&sig.params);
    let has_context = typed.len() > 0 && is_context_name(&sig.params[typed[0]].ident);
    let mut value_params: Vec<usize> = Vec::new();
    let start: usize = if has_context { 1 } else { 0 };
    let mut i: usize = start;
    assert(typed@.subrange(start as int, start as int) =~= Seq::<usize>::empty());
    while i < typed.len()
        invariant
            start <= i <= typed@.len(),
            value_params@ == typed@.subrange(start as int, i as int),
        decreases typed@.len() - i,
    {
        value_params.push(typed[i]);
        assert(typed@.subrange(start as int, i as int + 1) =~= typed@.subrange(start as int, i as int).push(typed@[i as int]));
        i = i + 1;
    }
    assert(value_params@ =~= value_positions(ps));
    let value_names = named_params(&sig.params, &value_params);
    Ok(ActivityPlan {
        activity_name: sig.name.clone(),
        registration_fn: joined("__temporal_activity_register_", sig.name.as_str()),
        has_context,
        value_params,
        value_names,
    })
}

/// What the `#[workflow]` macro generates for a function.
#[derive(Debug)]
pub struct WorkflowPlan {
    /// The registered workflow name: the function's name.
    pub workflow_name: String,
    /// The name of the generated registration function.
    pub registration_fn: String,
    /// The position of the parameter decoded from the workflow input, if
    /// any: the parameter after the context, when it is typed.
    pub input_param: Option<usize>,
    /// Whether the workflow's result is the unit value (no return type).
    pub returns_unit: bool,
}

/// The position of a workflow's input parameter: the second parameter, when
/// there is one and it is typed.
pub open spec fn workflow_input_position(ps: Seq<FnParamView>) -> Option<usize> {
    if ps.len() >= 2 && ps[1].typed {
        Some(1usize)
    } else {
        None
    }
}

/// Plans the `#[workflow]` macro for a function. Every function is
/// accepted.
pub fn plan_workflow(sig: &FnSignature) -> (plan: WorkflowPlan)
    ensures
        plan.workflow_name@ == sig.name@,
        plan.registration_fn@ == workflow_registration_name(sig.name@),
        plan.input_param == workflow_input_position(params_view(sig.params@)),
        plan.returns_unit == !sig.has_return_type,
{
    let input_param = if sig.params.len() >= 2 && sig.params[1].typed {
        Some(1usize)
    } else {
        None
    };
    let mut registration_fn = sig.name.clone();
    registration_fn.append("_registration");
    WorkflowPlan {
        workflow_name: sig.name.clone(),
        registration_fn,
        input_param,
        returns_unit: !sig.has_return_type,
    }
}

/// The positions of the typed parameters are increasing and name typed
/// parameters.
proof fn lemma_typed_positions(ps: Seq<FnParamView>)
    requires
        ps.len() <= usize::MAX,
    ensures
        forall|k: int| 0 <= k < typed_positions(ps).len() ==> {
            &&& (#[trigger] typed_positions(ps)[k]) < ps.len()
            &&& ps[typed_positions(ps)[k] as int].typed
        },
        forall|a: int, b: int| 0 <= a < b < typed_positions(ps).len() ==> typed_positions(ps)[a] < typed_positions(ps)[b],
    decreases ps.len(),
{
    if ps.len() > 0 {
        lemma_typed_positions(ps.drop_last());
        let p = ps.drop_last();
        let rest = typed_positions(p);
        let t = typed_positions(ps);
        assert(t == if ps.last().typed { rest.push((ps.len() - 1) as usize) } else { rest });
        assert forall|k: int| 0 <= k < rest.len() implies rest[k] < p.len() && ps[rest[k] as int] == p[rest[k] as int] && ps[rest[k] as int].typed by {
            assert(p[rest[k] as int].typed);
        }
        assert forall|k: int| 0 <= k < t.len() implies (#[trigger] t[k]) < ps.len() && ps[t[k] as int].typed by {
            if k < rest.len() {
                assert(t[k] == rest[k]);
            }
        }
        assert forall|a: int, b: int| 0 <= a < b < t.len() implies t[a] < t[b] by {
            if b < rest.len() {
                assert(t[a] == rest[a] && t[b] == rest[b]);
            } else {
                assert(t[a] == rest[a]);
            }
        }
    }
}

/// The activity context is never decoded from the input: when the first
/// typed parameter is the context, the decoded parameters are exactly the
/// typed parameters after it, and every decoded parameter is typed.
pub proof fn lemma_context_is_not_decoded(ps: Seq<FnParamView>)
    requires
        ps.len() <= usize::MAX,
    ensures
        has_context_param(ps) ==> !value_positions(ps).contains(typed_positions(ps)[0]),
        forall|k: int| 0 <= k < value_positions(ps).len() ==> {
            &&& (#[trigger] value_positions(ps)[k]) < ps.len()
            &&& ps[value_positions(ps)[k] as int].typed
        },
{
    lemma_typed_positions(ps);
    let t = typed_positions(ps);
    if has_context_param(ps) {
        assert forall|k: int| 0 <= k < t.drop_first().len() implies t.drop_first()[k] != t[0] by {
            assert(t.drop_first()[k] == t[k + 1]);
        }
    }
}

} // verus!
