//! Rendering a function's inputs and outputs as Rust text.
use vstd::prelude::*;
use vstd::string::StringExecFns;
use crate::abi::{Param, ParamModel, params_view};
use crate::names::{input_name, expand_input_name};
use crate::types::{host_type, expand_type};

verus! {

/// The position of the first of the first `n` parameters whose type does not
/// map to a Rust type, if any.
pub open spec fn first_unmapped(ps: Seq<ParamModel>, n: nat) -> Option<nat>
    decreases n,
{
    if n == 0 {
        None
    } else {
        match first_unmapped(ps, (n - 1) as nat) {
            Some(j) => Some(j),
            None => if host_type(ps[n - 1].kind) is None {
                Some((n - 1) as nat)
            } else {
                None
            },
        }
    }
}

/// The position of the first parameter whose type does not map, if any.
pub open spec fn unmapped_param(ps: Seq<ParamModel>) -> Option<nat> {
    first_unmapped(ps, ps.len())
}

/// The Rust type of a parameter whose type maps.
pub open spec fn param_type(p: ParamModel) -> Seq<char> {
    host_type(p.kind).unwrap()
}

/// The first `n` inputs as typed parameters, each after a comma:
/// `, a: bool, b: self::ethcontract::Address`.
pub open spec fn inputs_prefix(ps: Seq<ParamModel>, n: nat) -> Seq<char>
    decreases n,
{
    if n == 0 {
        Seq::empty()
    } else {
        inputs_prefix(ps, (n - 1) as nat) + ", "@ + input_name((n - 1) as nat, ps[n - 1].name)
            + ": "@ + param_type(ps[n - 1])
    }
}

pub open spec fn inputs_text(ps: Seq<ParamModel>) -> Seq<char> {
    inputs_prefix(ps, ps.len())
}

/// The first `n` input types, each followed by a comma.
pub open spec fn input_types_prefix(ps: Seq<ParamModel>, n: nat) -> Seq<char>
    decreases n,
{
    if n == 0 {
        Seq::empty()
    } else {
        input_types_prefix(ps, (n - 1) as nat) + param_type(ps[n - 1]) + ", "@
    }
}

/// The tuple type of the inputs: `(bool, u8, )`.
pub open spec fn input_types_text(ps: Seq<ParamModel>) -> Seq<char> {
    "("@ + input_types_prefix(ps, ps.len()) + ")"@
}

/// The first `n` input names, each followed by a comma.
pub open spec fn call_arg_prefix(ps: Seq<ParamModel>, n: nat) -> Seq<char>
    decreases n,
{
    if n == 0 {
        Seq::empty()
    } else {
        call_arg_prefix(ps, (n - 1) as nat) + input_name((n - 1) as nat, ps[n - 1].name) + ", "@
    }
}

/// The tuple of the input names that a call passes on: `(a, b, )`.
pub open spec fn call_arg_text(ps: Seq<ParamModel>) -> Seq<char> {
    "("@ + call_arg_prefix(ps, ps.len()) + ")"@
}

/// The first `n` output types joined by `, `.
pub open spec fn output_list(ps: Seq<ParamModel>, n: nat) -> Seq<char>
    decreases n,
{
    if n == 0 {
        Seq::empty()
    } else if n == 1 {
        param_type(ps[0])
    } else {
        output_list(ps, (n - 1) as nat) + ", "@ + param_type(ps[n - 1])
    }
}

/// The return type for the outputs: the unit type for none, the output's own
/// type for one, and a tuple of their types for more.
pub open spec fn outputs_text(ps: Seq<ParamModel>) -> Seq<char> {
    if ps.len() == 0 {
        "()"@
    } else if ps.len() == 1 {
        param_type(ps[0])
    } else {
        "("@ + output_list(ps, ps.len()) + ")"@
    }
}

/// The Rust type of `p`, or the position given where it does not map.
fn param_type_or(p: &Param, position: usize) -> (r: Result<String, usize>)
    ensures
        match r {
            Ok(s) => host_type(p.kind) == Some(s@),
            Err(j) => host_type(p.kind) is None && j == position,
        },
{
    match expand_type(&p.kind) {
        Some(s) => Ok(s),
        None => Err(position),
    }
}

/// The inputs as typed parameters, each after a comma, or the position of
/// the first input whose type does not map.
pub fn expand_inputs(inputs: &Vec<Param>) -> (r: Result<String, usize>)
    ensures
        match unmapped_param(params_view(inputs@)) {
            Some(j) => r matches Err(k) && k as nat == j,
            None => r matches Ok(s) && s@ == inputs_text(params_view(inputs@)),
        },
{
    let ghost pv = params_view(inputs@);
    let mut s = String::new();
    let mut i: usize = 0;
    while i < inputs.len()
        invariant
            i <= inputs@.len(),
            pv == params_view(inputs@),
            first_unmapped(pv, i as nat) is None,
            s@ == inputs_prefix(pv, i as nat),
        decreases inputs@.len() - i,
    {
        let name = expand_input_name(i, inputs[i].name.as_str());
        let kind = match param_type_or(&inputs[i], i) {
            Ok(k) => k,
            Err(j) => {
                proof {
                    lemma_unmapped_persists(pv, (i + 1) as nat, pv.len());
                }
                return Err(j);
            },
        };
        s.append(", ");
        s.append(name.as_str());
        s.append(": ");
        s.append(kind.as_str());
        i += 1;
        assert(s@ =~= inputs_prefix(pv, i as nat));
    }
    Ok(s)
}

/// The tuple type of the inputs, or the position of the first input whose
/// type does not map.
pub fn expand_input_types(inputs: &Vec<Param>) -> (r: Result<String, usize>)
    ensures
        match unmapped_param(params_view(inputs@)) {
            Some(j) => r matches Err(k) && k as nat == j,
            None => r matches Ok(s) && s@ == input_types_text(params_view(inputs@)),
        },
{
    let ghost pv = params_view(inputs@);
    let mut s = String::from_str("(");
    let mut i: usize = 0;
    while i < inputs.len()
        invariant
            i <= inputs@.len(),
            pv == params_view(inputs@),
            first_unmapped(pv, i as nat) is None,
            s@ == "("@ + input_types_prefix(pv, i as nat),
        decreases inputs@.len() - i,
    {
        let kind = match param_type_or(&inputs[i], i) {
            Ok(k) => k,
            Err(j) => {
                proof {
                    lemma_unmapped_persists(pv, (i + 1) as nat, pv.len());
                }
                return Err(j);
            },
        };
        s.append(kind.as_str());
        s.append(", ");
        i += 1;
        assert(s@ =~= "("@ + input_types_prefix(pv, i as nat));
    }
    s.append(")");
    Ok(s)
}

/// The tuple of the input names that a call passes on.
pub fn expand_inputs_call_arg(inputs: &Vec<Param>) -> (r: String)
    ensures
        r@ == call_arg_text(params_view(inputs@)),
{
    let ghost pv = params_view(inputs@);
    let mut s = String::from_str("(");
    let mut i: usize = 0;
    while i < inputs.len()
        invariant
            i <= inputs@.len(),
            pv == params_view(inputs@),
            s@ == "("@ + call_arg_prefix(pv, i as nat),
        decreases inputs@.len() - i,
    {
        let name = expand_input_name(i, inputs[i].name.as_str());
        s.append(name.as_str());
        s.append(", ");
        i += 1;
        assert(s@ =~= "("@ + call_arg_prefix(pv, i as nat));
    }
    s.append(")");
    s
}

/// The return type for the outputs, or the position of the first output
/// whose type does not map.
pub fn expand_outputs(outputs: &Vec<Param>) -> (r: Result<String, usize>)
    ensures
        match unmapped_param(params_view(outputs@)) {
            Some(j) => r matches Err(k) && k as nat == j,
            None => r matches Ok(s) && s@ == outputs_text(params_view(outputs@)),
        },
{
    let ghost pv = params_view(outputs@);
    if outputs.len() == 0 {
        return Ok(String::from_str("()"));
    }
    if outputs.len() == 1 {
        let r = param_type_or(&outputs[0], 0);
        assert(first_unmapped(pv, 0) is None);
        return r;
    }
    let mut s = String::from_str("(");
    let mut i: usize = 0;
    while i < outputs.len()
        invariant
            2 <= outputs@.len(),
            i <= outputs@.len(),
            pv == params_view(outputs@),
            first_unmapped(pv, i as nat) is None,
            s@ == "("@ + output_list(pv, i as nat),
        decreases outputs@.len() - i,
    {
        let kind = match param_type_or(&outputs[i], i) {
            Ok(k) => k,
            Err(j) => {
                proof {
                    lemma_unmapped_persists(pv, (i + 1) as nat, pv.len());
                }
                return Err(j);
            },
        };
        if i > 0 {
            s.append(", ");
        }
        s.append(kind.as_str());
        i += 1;
        assert(s@ =~= "("@ + output_list(pv, i as nat));
    }
    s.append(")");
    Ok(s)
}

proof fn lemma_unmapped_persists(ps: Seq<ParamModel>, k: nat, n: nat)
    requires
        k <= n,
        first_unmapped(ps, k) is Some,
    ensures
        first_unmapped(ps, n) == first_unmapped(ps, k),
    decreases n - k,
{
    if k < n {
        lemma_unmapped_persists(ps, k, (n - 1) as nat);
    }
}


/// A function without inputs takes no parameters besides the instance, and
/// passes on the empty tuple.
pub proof fn lemma_no_inputs(ps: Seq<ParamModel>)
    requires
        ps.len() == 0,
    ensures
        unmapped_param(ps) is None,
        inputs_text(ps) == Seq::<char>::empty(),
        input_types_text(ps) == "()"@,
        call_arg_text(ps) == "()"@,
{
    reveal_strlit("()");
    reveal_strlit("(");
    reveal_strlit(")");
    assert(input_types_text(ps) =~= "()"@);
    assert(call_arg_text(ps) =~= "()"@);
}

/// The return type is the unit type for no outputs, the type of the single
/// output itself for one, and the tuple of the outputs' types in their order
/// for more.
pub proof fn lemma_output_shapes(ps: Seq<ParamModel>)
    requires
        unmapped_param(ps) is None,
    ensures
        ps.len() == 0 ==> outputs_text(ps) == "()"@,
        ps.len() == 1 ==> host_type(ps[0].kind) == Some(outputs_text(ps)),
        ps.len() == 2 ==> outputs_text(ps) == "("@ + param_type(ps[0]) + ", "@ + param_type(ps[1])
            + ")"@,
        ps.len() >= 2 ==> outputs_text(ps) == "("@ + output_list(ps, ps.len()) + ")"@,
        forall|k: int| 0 <= k < ps.len() ==> host_type(#[trigger] ps[k].kind) is Some,
{
    assert forall|k: int| 0 <= k < ps.len() implies host_type(#[trigger] ps[k].kind) is Some by {
        lemma_mapped_prefix(ps, ps.len(), k);
    }
    if ps.len() == 2 {
        assert(output_list(ps, 1) == param_type(ps[0]));
    }
}

proof fn lemma_mapped_prefix(ps: Seq<ParamModel>, n: nat, k: int)
    requires
        first_unmapped(ps, n) is None,
        0 <= k < n,
    ensures
        host_type(ps[k].kind) is Some,
    decreases n,
{
    if k < n - 1 {
        lemma_mapped_prefix(ps, (n - 1) as nat, k);
    }
}

} // verus!
