//! Function signatures in canonical ABI notation, and their selectors.
use vstd::prelude::*;
use vstd::string::StringExecFns;
use crate::abi::{Function, FunctionModel, Param, ParamModel, params_view};
use crate::types::{abi_type_name, push_abi_type_name};
use crate::text::{decimal, push_decimal};

verus! {

/// The ABI notation of the parameters' types, joined by commas.
pub open spec fn abi_type_list(ps: Seq<ParamModel>) -> Seq<char>
    decreases ps.len(),
{
    if ps.len() == 0 {
        Seq::empty()
    } else if ps.len() == 1 {
        abi_type_name(ps[0].kind)
    } else {
        abi_type_list(ps.drop_last()) + ","@ + abi_type_name(ps.last().kind)
    }
}

/// The canonical signature `name(type1,type2,...)` of a function.
pub open spec fn abi_signature(f: FunctionModel) -> Seq<char> {
    f.name + "("@ + abi_type_list(f.inputs) + ")"@
}

/// The signature with the output types appended after a colon, where there
/// are any.
pub open spec fn full_signature(f: FunctionModel) -> Seq<char> {
    if f.outputs.len() == 0 {
        abi_signature(f)
    } else {
        abi_signature(f) + ":("@ + abi_type_list(f.outputs) + ")"@
    }
}

/// The Keccak-256 digest of a text's UTF-8 bytes.
pub uninterp spec fn keccak256_of(text: Seq<char>) -> Seq<u8>;

/// The selector of a signature: the first four bytes of its digest.
pub open spec fn keccak_selector(signature: Seq<char>) -> Seq<u8> {
    keccak256_of(signature).subrange(0, 4)
}

/// Relies on `tiny_keccak::Keccak::v256` with `Hasher::update` and
/// `Hasher::finalize`: the 32-byte Keccak-256 digest of the text's bytes.
#[verifier::external_body]
fn keccak256(text: &str) -> (r: [u8; 32])
    ensures
        r@ == keccak256_of(text@),
{
    let mut digest = [0u8; 32];
    let mut hasher = tiny_keccak::Keccak::v256();
    tiny_keccak::Hasher::update(&mut hasher, text.as_bytes());
    tiny_keccak::Hasher::finalize(hasher, &mut digest);
    digest
}

/// Appends the ABI notation of the parameters' types, joined by commas.
fn push_abi_type_list(s: &mut String, ps: &Vec<Param>)
    ensures
        final(s)@ == old(s)@ + abi_type_list(params_view(ps@)),
{
    let ghost start = s@;
    let ghost pv = params_view(ps@);
    let mut i: usize = 0;
    while i < ps.len()
        invariant
            i <= ps@.len(),
            pv == params_view(ps@),
            s@ == start + abi_type_list(pv.subrange(0, i as int)),
        decreases ps@.len() - i,
    {
        if i > 0 {
            s.append(",");
        }
        push_abi_type_name(s, &ps[i].kind);
        i += 1;
        assert(pv.subrange(0, i as int).drop_last() =~= pv.subrange(0, i - 1));
        assert(s@ =~= start + abi_type_list(pv.subrange(0, i as int)));
    }
    assert(pv.subrange(0, i as int) =~= pv);
}

/// The canonical signature `name(type1,type2,...)` of a function.
pub fn signature(f: &Function) -> (r: String)
    ensures
        r@ == abi_signature(f@),
{
    let mut s = String::from_str(f.name.as_str());
    s.append("(");
    push_abi_type_list(&mut s, &f.inputs);
    s.append(")");
    assert(s@ =~= abi_signature(f@));
    s
}

/// The signature with the output types appended after a colon, where there
/// are any.
pub fn expand_full_signature(f: &Function) -> (r: String)
    ensures
        r@ == full_signature(f@),
{
    let mut s = signature(f);
    if f.outputs.len() > 0 {
        s.append(":(");
        push_abi_type_list(&mut s, &f.outputs);
        s.append(")");
        assert(s@ =~= full_signature(f@));
    }
    s
}

/// The 4-byte selector of a function: the start of the digest of its
/// signature.
pub fn function_selector(f: &Function) -> (r: [u8; 4])
    ensures
        r@ == keccak_selector(abi_signature(f@)),
{
    let sig = signature(f);
    let digest = keccak256(sig.as_str());
    let r = [digest[0], digest[1], digest[2], digest[3]];
    assert(r@ =~= keccak_selector(abi_signature(f@)));
    r
}

/// The selector written as a Rust array expression of four decimal bytes.
pub open spec fn selector_text(b: Seq<u8>) -> Seq<char> {
    "["@ + decimal(b[0] as nat) + ", "@ + decimal(b[1] as nat) + ", "@ + decimal(
        b[2] as nat,
    ) + ", "@ + decimal(b[3] as nat) + "]"@
}

/// The selector written as a Rust array expression of four decimal bytes.
pub fn expand_selector(b: [u8; 4]) -> (r: String)
    ensures
        r@ == selector_text(b@),
{
    let mut s = String::from_str("[");
    push_decimal(&mut s, b[0] as usize);
    s.append(", ");
    push_decimal(&mut s, b[1] as usize);
    s.append(", ");
    push_decimal(&mut s, b[2] as usize);
    s.append(", ");
    push_decimal(&mut s, b[3] as usize);
    s.append("]");
    assert(s@ =~= selector_text(b@));
    s
}


proof fn lemma_type_lists_agree(ps: Seq<ParamModel>, qs: Seq<ParamModel>)
    requires
        ps.len() == qs.len(),
        forall|i: int| 0 <= i < ps.len() ==> #[trigger] ps[i].kind == qs[i].kind,
    ensures
        abi_type_list(ps) == abi_type_list(qs),
    decreases ps.len(),
{
    if ps.len() > 1 {
        lemma_type_lists_agree(ps.drop_last(), qs.drop_last());
    }
}

/// A signature, and so a selector, depends on the function's name and input
/// types alone: not on the input names, the outputs or the mutability.
pub proof fn lemma_signature_depends_on_name_and_inputs(f: FunctionModel, g: FunctionModel)
    requires
        f.name == g.name,
        f.inputs.len() == g.inputs.len(),
        forall|i: int| 0 <= i < f.inputs.len() ==> #[trigger] f.inputs[i].kind == g.inputs[i].kind,
    ensures
        abi_signature(f) == abi_signature(g),
        keccak_selector(abi_signature(f)) == keccak_selector(abi_signature(g)),
{
    lemma_type_lists_agree(f.inputs, g.inputs);
}

} // verus!
