//! Mapping ABI types to Rust types, and to their canonical ABI notation.
use vstd::prelude::*;
use vstd::string::StringExecFns;
use crate::abi::ParamType;
use crate::text::{decimal, push_decimal};

verus! {

/// The Rust type for an integer of `bits` bits, by its byte width.
pub open spec fn int_type(bits: nat, signed: bool) -> Option<Seq<char>> {
    let bytes = bits / 8;
    if bytes == 1 {
        Some(if signed { "i8"@ } else { "u8"@ })
    } else if bytes == 2 {
        Some(if signed { "i16"@ } else { "u16"@ })
    } else if 3 <= bytes <= 4 {
        Some(if signed { "i32"@ } else { "u32"@ })
    } else if 5 <= bytes <= 8 {
        Some(if signed { "i64"@ } else { "u64"@ })
    } else if 9 <= bytes <= 16 {
        Some(if signed { "i128"@ } else { "u128"@ })
    } else if 17 <= bytes <= 32 {
        Some(if signed { "self::ethcontract::I256"@ } else { "self::ethcontract::U256"@ })
    } else {
        None
    }
}

/// The Rust type that stands for an ABI type; `None` where the type has an
/// integer width that no Rust type carries.
pub open spec fn host_type(t: ParamType) -> Option<Seq<char>>
    decreases t, 0nat,
{
    match t {
        ParamType::Address => Some("self::ethcontract::Address"@),
        ParamType::Bytes => Some("self::ethcontract::tokens::Bytes<Vec<u8>>"@),
        ParamType::Int(n) => int_type(n as nat, true),
        ParamType::Uint(n) => int_type(n as nat, false),
        ParamType::Bool => Some("bool"@),
        ParamType::String => Some("String"@),
        ParamType::Array(b) => match host_type(*b) {
            Some(inner) => Some("Vec<"@ + inner + ">"@),
            None => None,
        },
        ParamType::FixedBytes(n) => Some(
            "self::ethcontract::tokens::Bytes<[u8; "@ + decimal(n as nat) + "]>"@,
        ),
        ParamType::FixedArray(b, n) => match host_type(*b) {
            Some(inner) => Some("["@ + inner + "; "@ + decimal(n as nat) + "]"@),
            None => None,
        },
        ParamType::Tuple(ts) => match host_tuple_items(ts, ts@.len()) {
            Some(items) => Some("("@ + items + ")"@),
            None => None,
        },
    }
}

/// The first `n` component types of a tuple, each followed by a comma.
pub open spec fn host_tuple_items(ts: Vec<ParamType>, n: nat) -> Option<Seq<char>>
    decreases ts, n,
{
    if n == 0 || n > ts@.len() {
        if n == 0 { Some(Seq::empty()) } else { None }
    } else {
        match host_tuple_items(ts, (n - 1) as nat) {
            Some(prefix) => match host_type(ts[n - 1]) {
                Some(item) => Some(prefix + item + ", "@),
                None => None,
            },
            None => None,
        }
    }
}

/// The canonical ABI notation of a type, as used in function signatures.
pub open spec fn abi_type_name(t: ParamType) -> Seq<char>
    decreases t, 0nat,
{
    match t {
        ParamType::Address => "address"@,
        ParamType::Bytes => "bytes"@,
        ParamType::Int(n) => "int"@ + decimal(n as nat),
        ParamType::Uint(n) => "uint"@ + decimal(n as nat),
        ParamType::Bool => "bool"@,
        ParamType::String => "string"@,
        ParamType::Array(b) => abi_type_name(*b) + "[]"@,
        ParamType::FixedBytes(n) => "bytes"@ + decimal(n as nat),
        ParamType::FixedArray(b, n) => abi_type_name(*b) + "["@ + decimal(n as nat) + "]"@,
        ParamType::Tuple(ts) => "("@ + abi_tuple_items(ts, ts@.len()) + ")"@,
    }
}

/// The first `n` component types of a tuple in ABI notation, joined by commas.
pub open spec fn abi_tuple_items(ts: Vec<ParamType>, n: nat) -> Seq<char>
    decreases ts, n,
{
    if n == 0 || n > ts@.len() {
        Seq::empty()
    } else if n == 1 {
        abi_type_name(ts[0])
    } else {
        abi_tuple_items(ts, (n - 1) as nat) + ","@ + abi_type_name(ts[n - 1])
    }
}

proof fn lemma_tuple_failure_persists(ts: Vec<ParamType>, k: nat, n: nat)
    requires
        k <= n <= ts@.len(),
        host_tuple_items(ts, k) is None,
    ensures
        host_tuple_items(ts, n) is None,
    decreases n - k,
{
    if k < n {
        lemma_tuple_failure_persists(ts, k, (n - 1) as nat);
    }
}

fn push_int_type(s: &mut String, bits: usize, signed: bool) -> (ok: bool)
    ensures
        ok == int_type(bits as nat, signed).is_some(),
        ok ==> final(s)@ == old(s)@ + int_type(bits as nat, signed).unwrap(),
        !ok ==> final(s)@ == old(s)@,
{
    let bytes = bits / 8;
    let name = if bytes == 1 {
        if signed { "i8" } else { "u8" }
    } else if bytes == 2 {
        if signed { "i16" } else { "u16" }
    } else if 3 <= bytes && bytes <= 4 {
        if signed { "i32" } else { "u32" }
    } else if 5 <= bytes && bytes <= 8 {
        if signed { "i64" } else { "u64" }
    } else if 9 <= bytes && bytes <= 16 {
        if signed { "i128" } else { "u128" }
    } else if 17 <= bytes && bytes <= 32 {
        if signed { "self::ethcontract::I256" } else { "self::ethcontract::U256" }
    } else {
        return false;
    };
    s.append(name);
    true
}

/// Appends the Rust type for `t` to `s`; returns false, leaving what was
/// appended so far, where the type does not map.
fn push_host_type(s: &mut String, t: &ParamType) -> (ok: bool)
    ensures
        ok == host_type(*t).is_some(),
        ok ==> final(s)@ == old(s)@ + host_type(*t).unwrap(),
    decreases t,
{
    match t {
        ParamType::Address => {
            s.append("self::ethcontract::Address");
            true
        },
        ParamType::Bytes => {
            s.append("self::ethcontract::tokens::Bytes<Vec<u8>>");
            true
        },
        ParamType::Int(n) => push_int_type(s, *n, true),
        ParamType::Uint(n) => push_int_type(s, *n, false),
        ParamType::Bool => {
            s.append("bool");
            true
        },
        ParamType::String => {
            s.append("String");
            true
        },
        ParamType::Array(b) => {
            s.append("Vec<");
            if !push_host_type(s, b) {
                return false;
            }
            s.append(">");
            assert(final(s)@ =~= old(s)@ + host_type(*t).unwrap());
            true
        },
        ParamType::FixedBytes(n) => {
            s.append("self::ethcontract::tokens::Bytes<[u8; ");
            push_decimal(s, *n);
            s.append("]>");
            assert(final(s)@ =~= old(s)@ + host_type(*t).unwrap());
            true
        },
        ParamType::FixedArray(b, n) => {
            s.append("[");
            if !push_host_type(s, b) {
                return false;
            }
            s.append("; ");
            push_decimal(s, *n);
            s.append("]");
            assert(final(s)@ =~= old(s)@ + host_type(*t).unwrap());
            true
        },
        ParamType::Tuple(ts) => {
            let ghost start = s@;
            s.append("(");
            let mut i: usize = 0;
            while i < ts.len()
                invariant
                    i <= ts@.len(),
                    host_tuple_items(*ts, i as nat).is_some(),
                    s@ == start + "("@ + host_tuple_items(*ts, i as nat).unwrap(),
                    decreases_to!(*t => *ts),
                    *t == ParamType::Tuple(*ts),
                decreases ts@.len() - i,
            {
                assert(decreases_to!(*ts => ts[i as int]));
                let ghost before = s@;
                if !push_host_type(s, &ts[i]) {
                    assert(host_tuple_items(*ts, (i + 1) as nat).is_none());
                    proof {
                        lemma_tuple_failure_persists(*ts, (i + 1) as nat, ts@.len());
                    }
                    return false;
                }
                s.append(", ");
                i += 1;
                assert(s@ =~= start + "("@ + host_tuple_items(*ts, i as nat).unwrap());
            }
            s.append(")");
            assert(final(s)@ =~= old(s)@ + host_type(*t).unwrap());
            true
        },
    }
}

/// The Rust type that stands for `t`, or `None` where it has an integer
/// width that no Rust type carries.
pub fn expand_type(t: &ParamType) -> (r: Option<String>)
    ensures
        r matches Some(s) ==> host_type(*t) == Some(s@),
        r is None ==> host_type(*t) is None,
{
    let mut s = String::new();
    if push_host_type(&mut s, t) {
        assert(s@ =~= host_type(*t).unwrap());
        Some(s)
    } else {
        None
    }
}

/// Appends the canonical ABI notation of `t` to `s`.
pub fn push_abi_type_name(s: &mut String, t: &ParamType)
    ensures
        final(s)@ == old(s)@ + abi_type_name(*t),
    decreases t,
{
    match t {
        ParamType::Address => s.append("address"),
        ParamType::Bytes => s.append("bytes"),
        ParamType::Int(n) => {
            s.append("int");
            push_decimal(s, *n);
        },
        ParamType::Uint(n) => {
            s.append("uint");
            push_decimal(s, *n);
        },
        ParamType::Bool => s.append("bool"),
        ParamType::String => s.append("string"),
        ParamType::Array(b) => {
            push_abi_type_name(s, b);
            s.append("[]");
        },
        ParamType::FixedBytes(n) => {
            s.append("bytes");
            push_decimal(s, *n);
        },
        ParamType::FixedArray(b, n) => {
            push_abi_type_name(s, b);
            s.append("[");
            push_decimal(s, *n);
            s.append("]");
        },
        ParamType::Tuple(ts) => {
            let ghost start = s@;
            s.append("(");
            let mut i: usize = 0;
            while i < ts.len()
                invariant
                    i <= ts@.len(),
                    s@ == start + "("@ + abi_tuple_items(*ts, i as nat),
                    decreases_to!(*t => *ts),
                    *t == ParamType::Tuple(*ts),
                decreases ts@.len() - i,
            {
                assert(decreases_to!(*ts => ts[i as int]));
                if i > 0 {
                    s.append(",");
                }
                push_abi_type_name(s, &ts[i]);
                i += 1;
                assert(s@ =~= start + "("@ + abi_tuple_items(*ts, i as nat));
            }
            s.append(")");
        },
    }
    assert(final(s)@ =~= old(s)@ + abi_type_name(*t));
}

} // verus!
