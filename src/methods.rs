//! Resolving each ABI function into a method record, and rendering the
//! methods and signatures containers.
use vstd::prelude::*;
use vstd::string::StringExecFns;
use crate::abi::{
    AbiModel, AliasModel, Context, ContextModel, DocEntry, DocModel, Function, FunctionModel,
    MethodAlias, StateMutability,
};
use crate::names::{method_name, expand_method_name};
use crate::text::{decimal, push_decimal};
use crate::params::{
    call_arg_text, expand_input_types, expand_inputs, expand_inputs_call_arg, expand_outputs,
    input_types_text, inputs_text, outputs_text, unmapped_param,
};
use crate::signature::{
    abi_signature, expand_full_signature, expand_selector, full_signature, function_selector,
    keccak_selector, selector_text, signature,
};

verus! {

/// Why generation failed.
pub enum GenerateError {
    /// The type of the input at `position` of the function with this
    /// signature does not map to a Rust type.
    UnsupportedInput { signature: String, position: usize },
    /// The type of the output at `position` of the function with this
    /// signature does not map to a Rust type.
    UnsupportedOutput { signature: String, position: usize },
    /// An alias names this signature, which no function has.
    UnusedAlias { signature: String },
}

pub enum ErrorModel {
    UnsupportedInput { signature: Seq<char>, position: nat },
    UnsupportedOutput { signature: Seq<char>, position: nat },
    UnusedAlias { signature: Seq<char> },
}

impl View for GenerateError {
    type V = ErrorModel;

    open spec fn view(&self) -> ErrorModel {
        match self {
            GenerateError::UnsupportedInput { signature, position } => ErrorModel::UnsupportedInput {
                signature: signature@,
                position: *position as nat,
            },
            GenerateError::UnsupportedOutput { signature, position } => ErrorModel::UnsupportedOutput {
                signature: signature@,
                position: *position as nat,
            },
            GenerateError::UnusedAlias { signature } => ErrorModel::UnusedAlias {
                signature: signature@,
            },
        }
    }
}

/// The human-readable text of an error.
pub open spec fn error_message(e: ErrorModel) -> Seq<char> {
    match e {
        ErrorModel::UnsupportedInput { signature, position } => "error expanding function '"@
            + signature + "': input "@ + decimal(position) + " has an unsupported type"@,
        ErrorModel::UnsupportedOutput { signature, position } => "error expanding function '"@
            + signature + "': output "@ + decimal(position) + " has an unsupported type"@,
        ErrorModel::UnusedAlias { signature } => "a manual method alias for '"@ + signature
            + "' was specified but this method does not exist"@,
    }
}

impl GenerateError {
    /// The human-readable text of the error, naming the signature concerned.
    pub fn message(&self) -> (r: String)
        ensures
            r@ == error_message(self@),
    {
        let mut s = String::new();
        match self {
            GenerateError::UnsupportedInput { signature, position } => {
                s.append("error expanding function '");
                s.append(signature.as_str());
                s.append("': input ");
                push_decimal(&mut s, *position);
                s.append(" has an unsupported type");
            },
            GenerateError::UnsupportedOutput { signature, position } => {
                s.append("error expanding function '");
                s.append(signature.as_str());
                s.append("': output ");
                push_decimal(&mut s, *position);
                s.append(" has an unsupported type");
            },
            GenerateError::UnusedAlias { signature } => {
                s.append("a manual method alias for '");
                s.append(signature.as_str());
                s.append("' was specified but this method does not exist");
            },
        }
        assert(s@ =~= error_message(self@));
        s
    }
}

/// What a function resolves to before rendering.
pub struct MethodRecord {
    pub name: String,
    pub signature: String,
    pub selector: String,
    pub inputs: String,
    pub input_types: String,
    pub call_arg: String,
    pub outputs: String,
    pub doc: String,
    pub signature_doc: String,
    pub view_only: bool,
}

pub struct RecordModel {
    pub name: Seq<char>,
    pub signature: Seq<char>,
    pub selector: Seq<char>,
    pub inputs: Seq<char>,
    pub input_types: Seq<char>,
    pub call_arg: Seq<char>,
    pub outputs: Seq<char>,
    pub doc: Seq<char>,
    pub signature_doc: Seq<char>,
    pub view_only: bool,
}

impl View for MethodRecord {
    type V = RecordModel;

    open spec fn view(&self) -> RecordModel {
        RecordModel {
            name: self.name@,
            signature: self.signature@,
            selector: self.selector@,
            inputs: self.inputs@,
            input_types: self.input_types@,
            call_arg: self.call_arg@,
            outputs: self.outputs@,
            doc: self.doc@,
            signature_doc: self.signature_doc@,
            view_only: self.view_only,
        }
    }
}

/// Whether `l` is written between double quotes, as every string literal is.
pub open spec fn quoted(l: Seq<char>) -> bool {
    l.len() >= 2 && l[0] == '"' && l[l.len() - 1] == '"'
}

/// Relies on `proc_macro2::Literal::string` and its `Display`: the text of a
/// string literal that holds `s`. How the contents are escaped depends on
/// whether the code runs inside a procedural macro, so only the enclosing
/// quotes are stated.
#[verifier::external_body]
fn string_literal(s: &str) -> (r: String)
    ensures
        quoted(r@),
{
    proc_macro2::Literal::string(s).to_string()
}

/// The name that the first alias for `sig` gives, if any.
pub open spec fn alias_for(aliases: Seq<AliasModel>, sig: Seq<char>) -> Option<Seq<char>>
    decreases aliases.len(),
{
    if aliases.len() == 0 {
        None
    } else if aliases[0].signature == sig {
        Some(aliases[0].name)
    } else {
        alias_for(aliases.drop_first(), sig)
    }
}

/// The details of the first documentation entry for `sig`, if it has any.
pub open spec fn doc_for(entries: Seq<DocModel>, sig: Seq<char>) -> Option<Seq<char>>
    decreases entries.len(),
{
    if entries.len() == 0 {
        None
    } else if entries[0].signature == sig {
        entries[0].details
    } else {
        doc_for(entries.drop_first(), sig)
    }
}

pub open spec fn placeholder_doc() -> Seq<char> {
    "Generated by `ethcontract`"@
}

/// The documentation of a method: the developer's details, else the user's,
/// else a generic line.
pub open spec fn doc_text(cx: ContextModel, sig: Seq<char>) -> Seq<char> {
    match doc_for(cx.devdoc, sig) {
        Some(d) => d,
        None => match doc_for(cx.userdoc, sig) {
            Some(d) => d,
            None => placeholder_doc(),
        },
    }
}

/// The identifier of a function's method: its alias where one is given and
/// no earlier function has used it up (`alias_used`), else its name in snake
/// case.
pub open spec fn method_ident(aliases: Seq<AliasModel>, f: FunctionModel, alias_used: bool) -> Seq<
    char,
> {
    match alias_for(aliases, abi_signature(f)) {
        Some(n) => if alias_used {
            method_name(f.name)
        } else {
            n
        },
        None => method_name(f.name),
    }
}

pub open spec fn signature_doc_text(f: FunctionModel) -> Seq<char> {
    "Returns signature for method `"@ + full_signature(f) + "`."@
}

pub open spec fn is_view_only(m: StateMutability) -> bool {
    m == StateMutability::Pure || m == StateMutability::View
}

/// What one function resolves to, or the first of its parameters whose type
/// does not map; `alias_used` says whether an earlier function with the same
/// signature has already taken the alias for it.
pub open spec fn resolve(cx: ContextModel, f: FunctionModel, alias_used: bool) -> Result<
    RecordModel,
    ErrorModel,
> {
    let sig = abi_signature(f);
    match unmapped_param(f.inputs) {
        Some(j) => Err(ErrorModel::UnsupportedInput { signature: sig, position: j }),
        None => match unmapped_param(f.outputs) {
            Some(j) => Err(ErrorModel::UnsupportedOutput { signature: sig, position: j }),
            None => Ok(
                RecordModel {
                    name: method_ident(cx.method_aliases, f, alias_used),
                    signature: sig,
                    selector: selector_text(keccak_selector(sig)),
                    inputs: inputs_text(f.inputs),
                    input_types: input_types_text(f.inputs),
                    call_arg: call_arg_text(f.inputs),
                    outputs: outputs_text(f.outputs),
                    doc: doc_text(cx, sig),
                    signature_doc: signature_doc_text(f),
                    view_only: is_view_only(f.state_mutability),
                },
            ),
        },
    }
}

/// The records of the first `n` functions, or the error of the first that
/// fails.
pub open spec fn resolve_prefix(cx: ContextModel, n: nat) -> Result<Seq<RecordModel>, ErrorModel>
    decreases n,
{
    if n == 0 {
        Ok(Seq::empty())
    } else {
        match resolve_prefix(cx, (n - 1) as nat) {
            Err(e) => Err(e),
            Ok(rs) => match resolve(
                cx,
                cx.abi.functions[n - 1],
                record_signatures(rs).contains(abi_signature(cx.abi.functions[n - 1])),
            ) {
                Err(e) => Err(e),
                Ok(r) => Ok(rs.push(r)),
            },
        }
    }
}

pub open spec fn resolve_all(cx: ContextModel) -> Result<Seq<RecordModel>, ErrorModel> {
    resolve_prefix(cx, cx.abi.functions.len())
}

/// The signature of the first alias that names none of `sigs`, if any.
pub open spec fn first_unused(aliases: Seq<AliasModel>, sigs: Seq<Seq<char>>) -> Option<Seq<char>>
    decreases aliases.len(),
{
    if aliases.len() == 0 {
        None
    } else if !sigs.contains(aliases[0].signature) {
        Some(aliases[0].signature)
    } else {
        first_unused(aliases.drop_first(), sigs)
    }
}

pub open spec fn record_signatures(rs: Seq<RecordModel>) -> Seq<Seq<char>> {
    rs.map_values(|r: RecordModel| r.signature)
}

/// The method on the methods container for one record, documented by the
/// string literal `doc`.
pub open spec fn method_text(r: RecordModel, doc: Seq<char>) -> Seq<char> {
    let (call, builder) = if r.view_only {
        ("view_method"@, "DynViewMethodBuilder"@)
    } else {
        ("method"@, "DynMethodBuilder"@)
    };
    "#[doc = "@ + doc + "]\npub fn "@ + r.name + "(&self"@ + r.inputs
        + ") -> self::ethcontract::dyns::"@ + builder + "<"@ + r.outputs
        + "> {\n    self.instance."@ + call + "("@ + r.selector + ", "@ + r.call_arg
        + ")\n        .expect(\"generated call\")\n}\n"@
}

/// The signature accessor on the signatures container for one record,
/// documented by the string literal `doc`.
pub open spec fn accessor_text(r: RecordModel, doc: Seq<char>) -> Seq<char> {
    "#[doc = "@ + doc
        + "]\n#[allow(clippy::type_complexity)]\npub fn "@ + r.name
        + "(&self) -> self::ethcontract::contract::Signature<"@ + r.input_types + ", "@
        + r.outputs + "> {\n    self::ethcontract::contract::Signature::new("@ + r.selector
        + ")\n}\n"@
}

/// The methods for the first `n` records, each with its doc literal.
pub open spec fn methods_text(rs: Seq<RecordModel>, docs: Seq<Seq<char>>, n: nat) -> Seq<char>
    decreases n,
{
    if n == 0 {
        Seq::empty()
    } else {
        methods_text(rs, docs, (n - 1) as nat) + method_text(rs[n - 1], docs[n - 1])
    }
}

/// The signature accessors for the first `n` records, each with its doc
/// literal.
pub open spec fn accessors_text(rs: Seq<RecordModel>, docs: Seq<Seq<char>>, n: nat) -> Seq<char>
    decreases n,
{
    if n == 0 {
        Seq::empty()
    } else {
        accessors_text(rs, docs, (n - 1) as nat) + accessor_text(rs[n - 1], docs[n - 1])
    }
}

/// Whether `docs` and `sig_docs` hold one string literal for each record.
pub open spec fn literals_fit(rs: Seq<RecordModel>, docs: Seq<Seq<char>>, sig_docs: Seq<Seq<char>>) -> bool {
    &&& docs.len() == rs.len()
    &&& sig_docs.len() == rs.len()
    &&& forall|i: int| 0 <= i < rs.len() ==> quoted(#[trigger] docs[i]) && quoted(sig_docs[i])
}

pub open spec fn signatures_attrs() -> Seq<char> {
    "#[derive(Clone, Copy)]\n"@
}

pub open spec fn signatures_struct() -> Seq<char> {
    "struct Signatures;\n"@
}

pub open spec fn methods_attrs() -> Seq<char> {
    "#[derive(Clone)]\n"@
}

pub open spec fn methods_struct() -> Seq<char> {
    "struct Methods {\n    instance: self::ethcontract::dyns::DynInstance,\n}\n"@
}

/// The two containers alone, as emitted for a contract without functions.
pub open spec fn bare_containers() -> Seq<char> {
    methods_attrs() + methods_struct() + signatures_attrs() + signatures_struct()
}

pub open spec fn contract_glue() -> Seq<char> {
    "impl Contract {\n    /// Returns an object that allows accessing typed method signatures.\n    pub fn signatures() -> Signatures {\n        Signatures\n    }\n\n    /// Retrieves a reference to type containing all the generated\n    /// contract methods. This can be used for methods where the name\n    /// would collide with a common method (like `at` or `deployed`).\n    pub fn methods(&self) -> &Methods {\n        &self.methods\n    }\n}\n"@
}

pub open spec fn deref_glue() -> Seq<char> {
    "impl std::ops::Deref for Contract {\n    type Target = Methods;\n    fn deref(&self) -> &Self::Target {\n        &self.methods\n    }\n}\n"@
}

/// The containers with their methods and accessors, and the glue that makes
/// them reachable from the contract type.
pub open spec fn containers_text(rs: Seq<RecordModel>, docs: Seq<Seq<char>>, sig_docs: Seq<Seq<char>>) -> Seq<char> {
    contract_glue() + "/// Type containing signatures for all methods for generated contract type.\n"@
        + signatures_attrs() + "pub "@ + signatures_struct() + "impl Signatures {\n"@
        + accessors_text(rs, sig_docs, rs.len()) + "}\n"@
        + "/// Type containing all contract methods for generated contract type.\n"@
        + methods_attrs() + "pub "@ + methods_struct()
        + "#[allow(clippy::too_many_arguments, clippy::type_complexity)]\nimpl Methods {\n"@
        + methods_text(rs, docs, rs.len()) + "}\n"@ + deref_glue()
}

/// The text for resolved records: the bare containers where there are none.
pub open spec fn rendered(rs: Seq<RecordModel>, docs: Seq<Seq<char>>, sig_docs: Seq<Seq<char>>) -> Seq<char> {
    if rs.len() == 0 {
        bare_containers()
    } else {
        containers_text(rs, docs, sig_docs)
    }
}

/// The records that generation renders, in ABI order, or why it fails: the
/// first function that fails, else the first alias that names no function.
pub open spec fn method_plan(cx: ContextModel) -> Result<Seq<RecordModel>, ErrorModel> {
    match resolve_all(cx) {
        Err(e) => Err(e),
        Ok(rs) => match first_unused(cx.method_aliases, record_signatures(rs)) {
            Some(sig) => Err(ErrorModel::UnusedAlias { signature: sig }),
            None => Ok(rs),
        },
    }
}

pub open spec fn fallback_method() -> Seq<char> {
    "impl Contract {\n    /// Returns a method builder to setup a call to a smart\n    /// contract's fallback function.\n    pub fn fallback<D>(&self, data: D) -> self::ethcontract::dyns::DynMethodBuilder<()>\n    where\n        D: Into<Vec<u8>>,\n    {\n        self.raw_instance().fallback(data)\n            .expect(\"generated fallback method\")\n    }\n}\n"@
}

/// The fallback accessor where the contract declares a fallback or receive
/// function, and nothing otherwise.
pub open spec fn fallback_text(abi: AbiModel) -> Seq<char> {
    if abi.fallback || abi.receive {
        fallback_method()
    } else {
        Seq::empty()
    }
}

/// What a run of generation returns, for the plan of `cx`: the error, or
/// the rendered records (with some string literal for each doc) followed by
/// `tail`.
pub open spec fn outcome_fits(
    r: Result<String, GenerateError>,
    cx: ContextModel,
    tail: Seq<char>,
) -> bool {
    match method_plan(cx) {
        Err(e) => r matches Err(err) && err@ == e,
        Ok(rs) => r matches Ok(t) && exists|docs: Seq<Seq<char>>, sig_docs: Seq<Seq<char>>|
            literals_fit(rs, docs, sig_docs) && t@ == rendered(rs, docs, sig_docs) + tail,
    }
}

/// The name that the first alias for `sig` gives, if any.
fn find_alias(aliases: &Vec<MethodAlias>, sig: &String) -> (r: Option<String>)
    ensures
        r matches Some(n) ==> alias_for(aliases@.map_values(|a: MethodAlias| a@), sig@) == Some(n@),
        r is None ==> alias_for(aliases@.map_values(|a: MethodAlias| a@), sig@) is None,
{
    let ghost av = aliases@.map_values(|a: MethodAlias| a@);
    let mut i: usize = 0;
    assert(av.subrange(0, av.len() as int) =~= av);
    while i < aliases.len()
        invariant
            i <= aliases@.len(),
            av == aliases@.map_values(|a: MethodAlias| a@),
            alias_for(av, sig@) == alias_for(av.subrange(i as int, av.len() as int), sig@),
        decreases aliases@.len() - i,
    {
        assert(av.subrange(i as int, av.len() as int).drop_first() =~= av.subrange(
            i + 1,
            av.len() as int,
        ));
        if aliases[i].signature == *sig {
            return Some(aliases[i].name.clone());
        }
        i += 1;
    }
    None
}

/// The details of the first documentation entry for `sig`, if it has any.
fn find_doc(entries: &Vec<DocEntry>, sig: &String) -> (r: Option<String>)
    ensures
        r matches Some(d) ==> doc_for(entries@.map_values(|e: DocEntry| e@), sig@) == Some(d@),
        r is None ==> doc_for(entries@.map_values(|e: DocEntry| e@), sig@) is None,
{
    let ghost ev = entries@.map_values(|e: DocEntry| e@);
    let mut i: usize = 0;
    assert(ev.subrange(0, ev.len() as int) =~= ev);
    while i < entries.len()
        invariant
            i <= entries@.len(),
            ev == entries@.map_values(|e: DocEntry| e@),
            doc_for(ev, sig@) == doc_for(ev.subrange(i as int, ev.len() as int), sig@),
        decreases entries@.len() - i,
    {
        assert(ev.subrange(i as int, ev.len() as int).drop_first() =~= ev.subrange(
            i + 1,
            ev.len() as int,
        ));
        if entries[i].signature == *sig {
            return match &entries[i].details {
                Some(d) => Some(d.clone()),
                None => None,
            };
        }
        i += 1;
    }
    None
}

/// The documentation of the method for `sig`: the developer's details, else
/// the user's, else a generic line.
pub fn expand_doc_text(cx: &Context, sig: &String) -> (r: String)
    ensures
        r@ == doc_text(cx@, sig@),
{
    match find_doc(&cx.devdoc, sig) {
        Some(d) => d,
        None => match find_doc(&cx.userdoc, sig) {
            Some(d) => d,
            None => String::from_str("Generated by `ethcontract`"),
        },
    }
}

/// Resolves one function into its record, or fails on the first of its
/// inputs, then outputs, whose type does not map.
pub fn resolve_function(cx: &Context, f: &Function, alias_used: bool) -> (r: Result<
    MethodRecord,
    GenerateError,
>)
    ensures
        match resolve(cx@, f@, alias_used) {
            Ok(m) => r matches Ok(rec) && rec@ == m,
            Err(e) => r matches Err(err) && err@ == e,
        },
{
    let sig = signature(f);
    let inputs = match expand_inputs(&f.inputs) {
        Ok(s) => s,
        Err(j) => {
            return Err(GenerateError::UnsupportedInput { signature: sig, position: j });
        },
    };
    let input_types = match expand_input_types(&f.inputs) {
        Ok(s) => s,
        Err(j) => {
            return Err(GenerateError::UnsupportedInput { signature: sig, position: j });
        },
    };
    let outputs = match expand_outputs(&f.outputs) {
        Ok(s) => s,
        Err(j) => {
            return Err(GenerateError::UnsupportedOutput { signature: sig, position: j });
        },
    };
    let name = match find_alias(&cx.method_aliases, &sig) {
        Some(n) => if alias_used {
            expand_method_name(f.name.as_str())
        } else {
            n
        },
        None => expand_method_name(f.name.as_str()),
    };
    let selector = expand_selector(function_selector(f));
    let call_arg = expand_inputs_call_arg(&f.inputs);
    let doc = expand_doc_text(cx, &sig);
    let mut signature_doc = String::from_str("Returns signature for method `");
    signature_doc.append(expand_full_signature(f).as_str());
    signature_doc.append("`.");
    let view_only = match f.state_mutability {
        StateMutability::Pure | StateMutability::View => true,
        _ => false,
    };
    Ok(
        MethodRecord {
            name,
            signature: sig,
            selector,
            inputs,
            input_types,
            call_arg,
            outputs,
            doc,
            signature_doc,
            view_only,
        },
    )
}

pub open spec fn records_view(rs: Seq<MethodRecord>) -> Seq<RecordModel> {
    rs.map_values(|r: MethodRecord| r@)
}

/// Resolves every function in order, stopping at the first that fails.
pub fn resolve_functions(cx: &Context) -> (r: Result<Vec<MethodRecord>, GenerateError>)
    ensures
        match resolve_all(cx@) {
            Ok(ms) => r matches Ok(recs) && records_view(recs@) == ms,
            Err(e) => r matches Err(err) && err@ == e,
        },
{
    let fs = &cx.abi.functions;
    let mut recs: Vec<MethodRecord> = Vec::new();
    let mut i: usize = 0;
    while i < fs.len()
        invariant
            fs == &cx.abi.functions,
            i <= fs@.len(),
            resolve_prefix(cx@, i as nat) matches Ok(ms) && records_view(recs@) == ms,
        decreases fs@.len() - i,
    {
        assert(cx@.abi.functions[i as int] == fs@[i as int]@);
        let sig = signature(&fs[i]);
        let alias_used = has_signature(&recs, &sig);
        match resolve_function(cx, &fs[i], alias_used) {
            Ok(rec) => {
                recs.push(rec);
            },
            Err(e) => {
                proof {
                    lemma_resolve_failure_persists(cx@, (i + 1) as nat, cx@.abi.functions.len());
                }
                return Err(e);
            },
        }
        i += 1;
        assert(records_view(recs@) =~= resolve_prefix(cx@, i as nat)->Ok_0);
    }
    Ok(recs)
}

proof fn lemma_resolve_failure_persists(cx: ContextModel, k: nat, n: nat)
    requires
        k <= n,
        resolve_prefix(cx, k) is Err,
    ensures
        resolve_prefix(cx, n) == resolve_prefix(cx, k),
    decreases n - k,
{
    if k < n {
        lemma_resolve_failure_persists(cx, k, (n - 1) as nat);
    }
}

/// Whether some record has the signature `sig`.
fn has_signature(recs: &Vec<MethodRecord>, sig: &String) -> (r: bool)
    ensures
        r == record_signatures(records_view(recs@)).contains(sig@),
{
    let ghost sigs = record_signatures(records_view(recs@));
    let mut i: usize = 0;
    while i < recs.len()
        invariant
            i <= recs@.len(),
            sigs == record_signatures(records_view(recs@)),
            forall|j: int| 0 <= j < i ==> sigs[j] != sig@,
        decreases recs@.len() - i,
    {
        if recs[i].signature == *sig {
            assert(sigs[i as int] == sig@);
            return true;
        }
        i += 1;
    }
    false
}

/// The signature of the first alias that names no resolved function, if any.
fn find_unused_alias(aliases: &Vec<MethodAlias>, recs: &Vec<MethodRecord>) -> (r: Option<String>)
    ensures
        r matches Some(s) ==> first_unused(
            aliases@.map_values(|a: MethodAlias| a@),
            record_signatures(records_view(recs@)),
        ) == Some(s@),
        r is None ==> first_unused(
            aliases@.map_values(|a: MethodAlias| a@),
            record_signatures(records_view(recs@)),
        ) is None,
{
    let ghost av = aliases@.map_values(|a: MethodAlias| a@);
    let ghost sigs = record_signatures(records_view(recs@));
    let mut i: usize = 0;
    assert(av.subrange(0, av.len() as int) =~= av);
    while i < aliases.len()
        invariant
            i <= aliases@.len(),
            av == aliases@.map_values(|a: MethodAlias| a@),
            sigs == record_signatures(records_view(recs@)),
            first_unused(av, sigs) == first_unused(av.subrange(i as int, av.len() as int), sigs),
        decreases aliases@.len() - i,
    {
        assert(av.subrange(i as int, av.len() as int).drop_first() =~= av.subrange(
            i + 1,
            av.len() as int,
        ));
        if !has_signature(recs, &aliases[i].signature) {
            return Some(aliases[i].signature.clone());
        }
        i += 1;
    }
    None
}

/// Appends the method on the methods container for one record, documented
/// by the string literal `doc`.
fn push_method(s: &mut String, r: &MethodRecord, doc: &String)
    ensures
        final(s)@ == old(s)@ + method_text(r@, doc@),
{
    let (call, builder) = if r.view_only {
        ("view_method", "DynViewMethodBuilder")
    } else {
        ("method", "DynMethodBuilder")
    };
    s.append("#[doc = ");
    s.append(doc.as_str());
    s.append("]\npub fn ");
    s.append(r.name.as_str());
    s.append("(&self");
    s.append(r.inputs.as_str());
    s.append(") -> self::ethcontract::dyns::");
    s.append(builder);
    s.append("<");
    s.append(r.outputs.as_str());
    s.append("> {\n    self.instance.");
    s.append(call);
    s.append("(");
    s.append(r.selector.as_str());
    s.append(", ");
    s.append(r.call_arg.as_str());
    s.append(")\n        .expect(\"generated call\")\n}\n");
    assert(final(s)@ =~= old(s)@ + method_text(r@, doc@));
}

/// Appends the signature accessor on the signatures container for one
/// record, documented by the string literal `doc`.
fn push_accessor(s: &mut String, r: &MethodRecord, doc: &String)
    ensures
        final(s)@ == old(s)@ + accessor_text(r@, doc@),
{
    s.append("#[doc = ");
    s.append(doc.as_str());
    s.append("]\n#[allow(clippy::type_complexity)]\npub fn ");
    s.append(r.name.as_str());
    s.append("(&self) -> self::ethcontract::contract::Signature<");
    s.append(r.input_types.as_str());
    s.append(", ");
    s.append(r.outputs.as_str());
    s.append("> {\n    self::ethcontract::contract::Signature::new(");
    s.append(r.selector.as_str());
    s.append(")\n}\n");
    assert(final(s)@ =~= old(s)@ + accessor_text(r@, doc@));
}

pub open spec fn strings_view(v: Seq<String>) -> Seq<Seq<char>> {
    v.map_values(|x: String| x@)
}

/// Appends the methods for all records, in order, each with its doc literal.
fn push_methods(s: &mut String, recs: &Vec<MethodRecord>, docs: &Vec<String>)
    requires
        docs@.len() == recs@.len(),
    ensures
        final(s)@ == old(s)@ + methods_text(records_view(recs@), strings_view(docs@), recs@.len()),
{
    let ghost start = s@;
    let ghost rv = records_view(recs@);
    let ghost dv = strings_view(docs@);
    let mut i: usize = 0;
    while i < recs.len()
        invariant
            i <= recs@.len(),
            docs@.len() == recs@.len(),
            rv == records_view(recs@),
            dv == strings_view(docs@),
            s@ == start + methods_text(rv, dv, i as nat),
        decreases recs@.len() - i,
    {
        push_method(s, &recs[i], &docs[i]);
        i += 1;
        assert(s@ =~= start + methods_text(rv, dv, i as nat));
    }
}

/// Appends the signature accessors for all records, in order, each with its
/// doc literal.
fn push_accessors(s: &mut String, recs: &Vec<MethodRecord>, docs: &Vec<String>)
    requires
        docs@.len() == recs@.len(),
    ensures
        final(s)@ == old(s)@ + accessors_text(records_view(recs@), strings_view(docs@), recs@.len()),
{
    let ghost start = s@;
    let ghost rv = records_view(recs@);
    let ghost dv = strings_view(docs@);
    let mut i: usize = 0;
    while i < recs.len()
        invariant
            i <= recs@.len(),
            docs@.len() == recs@.len(),
            rv == records_view(recs@),
            dv == strings_view(docs@),
            s@ == start + accessors_text(rv, dv, i as nat),
        decreases recs@.len() - i,
    {
        push_accessor(s, &recs[i], &docs[i]);
        i += 1;
        assert(s@ =~= start + accessors_text(rv, dv, i as nat));
    }
}

/// Renders the containers for resolved records, each method documented by
/// its literal in `docs` and each accessor by its literal in `sig_docs`.
pub fn render_containers(recs: &Vec<MethodRecord>, docs: &Vec<String>, sig_docs: &Vec<String>) -> (r: String)
    requires
        docs@.len() == recs@.len(),
        sig_docs@.len() == recs@.len(),
    ensures
        r@ == rendered(records_view(recs@), strings_view(docs@), strings_view(sig_docs@)),
{
    if recs.len() == 0 {
        let mut s = String::from_str("#[derive(Clone)]\n");
        s.append("struct Methods {\n    instance: self::ethcontract::dyns::DynInstance,\n}\n");
        s.append("#[derive(Clone, Copy)]\n");
        s.append("struct Signatures;\n");
        assert(s@ =~= bare_containers());
        return s;
    }
    let mut s = String::from_str(
        "impl Contract {\n    /// Returns an object that allows accessing typed method signatures.\n    pub fn signatures() -> Signatures {\n        Signatures\n    }\n\n    /// Retrieves a reference to type containing all the generated\n    /// contract methods. This can be used for methods where the name\n    /// would collide with a common method (like `at` or `deployed`).\n    pub fn methods(&self) -> &Methods {\n        &self.methods\n    }\n}\n",
    );
    s.append("/// Type containing signatures for all methods for generated contract type.\n");
    s.append("#[derive(Clone, Copy)]\n");
    s.append("pub ");
    s.append("struct Signatures;\n");
    s.append("impl Signatures {\n");
    push_accessors(&mut s, recs, sig_docs);
    s.append("}\n");
    s.append("/// Type containing all contract methods for generated contract type.\n");
    s.append("#[derive(Clone)]\n");
    s.append("pub ");
    s.append("struct Methods {\n    instance: self::ethcontract::dyns::DynInstance,\n}\n");
    s.append("#[allow(clippy::too_many_arguments, clippy::type_complexity)]\nimpl Methods {\n");
    push_methods(&mut s, recs, docs);
    s.append("}\n");
    s.append(
        "impl std::ops::Deref for Contract {\n    type Target = Methods;\n    fn deref(&self) -> &Self::Target {\n        &self.methods\n    }\n}\n",
    );
    assert(s@ =~= containers_text(records_view(recs@), strings_view(docs@), strings_view(sig_docs@)));
    s
}

/// The string literals for the records' documentation and signature
/// documentation.
fn doc_literals(recs: &Vec<MethodRecord>) -> (r: (Vec<String>, Vec<String>))
    ensures
        literals_fit(records_view(recs@), strings_view(r.0@), strings_view(r.1@)),
{
    let mut docs: Vec<String> = Vec::new();
    let mut sig_docs: Vec<String> = Vec::new();
    let mut i: usize = 0;
    while i < recs.len()
        invariant
            i <= recs@.len(),
            docs@.len() == i,
            sig_docs@.len() == i,
            forall|k: int| 0 <= k < i ==> quoted(#[trigger] docs@[k]@) && quoted(sig_docs@[k]@),
        decreases recs@.len() - i,
    {
        docs.push(string_literal(recs[i].doc.as_str()));
        sig_docs.push(string_literal(recs[i].signature_doc.as_str()));
        i += 1;
    }
    (docs, sig_docs)
}

/// Generates the methods and signatures containers for all functions, or
/// fails on the first function whose types do not map, else on the first
/// alias that names no function.
pub fn expand_functions(cx: &Context) -> (r: Result<String, GenerateError>)
    ensures
        outcome_fits(r, cx@, Seq::empty()),
{
    let recs = match resolve_functions(cx) {
        Ok(recs) => recs,
        Err(e) => {
            return Err(e);
        },
    };
    if let Some(unused) = find_unused_alias(&cx.method_aliases, &recs) {
        return Err(GenerateError::UnusedAlias { signature: unused });
    }
    let (docs, sig_docs) = doc_literals(&recs);
    let text = render_containers(&recs, &docs, &sig_docs);
    let ghost rs = records_view(recs@);
    assert(text@ =~= rendered(rs, strings_view(docs@), strings_view(sig_docs@)) + Seq::empty());
    Ok(text)
}

/// The fallback accessor where the contract declares a fallback or receive
/// function, and nothing otherwise.
pub fn expand_fallback(abi: &crate::abi::Abi) -> (r: String)
    ensures
        r@ == fallback_text(abi@),
{
    if abi.fallback || abi.receive {
        String::from_str(
            "impl Contract {\n    /// Returns a method builder to setup a call to a smart\n    /// contract's fallback function.\n    pub fn fallback<D>(&self, data: D) -> self::ethcontract::dyns::DynMethodBuilder<()>\n    where\n        D: Into<Vec<u8>>,\n    {\n        self.raw_instance().fallback(data)\n            .expect(\"generated fallback method\")\n    }\n}\n",
        )
    } else {
        String::new()
    }
}

/// Generates all method bindings of a contract: the containers, then the
/// fallback accessor where there is one.
pub fn expand(cx: &Context) -> (r: Result<String, GenerateError>)
    ensures
        outcome_fits(r, cx@, fallback_text(cx@.abi)),
{
    let mut functions = match expand_functions(cx) {
        Ok(s) => s,
        Err(e) => {
            return Err(e);
        },
    };
    let ghost before = functions@;
    let fallback = expand_fallback(&cx.abi);
    functions.append(fallback.as_str());
    proof {
        let rs = method_plan(cx@)->Ok_0;
        let (docs, sig_docs) = choose|docs: Seq<Seq<char>>, sig_docs: Seq<Seq<char>>|
            literals_fit(rs, docs, sig_docs) && before == rendered(rs, docs, sig_docs) + Seq::<char>::empty();
        assert(functions@ =~= rendered(rs, docs, sig_docs) + fallback_text(cx@.abi));
    }
    Ok(functions)
}

proof fn lemma_record_signatures(cx: ContextModel, n: nat)
    requires
        n <= cx.abi.functions.len(),
        resolve_prefix(cx, n) is Ok,
    ensures
        resolve_prefix(cx, n)->Ok_0.len() == n,
        forall|j: int|
            0 <= j < n ==> #[trigger] record_signatures(resolve_prefix(cx, n)->Ok_0)[j]
                == abi_signature(cx.abi.functions[j]),
    decreases n,
{
    if n > 0 {
        lemma_record_signatures(cx, (n - 1) as nat);
        let prev = resolve_prefix(cx, (n - 1) as nat)->Ok_0;
        let f = cx.abi.functions[n - 1];
        let used = record_signatures(prev).contains(abi_signature(f));
        let all = prev.push(resolve(cx, f, used)->Ok_0);
        assert(resolve(cx, f, used)->Ok_0.signature == abi_signature(f));
        assert forall|j: int| 0 <= j < n implies #[trigger] record_signatures(all)[j]
            == abi_signature(cx.abi.functions[j]) by {
            if j < n - 1 {
                assert(all[j] == prev[j]);
                assert(record_signatures(prev)[j] == abi_signature(cx.abi.functions[j]));
            }
        }
    }
}

proof fn lemma_prefix_stable(cx: ContextModel, m: nat, n: nat)
    requires
        m <= n,
        resolve_prefix(cx, n) is Ok,
    ensures
        resolve_prefix(cx, m) is Ok,
        resolve_prefix(cx, n)->Ok_0.len() == n,
        resolve_prefix(cx, m)->Ok_0 =~= resolve_prefix(cx, n)->Ok_0.subrange(0, m as int),
    decreases n,
{
    if n > 0 {
        assert(resolve_prefix(cx, (n - 1) as nat) is Ok);
        let mm = if m < n { m } else { (n - 1) as nat };
        lemma_prefix_stable(cx, mm, (n - 1) as nat);
    }
}

/// Each alias is used up by the first function with its signature: that
/// function's method takes the alias's name, and any later function with the
/// same signature gets its own snake-case name.
pub proof fn lemma_alias_used_once(cx: ContextModel, k: int)
    requires
        0 <= k < cx.abi.functions.len(),
        resolve_all(cx) is Ok,
        alias_for(cx.method_aliases, abi_signature(cx.abi.functions[k])) is Some,
    ensures
        resolve_all(cx)->Ok_0[k].name == if exists|j: int|
            0 <= j < k && #[trigger] abi_signature(cx.abi.functions[j]) == abi_signature(
                cx.abi.functions[k],
            ) {
            method_name(cx.abi.functions[k].name)
        } else {
            alias_for(cx.method_aliases, abi_signature(cx.abi.functions[k]))->Some_0
        },
{
    let n = cx.abi.functions.len();
    let f = cx.abi.functions[k];
    lemma_prefix_stable(cx, (k + 1) as nat, n);
    lemma_prefix_stable(cx, k as nat, (k + 1) as nat);
    lemma_record_signatures(cx, k as nat);
    let prev = resolve_prefix(cx, k as nat)->Ok_0;
    let used = record_signatures(prev).contains(abi_signature(f));
    assert(resolve_prefix(cx, (k + 1) as nat)->Ok_0[k] == resolve(cx, f, used)->Ok_0);
    assert(resolve_all(cx)->Ok_0[k] == resolve_prefix(cx, (k + 1) as nat)->Ok_0[k]);
    if exists|j: int| 0 <= j < k && #[trigger] abi_signature(cx.abi.functions[j]) == abi_signature(f) {
        let j = choose|j: int| 0 <= j < k && #[trigger] abi_signature(cx.abi.functions[j]) == abi_signature(f);
        assert(record_signatures(prev)[j] == abi_signature(f));
        assert(used);
    } else {
        if used {
            let j = choose|j: int| 0 <= j < record_signatures(prev).len() && record_signatures(prev)[j] == abi_signature(f);
            assert(abi_signature(cx.abi.functions[j]) == abi_signature(f));
        }
    }
}

proof fn lemma_first_unused_is_some(aliases: Seq<AliasModel>, sigs: Seq<Seq<char>>, k: int)
    requires
        0 <= k < aliases.len(),
        !sigs.contains(aliases[k].signature),
    ensures
        first_unused(aliases, sigs) is Some,
        (forall|m: int| 0 <= m < k ==> sigs.contains(#[trigger] aliases[m].signature))
            ==> first_unused(aliases, sigs) == Some(aliases[k].signature),
    decreases k,
{
    if k > 0 && sigs.contains(aliases[0].signature) {
        let rest = aliases.drop_first();
        assert(rest[k - 1] == aliases[k]);
        lemma_first_unused_is_some(rest, sigs, k - 1);
        if forall|m: int| 0 <= m < k ==> sigs.contains(#[trigger] aliases[m].signature) {
            assert forall|m: int| 0 <= m < k - 1 implies sigs.contains(
                #[trigger] rest[m].signature,
            ) by {
                assert(rest[m] == aliases[m + 1]);
            }
        }
    }
}

proof fn lemma_first_unused_is_unused(aliases: Seq<AliasModel>, sigs: Seq<Seq<char>>)
    requires
        first_unused(aliases, sigs) is Some,
    ensures
        !sigs.contains(first_unused(aliases, sigs)->Some_0),
        exists|m: int|
            0 <= m < aliases.len() && #[trigger] aliases[m].signature == first_unused(
                aliases,
                sigs,
            )->Some_0,
    decreases aliases.len(),
{
    if sigs.contains(aliases[0].signature) {
        let rest = aliases.drop_first();
        lemma_first_unused_is_unused(rest, sigs);
        let m = choose|m: int| 0 <= m < rest.len() && #[trigger] rest[m].signature == first_unused(rest, sigs)->Some_0;
        assert(aliases[m + 1] == rest[m]);
    } else {
        assert(aliases[0].signature == first_unused(aliases, sigs)->Some_0);
    }
}

/// An alias whose signature no function has makes generation fail. Where
/// every function resolves, the error names an alias signature that no
/// function has; where moreover every earlier alias names a function, it
/// names exactly that alias's signature.
pub proof fn lemma_dangling_alias_fails(cx: ContextModel, k: int)
    requires
        0 <= k < cx.method_aliases.len(),
        forall|j: int|
            0 <= j < cx.abi.functions.len() ==> #[trigger] abi_signature(cx.abi.functions[j])
                != cx.method_aliases[k].signature,
    ensures
        method_plan(cx) is Err,
        resolve_all(cx) is Ok ==> (method_plan(cx) matches Err(ErrorModel::UnusedAlias { signature })
            && (exists|m: int| 0 <= m < cx.method_aliases.len() && #[trigger] cx.method_aliases[m].signature == signature)
            && (forall|j: int| 0 <= j < cx.abi.functions.len() ==> #[trigger] abi_signature(cx.abi.functions[j]) != signature)),
        resolve_all(cx) is Ok && (forall|m: int|
            0 <= m < k ==> exists|j: int|
                0 <= j < cx.abi.functions.len() && #[trigger] cx.method_aliases[m].signature
                    == abi_signature(cx.abi.functions[j])) ==> method_plan(cx) == Err::<
            Seq<RecordModel>,
            ErrorModel,
        >(ErrorModel::UnusedAlias { signature: cx.method_aliases[k].signature }),
{
    if resolve_all(cx) is Ok {
        let n = cx.abi.functions.len();
        lemma_record_signatures(cx, n);
        let sigs = record_signatures(resolve_all(cx)->Ok_0);
        assert(!sigs.contains(cx.method_aliases[k].signature)) by {
            if sigs.contains(cx.method_aliases[k].signature) {
                let j = choose|j: int| 0 <= j < sigs.len() && sigs[j] == cx.method_aliases[k].signature;
                assert(abi_signature(cx.abi.functions[j]) == cx.method_aliases[k].signature);
            }
        }
        lemma_first_unused_is_some(cx.method_aliases, sigs, k);
        lemma_first_unused_is_unused(cx.method_aliases, sigs);
        let s = first_unused(cx.method_aliases, sigs)->Some_0;
        assert forall|j: int| 0 <= j < cx.abi.functions.len() implies #[trigger] abi_signature(
            cx.abi.functions[j],
        ) != s by {
            assert(sigs[j] == abi_signature(cx.abi.functions[j]));
        }
        if forall|m: int|
            0 <= m < k ==> exists|j: int|
                0 <= j < cx.abi.functions.len() && #[trigger] cx.method_aliases[m].signature
                    == abi_signature(cx.abi.functions[j]) {
            assert forall|m: int| 0 <= m < k implies sigs.contains(
                #[trigger] cx.method_aliases[m].signature,
            ) by {
                let j = choose|j: int|
                    0 <= j < cx.abi.functions.len() && #[trigger] cx.method_aliases[m].signature
                        == abi_signature(cx.abi.functions[j]);
                assert(sigs[j] == cx.method_aliases[m].signature);
            }
        }
    }
}

/// A contract without functions (and without aliases) still gets both
/// containers, and nothing else for its functions, whatever the literals.
pub proof fn lemma_no_functions(cx: ContextModel, docs: Seq<Seq<char>>, sig_docs: Seq<Seq<char>>)
    requires
        cx.abi.functions.len() == 0,
        cx.method_aliases.len() == 0,
    ensures
        method_plan(cx) == Ok::<Seq<RecordModel>, ErrorModel>(Seq::empty()),
        rendered(Seq::empty(), docs, sig_docs) == bare_containers(),
{
    assert(resolve_all(cx) == Ok::<Seq<RecordModel>, ErrorModel>(Seq::empty()));
}

/// A fallback or receive function adds the one fallback accessor; without
/// either, nothing is added.
pub proof fn lemma_fallback_emitted(abi: AbiModel)
    ensures
        abi.fallback || abi.receive ==> fallback_text(abi) == fallback_method(),
        !(abi.fallback || abi.receive) ==> fallback_text(abi) == Seq::<char>::empty(),
{
}

/// A function's method name, signature, selector and argument lists depend
/// on its name and inputs, not on its outputs or mutability; with equal
/// outputs as well, its signature accessor is the same text.
pub proof fn lemma_record_ignores_mutability(
    cx: ContextModel,
    f: FunctionModel,
    g: FunctionModel,
    alias_used: bool,
    doc: Seq<char>,
)
    requires
        f.name == g.name,
        f.inputs == g.inputs,
        resolve(cx, f, alias_used) is Ok,
        resolve(cx, g, alias_used) is Ok,
    ensures
        ({
            let a = resolve(cx, f, alias_used)->Ok_0;
            let b = resolve(cx, g, alias_used)->Ok_0;
            &&& a.name == b.name
            &&& a.signature == b.signature
            &&& a.selector == b.selector
            &&& a.inputs == b.inputs
            &&& a.input_types == b.input_types
            &&& a.call_arg == b.call_arg
            &&& a.doc == b.doc
            &&& f.outputs == g.outputs ==> accessor_text(a, doc) == accessor_text(b, doc)
        }),
{
}

/// Generation is a function of the contract, aliases and documentation:
/// equal inputs give the same records or the same error, and, for the same
/// string literals, the same text.
pub proof fn lemma_generation_deterministic(
    cx1: ContextModel,
    cx2: ContextModel,
    docs: Seq<Seq<char>>,
    sig_docs: Seq<Seq<char>>,
)
    requires
        cx1 == cx2,
    ensures
        method_plan(cx1) == method_plan(cx2),
        method_plan(cx1) matches Ok(rs) ==> rendered(rs, docs, sig_docs) == rendered(
            method_plan(cx2)->Ok_0,
            docs,
            sig_docs,
        ),
{
}

} // verus!
