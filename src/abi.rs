//! The contract ABI as the generator reads it, with its mathematical model.
use vstd::prelude::*;

verus! {

/// An ABI parameter type.
pub enum ParamType {
    Address,
    Bytes,
    Int(usize),
    Uint(usize),
    Bool,
    String,
    Array(Box<ParamType>),
    FixedBytes(usize),
    FixedArray(Box<ParamType>, usize),
    Tuple(Vec<ParamType>),
}

/// A named function input or output.
pub struct Param {
    pub name: String,
    pub kind: ParamType,
}

pub struct ParamModel {
    pub name: Seq<char>,
    pub kind: ParamType,
}

impl View for Param {
    type V = ParamModel;

    open spec fn view(&self) -> ParamModel {
        ParamModel { name: self.name@, kind: self.kind }
    }
}

/// Whether a function reads or changes contract state.
#[derive(Clone, Copy, Debug, PartialEq, Eq, Structural)]
pub enum StateMutability {
    Pure,
    View,
    NonPayable,
    Payable,
}

/// One function of a contract ABI.
pub struct Function {
    pub name: String,
    pub inputs: Vec<Param>,
    pub outputs: Vec<Param>,
    pub state_mutability: StateMutability,
}

pub struct FunctionModel {
    pub name: Seq<char>,
    pub inputs: Seq<ParamModel>,
    pub outputs: Seq<ParamModel>,
    pub state_mutability: StateMutability,
}

pub open spec fn params_view(ps: Seq<Param>) -> Seq<ParamModel> {
    ps.map_values(|p: Param| p@)
}

impl View for Function {
    type V = FunctionModel;

    open spec fn view(&self) -> FunctionModel {
        FunctionModel {
            name: self.name@,
            inputs: params_view(self.inputs@),
            outputs: params_view(self.outputs@),
            state_mutability: self.state_mutability,
        }
    }
}

/// A contract ABI: its functions, and whether it declares a fallback or a
/// receive function.
pub struct Abi {
    pub functions: Vec<Function>,
    pub fallback: bool,
    pub receive: bool,
}

pub struct AbiModel {
    pub functions: Seq<FunctionModel>,
    pub fallback: bool,
    pub receive: bool,
}

impl View for Abi {
    type V = AbiModel;

    open spec fn view(&self) -> AbiModel {
        AbiModel {
            functions: self.functions@.map_values(|f: Function| f@),
            fallback: self.fallback,
            receive: self.receive,
        }
    }
}

/// A user-chosen method name for the function with the given signature.
pub struct MethodAlias {
    pub signature: String,
    pub name: String,
}

pub struct AliasModel {
    pub signature: Seq<char>,
    pub name: Seq<char>,
}

impl View for MethodAlias {
    type V = AliasModel;

    open spec fn view(&self) -> AliasModel {
        AliasModel { signature: self.signature@, name: self.name@ }
    }
}

/// A documentation entry for the function with the given signature.
pub struct DocEntry {
    pub signature: String,
    pub details: Option<String>,
}

pub struct DocModel {
    pub signature: Seq<char>,
    pub details: Option<Seq<char>>,
}

impl View for DocEntry {
    type V = DocModel;

    open spec fn view(&self) -> DocModel {
        DocModel {
            signature: self.signature@,
            details: match self.details {
                Some(d) => Some(d@),
                None => None,
            },
        }
    }
}

/// Everything generation reads: the ABI, the method aliases, and the
/// developer and user documentation.
pub struct Context {
    pub abi: Abi,
    pub method_aliases: Vec<MethodAlias>,
    pub devdoc: Vec<DocEntry>,
    pub userdoc: Vec<DocEntry>,
}

pub struct ContextModel {
    pub abi: AbiModel,
    pub method_aliases: Seq<AliasModel>,
    pub devdoc: Seq<DocModel>,
    pub userdoc: Seq<DocModel>,
}

impl View for Context {
    type V = ContextModel;

    open spec fn view(&self) -> ContextModel {
        ContextModel {
            abi: self.abi@,
            method_aliases: self.method_aliases@.map_values(|a: MethodAlias| a@),
            devdoc: self.devdoc@.map_values(|d: DocEntry| d@),
            userdoc: self.userdoc@.map_values(|d: DocEntry| d@),
        }
    }
}

} // verus!
