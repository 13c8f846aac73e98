use vstd::prelude::*;
use crate::module::Module;

verus! {

/// The type of one value that crosses the boundary of a function.
#[derive(Clone, Copy, Debug, PartialEq, Eq, Structural)]
pub enum ValueType {
    I32,
    I64,
    F32,
    F64,
}

/// The code with which the engine marks a function that gives nothing back.
pub const NO_VALUE: u8 = 0;

impl ValueType {
    /// The code by which the engine knows the type.
    pub open spec fn spec_code(self) -> u8 {
        match self {
            ValueType::I32 => 1,
            ValueType::I64 => 2,
            ValueType::F32 => 3,
            ValueType::F64 => 4,
        }
    }

    /// The code by which the engine knows the type.
    #[verifier::when_used_as_spec(spec_code)]
    pub fn code(self) -> (code: u8)
        ensures
            code == self.spec_code(),
    {
        match self {
            ValueType::I32 => 1,
            ValueType::I64 => 2,
            ValueType::F32 => 3,
            ValueType::F64 => 4,
        }
    }
}

/// The types of a function, in the codes of the engine: those of what it
/// takes, in order, and that of what it gives back.
#[derive(Clone, Debug)]
pub struct Signature {
    pub args: Vec<u8>,
    pub ret: u8,
}

/// A `Signature` as a mathematical value.
pub struct SignatureView {
    pub args: Seq<u8>,
    pub ret: u8,
}

impl SignatureView {
    /// The signature of a function that takes values of the types `args`
    /// and gives back one of the type `ret`, or nothing.
    pub open spec fn of(args: Seq<ValueType>, ret: Option<ValueType>) -> SignatureView {
        SignatureView {
            args: Seq::new(args.len(), |i: int| args[i].spec_code()),
            ret: match ret {
                Some(t) => t.spec_code(),
                None => NO_VALUE,
            },
        }
    }
}

impl View for Signature {
    type V = SignatureView;

    open spec fn view(&self) -> SignatureView {
        SignatureView { args: self.args@, ret: self.ret }
    }
}

impl Signature {
    /// The signature of a function that takes values of the types `args`
    /// and gives back one of the type `ret`, or nothing.
    pub fn new(args: &[ValueType], ret: Option<ValueType>) -> (signature: Signature)
        ensures
            signature@ == SignatureView::of(args@, ret),
    {
        let mut codes: Vec<u8> = Vec::new();
        let mut i: usize = 0;
        while i < args.len()
            invariant
                i <= args@.len(),
                codes@.len() == i,
                forall|j: int| 0 <= j < i ==> codes@[j] == args@[j].spec_code(),
            decreases args@.len() - i,
        {
            codes.push(args[i].code());
            i += 1;
        }
        let ret = match ret {
            Some(t) => t.code(),
            None => NO_VALUE,
        };
        proof {
            assert(codes@ =~= SignatureView::of(args@, None).args);
        }
        Signature { args: codes, ret }
    }

    /// Whether both signatures take and give the same types.
    pub fn same_as(&self, other: &Signature) -> (same: bool)
        ensures
            same == (self@ == other@),
    {
        if self.ret != other.ret || self.args.len() != other.args.len() {
            return false;
        }
        let mut i: usize = 0;
        while i < self.args.len()
            invariant
                i <= self.args@.len(),
                self.args@.len() == other.args@.len(),
                forall|j: int| 0 <= j < i ==> self.args@[j] == other.args@[j],
            decreases self.args@.len() - i,
        {
            if self.args[i] != other.args[i] {
                return false;
            }
            i += 1;
        }
        proof {
            assert(self.args@ =~= other.args@);
        }
        true
    }
}

/// A handle on a function that a loaded module exports.
#[derive(Clone, Copy, Debug, PartialEq, Eq, Structural)]
pub struct Function {
    /// The module that exports the function.
    pub module: Module,
    /// The position of the function among the exports of that module.
    pub index: usize,
}

} // verus!
