use vstd::prelude::*;
use vstd::string::*;
use crate::environment::Environment;
use crate::error::Error;
use crate::function::{Signature, SignatureView};
use crate::handle::Handle;
use crate::utils::{c_str_equals, eq_cstr_str, first_match, lemma_first_match_is, lemma_first_match_none};

verus! {

/// A function that a module offers: its name as the engine holds it, a C
/// string in a byte buffer, and its types.
#[derive(Clone, Debug)]
pub struct Export {
    pub name: Vec<u8>,
    pub signature: Signature,
}

/// An `Export` as a mathematical value.
pub struct ExportView {
    pub name: Seq<u8>,
    pub signature: SignatureView,
}

impl View for Export {
    type V = ExportView;

    open spec fn view(&self) -> ExportView {
        ExportView { name: self.name@, signature: self.signature@ }
    }
}

/// A module that the engine has parsed and that no runtime holds yet.
///
/// Whoever owns the value owns the engine's module behind it, until a
/// runtime takes it over.
#[derive(Debug)]
pub struct ParsedModule {
    environment: Environment,
    raw: Handle,
    name: Vec<u8>,
    exports: Vec<Export>,
}

/// A module as a mathematical value.
pub struct ParsedModuleView {
    /// The identity of the environment under which the module was parsed.
    pub environment: usize,
    /// The address of the engine's module.
    pub raw: usize,
    /// The buffer that holds the module's name as a C string.
    pub name: Seq<u8>,
    /// The functions that the module offers, in the engine's order.
    pub exports: Seq<ExportView>,
}

impl ParsedModuleView {
    /// Whether the module is called `name`.
    pub open spec fn is_named(self, name: Seq<u8>) -> bool {
        c_str_equals(self.name, name)
    }

    /// For each export, whether it is called `name`.
    pub open spec fn exports_named(self, name: Seq<u8>) -> Seq<bool> {
        Seq::new(self.exports.len(), |i: int| c_str_equals(self.exports[i].name, name))
    }

    /// What a search for the function `name` with the types `signature`
    /// gives in this module: the position of the first export of that name
    /// where its types are the requested ones, `InvalidFunctionSignature`
    /// where they are not, and `FunctionNotFound` where no export has the
    /// name.
    pub open spec fn find_function(self, name: Seq<u8>, signature: SignatureView) -> Result<
        usize,
        Error,
    > {
        match first_match(self.exports_named(name)) {
            Some(i) => if self.exports[i].signature == signature {
                Ok(i as usize)
            } else {
                Err(Error::InvalidFunctionSignature)
            },
            None => Err(Error::FunctionNotFound),
        }
    }

    /// Whether this module settles a search for `name` with `signature`, by
    /// a function or by a mismatch of types.
    pub open spec fn decides(self, name: Seq<u8>, signature: SignatureView) -> bool {
        self.find_function(name, signature) != Err::<usize, Error>(Error::FunctionNotFound)
    }
}

impl View for ParsedModule {
    type V = ParsedModuleView;

    closed spec fn view(&self) -> ParsedModuleView {
        ParsedModuleView {
            environment: self.environment@,
            raw: self.raw@,
            name: self.name@,
            exports: Seq::new(self.exports@.len(), |i: int| self.exports@[i]@),
        }
    }
}

impl ParsedModule {
    /// Takes over the module that the engine parsed under `environment` and
    /// left at `raw`, with its name and the functions it offers.
    pub fn new(environment: &Environment, raw: Handle, name: Vec<u8>, exports: Vec<Export>) -> (module:
        ParsedModule)
        ensures
            module@.environment == environment@,
            module@.raw == raw@,
            module@.name == name@,
            module@.exports == Seq::new(exports@.len(), |i: int| exports@[i]@),
    {
        ParsedModule { environment: *environment, raw, name, exports }
    }

    /// The environment under which the module was parsed.
    pub fn environment(&self) -> (environment: &Environment)
        ensures
            environment@ == self@.environment,
    {
        &self.environment
    }

    /// The address of the engine's module, never null.
    pub fn as_ptr(&self) -> (raw: usize)
        ensures
            raw == self@.raw,
            raw != 0,
    {
        self.raw.addr()
    }

    /// The buffer that holds the module's name as a C string.
    pub fn name(&self) -> (name: &[u8])
        ensures
            name@ == self@.name,
    {
        self.name.as_slice()
    }

    /// Whether the module is called `name`.
    pub fn is_named(&self, name: &str) -> (named: bool)
        ensures
            named == self@.is_named(name.spec_bytes()),
    {
        eq_cstr_str(self.name.as_slice(), name)
    }

    /// Looks for the function `name` with the types `signature` among the
    /// exports and gives its position.
    ///
    /// The first export of that name decides: with other types than the
    /// requested ones the search fails, whatever follows it.
    pub fn find_function(&self, name: &str, signature: &Signature) -> (r: Result<usize, Error>)
        ensures
            r == self@.find_function(name.spec_bytes(), signature@),
    {
        let ghost flags = self@.exports_named(name.spec_bytes());
        let mut i: usize = 0;
        while i < self.exports.len()
            invariant
                i <= self.exports@.len(),
                flags == self@.exports_named(name.spec_bytes()),
                forall|j: int| 0 <= j < i ==> !flags[j],
            decreases self.exports@.len() - i,
        {
            let export = &self.exports[i];
            if eq_cstr_str(export.name.as_slice(), name) {
                proof {
                    lemma_first_match_is(flags, i as int);
                }
                return if export.signature.same_as(signature) {
                    Ok(i)
                } else {
                    Err(Error::InvalidFunctionSignature)
                };
            }
            i += 1;
        }
        proof {
            lemma_first_match_none(flags);
        }
        Err(Error::FunctionNotFound)
    }
}

/// A view of a module that a runtime holds.
#[derive(Clone, Copy, Debug, PartialEq, Eq, Structural)]
pub struct Module {
    /// The address of the engine's module, never null.
    pub raw: usize,
    /// The position of the module among those of its runtime, in the order
    /// in which they were loaded.
    pub index: usize,
}

/// A load that did not take place: why, and the module, handed back as it
/// came.
#[derive(Debug)]
pub struct LoadFailure {
    pub error: Error,
    pub module: ParsedModule,
}

} // verus!
