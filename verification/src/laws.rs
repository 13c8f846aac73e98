use vstd::prelude::*;
use crate::error::Error;
use crate::function::{Function, SignatureView, ValueType, NO_VALUE};
use crate::module::ParsedModuleView;
use crate::runtime::{memory_slice, RuntimeView};
use crate::utils::{c_str_equals, first_match, lemma_first_match, lemma_first_match_none};

verus! {

/// The runtime after each module of `batch` was handed to it in turn and the
/// engine accepted each.
pub open spec fn load_all<C>(rt: RuntimeView<C>, batch: Seq<ParsedModuleView>) -> RuntimeView<C>
    decreases batch.len(),
{
    if batch.len() == 0 {
        rt
    } else {
        load_all(rt.load(batch[0], 0), batch.drop_first())
    }
}

/// The runtime after each closure of `closures` was registered in turn.
pub open spec fn push_closures<C>(rt: RuntimeView<C>, closures: Seq<C>) -> RuntimeView<C>
    decreases closures.len(),
{
    if closures.len() == 0 {
        rt
    } else {
        push_closures(rt.push_closure(closures[0]), closures.drop_first())
    }
}

/// A buffer spells at most one text: a module or an export has one name.
pub proof fn law_c_string_spells_one_text(buffer: Seq<u8>, a: Seq<u8>, b: Seq<u8>)
    requires
        c_str_equals(buffer, a),
        c_str_equals(buffer, b),
    ensures
        a == b,
{
    if a.len() < b.len() {
        assert(buffer[a.len() as int] == 0);
        assert(b[a.len() as int] != 0);
    } else if b.len() < a.len() {
        assert(buffer[b.len() as int] == 0);
        assert(a[b.len() as int] != 0);
    } else {
        assert(a =~= b);
    }
}

/// A module parsed under another environment than the runtime's is turned
/// away with `EnvironmentMismatch`, whatever the engine would say, and the
/// runtime stays as it was.
pub proof fn law_foreign_module_is_turned_away<C>(
    rt: RuntimeView<C>,
    module: ParsedModuleView,
    status: usize,
)
    requires
        module.environment != rt.environment,
    ensures
        rt.load_error(module, status) == Some(Error::EnvironmentMismatch),
        rt.load(module, status) == rt,
{
}

/// A module that one runtime turned away enters a runtime of its own
/// environment as if it had never been offered elsewhere.
pub proof fn law_turned_away_module_loads_elsewhere<C>(
    other: RuntimeView<C>,
    rt: RuntimeView<C>,
    module: ParsedModuleView,
    status: usize,
)
    requires
        module.environment != other.environment,
        module.environment == rt.environment,
    ensures
        other.load(module, status) == other,
        rt.load(module, 0).modules == rt.modules.push(module),
{
}

/// Modules that are loaded one after the other stand behind those that were
/// there before, in the order in which they were loaded.
pub proof fn law_modules_in_load_order<C>(rt: RuntimeView<C>, batch: Seq<ParsedModuleView>)
    requires
        forall|i: int| 0 <= i < batch.len() ==> (#[trigger] batch[i]).environment == rt.environment,
    ensures
        load_all(rt, batch).modules == rt.modules + batch,
        load_all(rt, batch).closures == rt.closures,
        load_all(rt, batch).raw == rt.raw,
        load_all(rt, batch).environment == rt.environment,
    decreases batch.len(),
{
    if batch.len() == 0 {
        assert(rt.modules + batch =~= rt.modules);
    } else {
        let next = rt.load(batch[0], 0);
        let rest = batch.drop_first();
        assert(batch[0].environment == rt.environment);
        assert forall|i: int| 0 <= i < rest.len() implies (#[trigger] rest[i]).environment
            == next.environment by {
            assert(rest[i] == batch[i + 1]);
        }
        law_modules_in_load_order(next, rest);
        assert(next.modules + rest =~= rt.modules + batch);
    }
}

/// A search for a module by name gives the first module of that name in load
/// order, also where several carry it, and fails with `ModuleNotFound`
/// exactly where none does.
pub proof fn law_find_module_gives_first<C>(rt: RuntimeView<C>, name: Seq<u8>)
    ensures
        match rt.find_module(name) {
            Ok(module) => exists|i: int|
                {
                    &&& 0 <= i < rt.modules.len()
                    &&& module == rt.module(i)
                    &&& (#[trigger] rt.modules[i]).is_named(name)
                    &&& forall|j: int| 0 <= j < i ==> !(#[trigger] rt.modules[j]).is_named(name)
                },
            Err(e) => {
                &&& e == Error::ModuleNotFound
                &&& forall|j: int|
                    0 <= j < rt.modules.len() ==> !(#[trigger] rt.modules[j]).is_named(name)
            },
        },
{
    let flags = rt.modules_named(name);
    lemma_first_match(flags);
    match first_match(flags) {
        Some(i) => {
            assert(flags[i] == rt.modules[i].is_named(name));
            assert forall|j: int| 0 <= j < i implies !(#[trigger] rt.modules[j]).is_named(name) by {
                assert(!flags[j]);
            }
        },
        None => {
            assert forall|j: int| 0 <= j < rt.modules.len() implies !(#[trigger] rt.modules[j]).is_named(
                name,
            ) by {
                assert(!flags[j]);
            }
        },
    }
}

/// A search in one module gives a function, a mismatch of types, or nothing
/// of that name: no other answer.
pub proof fn law_module_answers(module: ParsedModuleView, name: Seq<u8>, signature: SignatureView)
    ensures
        match module.find_function(name, signature) {
            Ok(export) => exists|i: int|
                {
                    &&& 0 <= i < module.exports.len()
                    &&& export == i as usize
                    &&& c_str_equals((#[trigger] module.exports[i]).name, name)
                    &&& module.exports[i].signature == signature
                },
            Err(e) => {
                ||| e == Error::InvalidFunctionSignature && exists|i: int|
                    {
                        &&& 0 <= i < module.exports.len()
                        &&& c_str_equals((#[trigger] module.exports[i]).name, name)
                        &&& module.exports[i].signature != signature
                    }
                ||| e == Error::FunctionNotFound && forall|i: int|
                    0 <= i < module.exports.len() ==> !c_str_equals(
                        (#[trigger] module.exports[i]).name,
                        name,
                    )
            },
        },
{
    let flags = module.exports_named(name);
    lemma_first_match(flags);
    match first_match(flags) {
        Some(i) => {
            assert(c_str_equals(module.exports[i].name, name));
        },
        None => {
            assert forall|i: int| 0 <= i < module.exports.len() implies !c_str_equals(
                (#[trigger] module.exports[i]).name,
                name,
            ) by {
                assert(!flags[i]);
            }
        },
    }
}

/// Where a module has the function under other types than the requested
/// ones, and no module loaded before it has it under the requested ones, the
/// search fails with `InvalidFunctionSignature`, whatever the modules loaded
/// after it export.
pub proof fn law_signature_mismatch_ends_search<C>(
    rt: RuntimeView<C>,
    name: Seq<u8>,
    signature: SignatureView,
    at: int,
)
    requires
        0 <= at < rt.modules.len(),
        rt.modules[at].find_function(name, signature) == Err::<usize, Error>(
            Error::InvalidFunctionSignature,
        ),
        forall|j: int| 0 <= j < at ==> !((#[trigger] rt.modules[j]).find_function(name, signature) is Ok),
    ensures
        rt.find_function(name, signature) == Err::<Function, Error>(Error::InvalidFunctionSignature),
{
    let flags = rt.modules_deciding(name, signature);
    lemma_first_match(flags);
    assert(flags[at]);
    let first = first_match(flags)->Some_0;
    assert(first <= at) by {
        if at < first {
            assert(!flags[at]);
        }
    }
    assert(flags[first]);
    law_module_answers(rt.modules[first], name, signature);
}

/// Where no loaded module has an export of the requested name, the search
/// for a function fails with `FunctionNotFound`; and it fails so only there.
pub proof fn law_absent_function_is_not_found<C>(
    rt: RuntimeView<C>,
    name: Seq<u8>,
    signature: SignatureView,
)
    ensures
        rt.find_function(name, signature) == Err::<Function, Error>(Error::FunctionNotFound) <==> (
        forall|i: int, e: int|
            0 <= i < rt.modules.len() && 0 <= e < rt.modules[i].exports.len() ==> !c_str_equals(
                #[trigger] rt.modules[i].exports[e].name,
                name,
            )),
{
    let flags = rt.modules_deciding(name, signature);
    let absent = forall|i: int, e: int|
        0 <= i < rt.modules.len() && 0 <= e < rt.modules[i].exports.len() ==> !c_str_equals(
            #[trigger] rt.modules[i].exports[e].name,
            name,
        );
    lemma_first_match(flags);
    if absent {
        assert forall|i: int| 0 <= i < flags.len() implies !flags[i] by {
            lemma_first_match_none(rt.modules[i].exports_named(name));
        }
        lemma_first_match_none(flags);
    } else {
        let (i, e) = choose|i: int, e: int|
            0 <= i < rt.modules.len() && 0 <= e < rt.modules[i].exports.len() && c_str_equals(
                #[trigger] rt.modules[i].exports[e].name,
                name,
            );
        let named = rt.modules[i].exports_named(name);
        lemma_first_match(named);
        assert(named[e]);
        assert(flags[i]);
        let first = first_match(flags)->Some_0;
        assert(flags[first]);
    }
}

/// Closures that are registered one after the other stand behind those that
/// were there before, each at the place it was given, and none of the
/// earlier ones leaves or changes place.
pub proof fn law_closures_are_kept<C>(rt: RuntimeView<C>, closures: Seq<C>)
    ensures
        push_closures(rt, closures).closures == rt.closures + closures,
        push_closures(rt, closures).modules == rt.modules,
        push_closures(rt, closures).raw == rt.raw,
        push_closures(rt, closures).environment == rt.environment,
    decreases closures.len(),
{
    if closures.len() == 0 {
        assert(rt.closures + closures =~= rt.closures);
    } else {
        let next = rt.push_closure(closures[0]);
        let rest = closures.drop_first();
        law_closures_are_kept(next, rest);
        assert(next.closures + rest =~= rt.closures + closures);
    }
}

/// One thing that is done to a runtime: a module is offered to it and the
/// engine answers with a status, or a closure is registered.
pub enum Step<C> {
    Load { module: ParsedModuleView, status: usize },
    Register { closure: C },
}

/// The runtime after `step`.
pub open spec fn after<C>(rt: RuntimeView<C>, step: Step<C>) -> RuntimeView<C> {
    match step {
        Step::Load { module, status } => rt.load(module, status),
        Step::Register { closure } => rt.push_closure(closure),
    }
}

/// The runtime after each of `steps`, in turn.
pub open spec fn after_all<C>(rt: RuntimeView<C>, steps: Seq<Step<C>>) -> RuntimeView<C>
    decreases steps.len(),
{
    if steps.len() == 0 {
        rt
    } else {
        after_all(after(rt, steps[0]), steps.drop_first())
    }
}

/// Whatever is loaded or registered, in whatever order, and whether a load
/// succeeds or not: the runtime keeps its execution context and its
/// environment, and every module and every closure it held stays at its
/// place. Nothing is ever taken out.
pub proof fn law_runtime_only_grows<C>(rt: RuntimeView<C>, steps: Seq<Step<C>>)
    ensures
        after_all(rt, steps).raw == rt.raw,
        after_all(rt, steps).environment == rt.environment,
        after_all(rt, steps).stack_size == rt.stack_size,
        rt.modules.is_prefix_of(after_all(rt, steps).modules),
        rt.closures.is_prefix_of(after_all(rt, steps).closures),
    decreases steps.len(),
{
    if steps.len() > 0 {
        let next = after(rt, steps[0]);
        assert(rt.modules.is_prefix_of(next.modules));
        assert(rt.closures.is_prefix_of(next.closures));
        law_runtime_only_grows(next, steps.drop_first());
    }
}

/// Types differ exactly where their codes differ, and no type has the code
/// that stands for no value: signatures made of other types are other
/// signatures.
pub proof fn law_signatures_tell_types_apart(
    args: Seq<ValueType>,
    ret: Option<ValueType>,
    other_args: Seq<ValueType>,
    other_ret: Option<ValueType>,
)
    ensures
        SignatureView::of(args, ret) == SignatureView::of(other_args, other_ret) <==> args
            == other_args && ret == other_ret,
        forall|t: ValueType| #[trigger] t.spec_code() != NO_VALUE,
{
    let a = SignatureView::of(args, ret);
    let b = SignatureView::of(other_args, other_ret);
    if a == b {
        assert(args.len() == a.args.len());
        assert(other_args.len() == b.args.len());
        assert forall|i: int| 0 <= i < args.len() implies args[i] == other_args[i] by {
            assert(a.args[i] == args[i].spec_code());
            assert(b.args[i] == other_args[i].spec_code());
        }
        assert(args =~= other_args);
    }
}

/// A runtime whose engine reports no memory, by a null address or by a size
/// of zero, has a memory of no bytes at an address that is not null.
pub proof fn law_no_memory_is_empty(base: usize, size: u32)
    requires
        base == 0 || size == 0,
    ensures
        memory_slice(base, size).len == 0,
        memory_slice(base, size).base != 0,
{
}

} // verus!
