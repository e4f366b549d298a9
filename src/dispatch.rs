//! Index-based dispatch, used on every call from the virtual machine.
//!
//! A call goes in two steps around the native function itself:
//! `prepare_call` finds the declaration for the ordinal and unmarshals the
//! arguments for it, and `NativeCall::complete` checks what the native
//! function handed back.
use crate::decl::{first_with_ordinal, param_tags, BindingUnit};
use crate::value::{tag_of, Value, ValueTag};
use vstd::prelude::*;

verus! {

/// A failure on the dispatch path.
#[derive(Debug)]
pub enum Trap {
    /// No declaration has this ordinal. A correctly driven machine only
    /// dispatches ordinals handed out by `resolve`, so this never happens
    /// there.
    Internal(usize),
    /// The arguments ran out before this parameter position.
    MissingArgument(usize),
    /// The argument at `position` has the wrong type.
    ArgumentType { position: usize, expected: ValueTag, found: ValueTag },
    /// The native function returned a value of another type than declared.
    ResultType { expected: Option<ValueTag>, found: Option<ValueTag> },
    /// The native function reported a failure.
    Host(String),
}

/// A native call ready to be made: the ordinal of the function, its
/// arguments in parameter order, and the declared result type.
#[derive(Debug)]
pub struct NativeCall {
    pub index: usize,
    pub args: Vec<Value>,
    pub ret: Option<ValueTag>,
}

/// The argument at position `k` is present and has the type of parameter `k`.
pub open spec fn arg_fits(params: Seq<ValueTag>, args: Seq<Value>, k: int) -> bool {
    k < args.len() && tag_of(args[k]) == params[k]
}

/// Every parameter gets an argument of its type.
pub open spec fn args_fit(params: Seq<ValueTag>, args: Seq<Value>) -> bool {
    forall|k: int| 0 <= k < params.len() ==> arg_fits(params, args, k)
}

/// Position `k` is the first parameter that gets no argument of its type.
pub open spec fn is_first_misfit(params: Seq<ValueTag>, args: Seq<Value>, k: int) -> bool {
    &&& 0 <= k < params.len()
    &&& !arg_fits(params, args, k)
    &&& forall|j: int| 0 <= j < k ==> arg_fits(params, args, j)
}

/// The trap for a parameter at position `k` that gets no argument of its type.
pub open spec fn misfit_trap(params: Seq<ValueTag>, args: Seq<Value>, k: int) -> Trap {
    if k < args.len() {
        Trap::ArgumentType { position: k as usize, expected: params[k], found: tag_of(args[k]) }
    } else {
        Trap::MissingArgument(k as usize)
    }
}

/// The type tag of an optional result.
pub open spec fn result_tag(v: Option<Value>) -> Option<ValueTag> {
    match v {
        Some(x) => Some(tag_of(x)),
        None => None,
    }
}

impl BindingUnit {
    /// Prepares the call of the function with ordinal `index` on `args`.
    ///
    /// The first declaration with that ordinal is used. Each parameter, in
    /// declared order, takes the argument at its position, which must have
    /// the parameter's type; arguments beyond the last parameter are ignored.
    pub fn prepare_call(&self, index: usize, args: &[Value]) -> (r: Result<NativeCall, Trap>)
        ensures
            first_with_ordinal(self.funcs@, index) is None ==> r == Err::<NativeCall, Trap>(
                Trap::Internal(index),
            ),
            first_with_ordinal(self.funcs@, index) matches Some(i) ==> {
                let params = param_tags(self.funcs@[i].params@);
                &&& r is Ok <==> args_fit(params, args@)
                &&& r matches Ok(c) ==> {
                    &&& c.index == index
                    &&& c.args@ == args@.subrange(0, params.len() as int)
                    &&& c.ret == self.funcs@[i].ret
                }
                &&& r matches Err(t) ==> exists|k: int|
                    is_first_misfit(params, args@, k) && t == misfit_trap(params, args@, k)
            },
    {
        let i = match self.find_ordinal(index) {
            None => return Err(Trap::Internal(index)),
            Some(i) => i,
        };
        let decl = &self.funcs[i];
        let ghost params = param_tags(decl.params@);
        let n = decl.params.len();
        let mut unmarshalled: Vec<Value> = Vec::with_capacity(n);
        let mut k: usize = 0;
        while k < n
            invariant
                first_with_ordinal(self.funcs@, index) == Some(i as int),
                *decl == self.funcs@[i as int],
                n == decl.params@.len(),
                params == param_tags(decl.params@),
                k <= n,
                forall|j: int| 0 <= j < k ==> arg_fits(params, args@, j),
                k <= args@.len(),
                unmarshalled@ == args@.subrange(0, k as int),
            decreases n - k,
        {
            if k >= args.len() {
                proof {
                    assert(is_first_misfit(params, args@, k as int));
                }
                return Err(Trap::MissingArgument(k));
            }
            let found = args[k].value_type();
            let expected = decl.params[k].tag;
            if found != expected {
                proof {
                    assert(is_first_misfit(params, args@, k as int));
                    assert(misfit_trap(params, args@, k as int) == Trap::ArgumentType {
                        position: k,
                        expected,
                        found,
                    });
                }
                return Err(Trap::ArgumentType { position: k, expected, found });
            }
            unmarshalled.push(args[k]);
            k += 1;
            proof {
                assert(unmarshalled@ =~= args@.subrange(0, k as int));
            }
        }
        Ok(NativeCall { index, args: unmarshalled, ret: decl.ret })
    }
}

impl NativeCall {
    /// Checks the outcome of the native function: a failure becomes
    /// `Trap::Host`, and a result must have the declared result type (none
    /// for a function that returns nothing).
    pub fn complete(&self, outcome: Result<Option<Value>, String>) -> (r: Result<
        Option<Value>,
        Trap,
    >)
        ensures
            outcome matches Err(m) ==> r == Err::<Option<Value>, Trap>(Trap::Host(m)),
            outcome matches Ok(v) ==> if result_tag(v) == self.ret {
                r == Ok::<Option<Value>, Trap>(v)
            } else {
                r == Err::<Option<Value>, Trap>(
                    Trap::ResultType { expected: self.ret, found: result_tag(v) },
                )
            },
    {
        match outcome {
            Err(m) => Err(Trap::Host(m)),
            Ok(v) => {
                let found = match &v {
                    Some(x) => Some(x.value_type()),
                    None => None,
                };
                let same = match (found, self.ret) {
                    (None, None) => true,
                    (Some(a), Some(b)) => a == b,
                    _ => false,
                };
                if same {
                    Ok(v)
                } else {
                    Err(Trap::ResultType { expected: self.ret, found })
                }
            },
        }
    }
}

} // verus!
