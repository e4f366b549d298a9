//! Name-based resolution with signature verification, used while linking.
use crate::decl::{first_named, signature_of, BindingUnit, FuncDecl};
use crate::value::{Signature, SignatureView};
use vstd::prelude::*;
use vstd::string::StringExecFns;

verus! {

/// A reference to a resolved native function: the ordinal to dispatch on
/// and the signature it was resolved with.
#[derive(Debug)]
pub struct FuncRef {
    pub index: usize,
    pub signature: Signature,
}

/// Why an import could not be resolved.
#[derive(Debug)]
pub enum ResolveError {
    /// No declaration carries the requested name.
    NotFound { name: String },
    /// The first declaration with the requested name has another signature.
    SignatureMismatch { name: String, expected: Signature, requested: Signature },
}

/// The ordinal that `name` resolves to under the requested signature `sig`:
/// that of the first declaration named `name`, provided `sig` is exactly its
/// signature.
pub open spec fn resolves_to(funcs: Seq<FuncDecl>, name: Seq<char>, sig: SignatureView) -> Option<
    usize,
> {
    match first_named(funcs, name) {
        Some(i) => if sig == signature_of(funcs[i]) {
            Some(funcs[i].index)
        } else {
            None
        },
        None => None,
    }
}

impl FuncRef {
    /// The ordinal this reference dispatches on.
    pub fn index(&self) -> (r: usize)
        ensures
            r == self.index,
    {
        self.index
    }

    /// The signature this reference was resolved with.
    pub fn signature(&self) -> (r: &Signature)
        ensures
            r == &self.signature,
    {
        &self.signature
    }
}

impl ResolveError {
    /// Whether this is the error for a name that no declaration carries.
    pub fn is_not_found(&self) -> (r: bool)
        ensures
            r == (self is NotFound),
    {
        match self {
            ResolveError::NotFound { .. } => true,
            _ => false,
        }
    }

    /// The requested name.
    pub fn name(&self) -> (r: &String)
        ensures
            match self {
                ResolveError::NotFound { name } => r == name,
                ResolveError::SignatureMismatch { name, .. } => r == name,
            },
    {
        match self {
            ResolveError::NotFound { name } => name,
            ResolveError::SignatureMismatch { name, .. } => name,
        }
    }
}

impl BindingUnit {
    /// Resolves the import `name` requested with `signature`.
    ///
    /// Only the first declaration named `name` is considered. It resolves
    /// when `signature` equals its signature in arity, in every parameter tag
    /// and in the result tag; the reference then carries its ordinal and a
    /// copy of `signature`.
    pub fn resolve(&self, name: &str, signature: &Signature) -> (r: Result<FuncRef, ResolveError>)
        ensures
            r is Ok <==> resolves_to(self.funcs@, name@, signature@) is Some,
            r matches Ok(f) ==> Some(f.index) == resolves_to(self.funcs@, name@, signature@)
                && f.signature@ == signature@,
            r matches Err(ResolveError::NotFound { name: n }) ==> n@ == name@,
            (r matches Err(ResolveError::NotFound { .. })) <==> first_named(self.funcs@, name@) is None,
            r matches Err(ResolveError::SignatureMismatch { name: n, expected, requested }) ==> {
                &&& n@ == name@
                &&& first_named(self.funcs@, name@) matches Some(i)
                &&& expected@ == signature_of(self.funcs@[i])
                &&& requested@ == signature@
            },
    {
        let wanted = String::from_str(name);
        match self.find_name(&wanted) {
            None => Err(ResolveError::NotFound { name: wanted }),
            Some(i) => {
                let expected = self.funcs[i].signature();
                if expected.matches(signature) {
                    Ok(FuncRef { index: self.funcs[i].index, signature: signature.duplicate() })
                } else {
                    Err(
                        ResolveError::SignatureMismatch {
                            name: wanted,
                            expected,
                            requested: signature.duplicate(),
                        },
                    )
                }
            },
        }
    }
}

} // verus!
