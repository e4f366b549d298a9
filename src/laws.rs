//! Laws that relate resolution and dispatch.
use crate::decl::{
    first_named, first_with_ordinal, is_first_with_ordinal, lemma_first_named_exists,
    lemma_first_named_none, lemma_first_with_ordinal_at, lemma_first_with_ordinal_none,
    ordinals_distinct, param_tags, signature_of, FuncDecl,
};
use crate::dispatch::{arg_fits, args_fit};
use crate::resolve::resolves_to;
use crate::value::{tags_of, SignatureView, Value};
use vstd::prelude::*;

verus! {

/// Round trip: where ordinals are distinct, resolving the name of a
/// declaration (the first one carrying that name) with its own signature
/// yields its ordinal; dispatching that ordinal reaches the same
/// declaration; and arguments of its parameter types, passed on in order,
/// match its signature position for position.
pub proof fn lemma_resolve_dispatch_round_trip(funcs: Seq<FuncDecl>, i: int, args: Seq<Value>)
    requires
        0 <= i < funcs.len(),
        ordinals_distinct(funcs),
        first_named(funcs, funcs[i].name@) == Some(i),
        args_fit(param_tags(funcs[i].params@), args),
    ensures
        resolves_to(funcs, funcs[i].name@, signature_of(funcs[i])) == Some(funcs[i].index),
        first_with_ordinal(funcs, funcs[i].index) == Some(i),
        tags_of(args.subrange(0, funcs[i].params@.len() as int)) == signature_of(funcs[i]).params,
{
    assert(is_first_with_ordinal(funcs, funcs[i].index, i));
    lemma_first_with_ordinal_at(funcs, funcs[i].index, i);
    let params = param_tags(funcs[i].params@);
    if params.len() > 0 {
        assert(arg_fits(params, args, params.len() - 1));
    }
    let prefix = args.subrange(0, params.len() as int);
    assert forall|k: int| 0 <= k < params.len() implies tags_of(prefix)[k] == params[k] by {
        assert(arg_fits(params, args, k));
    }
    assert(tags_of(prefix) =~= params);
}

/// A requested signature that differs from the signature of the first
/// declaration with the requested name, in arity, in a parameter tag or in
/// the result tag, never resolves.
pub proof fn lemma_signature_mismatch_rejected(
    funcs: Seq<FuncDecl>,
    name: Seq<char>,
    sig: SignatureView,
)
    requires
        first_named(funcs, name) matches Some(i) && sig != signature_of(funcs[i]),
    ensures
        resolves_to(funcs, name, sig) is None,
{
}

/// A name that no declaration carries has no first declaration, and never
/// resolves, whatever the signature.
pub proof fn lemma_unknown_name_rejected(funcs: Seq<FuncDecl>, name: Seq<char>, sig: SignatureView)
    requires
        forall|j: int| 0 <= j < funcs.len() ==> funcs[j].name@ != name,
    ensures
        first_named(funcs, name) is None,
        resolves_to(funcs, name, sig) is None,
{
    lemma_first_named_none(funcs, name);
}

/// An ordinal that no declaration carries reaches no declaration, so no
/// native call is ever prepared for it.
pub proof fn lemma_ordinal_isolation(funcs: Seq<FuncDecl>, index: usize)
    requires
        forall|j: int| 0 <= j < funcs.len() ==> funcs[j].index != index,
    ensures
        first_with_ordinal(funcs, index) is None,
{
    lemma_first_with_ordinal_none(funcs, index);
}

/// Of two declarations with the same name, the earlier one shadows the
/// later: the name resolves, if at all, to the ordinal of the first
/// declaration carrying it, never through the later one's signature.
pub proof fn lemma_earlier_declaration_shadows(
    funcs: Seq<FuncDecl>,
    i: int,
    j: int,
    sig: SignatureView,
)
    requires
        0 <= i < j < funcs.len(),
        funcs[i].name@ == funcs[j].name@,
    ensures
        first_named(funcs, funcs[j].name@) != Some(j),
        first_named(funcs, funcs[j].name@) matches Some(k) && k <= i,
        resolves_to(funcs, funcs[j].name@, sig) matches Some(ordinal) ==> sig == signature_of(
            funcs[first_named(funcs, funcs[j].name@)->Some_0],
        ) && ordinal == funcs[first_named(funcs, funcs[j].name@)->Some_0].index,
{
    lemma_first_named_exists(funcs, funcs[j].name@, i);
}

} // verus!
