//! The declaration model: the native functions of one binding unit.
use crate::value::{Signature, SignatureView, ValueTag};
use vstd::prelude::*;

verus! {

/// One parameter of a native function: its name and its value type.
#[derive(Debug)]
pub struct Param {
    pub ident: String,
    pub tag: ValueTag,
}

/// One native function: its machine-visible name, its dispatch ordinal, its
/// parameters in the native function's order and its result type (`None`
/// when it returns nothing).
#[derive(Debug)]
pub struct FuncDecl {
    pub name: String,
    pub index: usize,
    pub params: Vec<Param>,
    pub ret: Option<ValueTag>,
}

/// The native functions exposed together as one import surface, in
/// declaration order.
#[derive(Debug)]
pub struct BindingUnit {
    pub funcs: Vec<FuncDecl>,
}

/// The value types of a parameter list, in order.
pub open spec fn param_tags(ps: Seq<Param>) -> Seq<ValueTag> {
    ps.map_values(|p: Param| p.tag)
}

/// The signature a declaration stands for.
pub open spec fn signature_of(d: FuncDecl) -> SignatureView {
    SignatureView { params: param_tags(d.params@), ret: d.ret }
}

/// Position `i` holds the first declaration named `name`.
pub open spec fn is_first_named(funcs: Seq<FuncDecl>, name: Seq<char>, i: int) -> bool {
    &&& 0 <= i < funcs.len()
    &&& funcs[i].name@ == name
    &&& forall|j: int| 0 <= j < i ==> funcs[j].name@ != name
}

/// The position of the first declaration named `name`, if any.
pub open spec fn first_named(funcs: Seq<FuncDecl>, name: Seq<char>) -> Option<int> {
    if exists|i: int| is_first_named(funcs, name, i) {
        Some(choose|i: int| is_first_named(funcs, name, i))
    } else {
        None
    }
}

/// Position `i` holds the first declaration with ordinal `index`.
pub open spec fn is_first_with_ordinal(funcs: Seq<FuncDecl>, index: usize, i: int) -> bool {
    &&& 0 <= i < funcs.len()
    &&& funcs[i].index == index
    &&& forall|j: int| 0 <= j < i ==> funcs[j].index != index
}

/// The position of the first declaration with ordinal `index`, if any.
pub open spec fn first_with_ordinal(funcs: Seq<FuncDecl>, index: usize) -> Option<int> {
    if exists|i: int| is_first_with_ordinal(funcs, index, i) {
        Some(choose|i: int| is_first_with_ordinal(funcs, index, i))
    } else {
        None
    }
}

/// No two declarations share an ordinal.
pub open spec fn ordinals_distinct(funcs: Seq<FuncDecl>) -> bool {
    forall|i: int, j: int|
        0 <= i < funcs.len() && 0 <= j < funcs.len() && i != j ==> funcs[i].index != funcs[j].index
}

/// The first declaration named `name` is the one at `i`.
pub proof fn lemma_first_named_at(funcs: Seq<FuncDecl>, name: Seq<char>, i: int)
    requires
        is_first_named(funcs, name, i),
    ensures
        first_named(funcs, name) == Some(i),
{
    let k = choose|k: int| is_first_named(funcs, name, k);
    assert(is_first_named(funcs, name, k));
    if k < i {
        assert(funcs[k].name@ != name);
    } else if i < k {
        assert(funcs[i].name@ != name);
    }
}

/// Where the declaration at `j` is named `name`, the first one so named
/// stands at or before `j`.
pub proof fn lemma_first_named_exists(funcs: Seq<FuncDecl>, name: Seq<char>, j: int)
    requires
        0 <= j < funcs.len(),
        funcs[j].name@ == name,
    ensures
        first_named(funcs, name) matches Some(k) && k <= j && is_first_named(funcs, name, k),
    decreases j,
{
    if forall|m: int| 0 <= m < j ==> funcs[m].name@ != name {
        lemma_first_named_at(funcs, name, j);
    } else {
        let m = choose|m: int| 0 <= m < j && funcs[m].name@ == name;
        lemma_first_named_exists(funcs, name, m);
    }
}

/// Where no declaration is named `name`, there is no first one.
pub proof fn lemma_first_named_none(funcs: Seq<FuncDecl>, name: Seq<char>)
    requires
        forall|j: int| 0 <= j < funcs.len() ==> funcs[j].name@ != name,
    ensures
        first_named(funcs, name) is None,
{
}

/// The first declaration with ordinal `index` is the one at `i`.
pub proof fn lemma_first_with_ordinal_at(funcs: Seq<FuncDecl>, index: usize, i: int)
    requires
        is_first_with_ordinal(funcs, index, i),
    ensures
        first_with_ordinal(funcs, index) == Some(i),
{
    let k = choose|k: int| is_first_with_ordinal(funcs, index, k);
    assert(is_first_with_ordinal(funcs, index, k));
    if k < i {
        assert(funcs[k].index != index);
    } else if i < k {
        assert(funcs[i].index != index);
    }
}

/// Where no declaration has ordinal `index`, there is no first one.
pub proof fn lemma_first_with_ordinal_none(funcs: Seq<FuncDecl>, index: usize)
    requires
        forall|j: int| 0 <= j < funcs.len() ==> funcs[j].index != index,
    ensures
        first_with_ordinal(funcs, index) is None,
{
}

impl Param {
    /// A parameter named `ident` of type `tag`.
    pub fn new(ident: String, tag: ValueTag) -> (r: Param)
        ensures
            r.ident == ident,
            r.tag == tag,
    {
        Param { ident, tag }
    }
}

impl FuncDecl {
    /// A declaration of the native function `name` under ordinal `index`.
    pub fn new(name: String, index: usize, params: Vec<Param>, ret: Option<ValueTag>) -> (r:
        FuncDecl)
        ensures
            r.name == name,
            r.index == index,
            r.params@ == params@,
            r.ret == ret,
    {
        FuncDecl { name, index, params, ret }
    }

    /// The signature of this declaration: the tag of each parameter in
    /// declared order, and the result tag (`None` for a function that
    /// returns nothing).
    pub fn signature(&self) -> (r: Signature)
        ensures
            r@ == signature_of(*self),
    {
        let mut tags: Vec<ValueTag> = Vec::with_capacity(self.params.len());
        let mut i: usize = 0;
        while i < self.params.len()
            invariant
                i <= self.params@.len(),
                tags@ == param_tags(self.params@).subrange(0, i as int),
            decreases self.params@.len() - i,
        {
            tags.push(self.params[i].tag);
            i += 1;
            proof {
                assert(tags@ =~= param_tags(self.params@).subrange(0, i as int));
            }
        }
        proof {
            assert(tags@ =~= param_tags(self.params@));
        }
        Signature::new(tags, self.ret)
    }
}

impl BindingUnit {
    /// A binding unit holding `funcs` in declaration order.
    pub fn new(funcs: Vec<FuncDecl>) -> (r: BindingUnit)
        ensures
            r.funcs@ == funcs@,
    {
        BindingUnit { funcs }
    }

    /// The declarations, in declaration order.
    pub fn funcs(&self) -> (r: &[FuncDecl])
        ensures
            r@ == self.funcs@,
    {
        self.funcs.as_slice()
    }

    /// The position of the first declaration with ordinal `index`.
    pub fn find_ordinal(&self, index: usize) -> (r: Option<usize>)
        ensures
            match r {
                Some(i) => first_with_ordinal(self.funcs@, index) == Some(i as int),
                None => first_with_ordinal(self.funcs@, index) is None,
            },
    {
        let mut i: usize = 0;
        while i < self.funcs.len()
            invariant
                i <= self.funcs@.len(),
                forall|j: int| 0 <= j < i ==> self.funcs@[j].index != index,
            decreases self.funcs@.len() - i,
        {
            if self.funcs[i].index == index {
                proof {
                    lemma_first_with_ordinal_at(self.funcs@, index, i as int);
                }
                return Some(i);
            }
            i += 1;
        }
        proof {
            lemma_first_with_ordinal_none(self.funcs@, index);
        }
        None
    }

    /// The position of the first declaration named `name`.
    pub fn find_name(&self, name: &String) -> (r: Option<usize>)
        ensures
            match r {
                Some(i) => first_named(self.funcs@, name@) == Some(i as int),
                None => first_named(self.funcs@, name@) is None,
            },
    {
        let mut i: usize = 0;
        while i < self.funcs.len()
            invariant
                i <= self.funcs@.len(),
                forall|j: int| 0 <= j < i ==> self.funcs@[j].name@ != name@,
            decreases self.funcs@.len() - i,
        {
            if self.funcs[i].name == *name {
                proof {
                    lemma_first_named_at(self.funcs@, name@, i as int);
                }
                return Some(i);
            }
            i += 1;
        }
        proof {
            lemma_first_named_none(self.funcs@, name@);
        }
        None
    }
}

} // verus!
