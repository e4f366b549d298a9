//! Runtime values, their type tags and function signatures.
use vstd::prelude::*;

verus! {

/// The machine-visible type of a value.
#[derive(Clone, Copy, Debug, PartialEq, Eq, Structural)]
pub enum ValueTag {
    I32,
    I64,
    F32,
    F64,
}

/// A runtime value. Floating-point values are held as their IEEE-754 bit
/// patterns, as the virtual machine itself keeps them.
#[derive(Clone, Copy, Debug, PartialEq, Eq, Structural)]
pub enum Value {
    I32(i32),
    I64(i64),
    F32(u32),
    F64(u64),
}

/// The type tag of a value.
pub open spec fn tag_of(v: Value) -> ValueTag {
    match v {
        Value::I32(_) => ValueTag::I32,
        Value::I64(_) => ValueTag::I64,
        Value::F32(_) => ValueTag::F32,
        Value::F64(_) => ValueTag::F64,
    }
}

/// The type tags of a sequence of values, position for position.
pub open spec fn tags_of(vs: Seq<Value>) -> Seq<ValueTag> {
    vs.map_values(|v: Value| tag_of(v))
}

impl Value {
    /// The type tag of this value.
    pub fn value_type(&self) -> (r: ValueTag)
        ensures
            r == tag_of(*self),
    {
        match self {
            Value::I32(_) => ValueTag::I32,
            Value::I64(_) => ValueTag::I64,
            Value::F32(_) => ValueTag::F32,
            Value::F64(_) => ValueTag::F64,
        }
    }
}

/// A function signature: the parameter tags in order and the result tag,
/// `None` for a function that returns nothing.
#[derive(Debug)]
pub struct Signature {
    pub params: Vec<ValueTag>,
    pub ret: Option<ValueTag>,
}

/// The mathematical view of a signature.
pub struct SignatureView {
    pub params: Seq<ValueTag>,
    pub ret: Option<ValueTag>,
}

impl View for Signature {
    type V = SignatureView;

    open spec fn view(&self) -> SignatureView {
        SignatureView { params: self.params@, ret: self.ret }
    }
}

/// Copies a sequence of tags.
pub fn copy_tags(tags: &Vec<ValueTag>) -> (r: Vec<ValueTag>)
    ensures
        r@ == tags@,
{
    let mut r: Vec<ValueTag> = Vec::with_capacity(tags.len());
    let mut i: usize = 0;
    while i < tags.len()
        invariant
            i <= tags@.len(),
            r@ == tags@.subrange(0, i as int),
        decreases tags@.len() - i,
    {
        r.push(tags[i]);
        i += 1;
        proof {
            assert(r@ =~= tags@.subrange(0, i as int));
        }
    }
    proof {
        assert(r@ =~= tags@);
    }
    r
}

/// Whether two tag sequences are equal, position for position.
pub fn tags_equal(a: &Vec<ValueTag>, b: &Vec<ValueTag>) -> (r: bool)
    ensures
        r == (a@ == b@),
{
    if a.len() != b.len() {
        return false;
    }
    let mut i: usize = 0;
    while i < a.len()
        invariant
            a@.len() == b@.len(),
            i <= a@.len(),
            forall|j: int| 0 <= j < i ==> a@[j] == b@[j],
        decreases a@.len() - i,
    {
        if a[i] != b[i] {
            return false;
        }
        i += 1;
    }
    proof {
        assert(a@ =~= b@);
    }
    true
}

impl Signature {
    /// Builds a signature from its parameter tags and its result tag.
    pub fn new(params: Vec<ValueTag>, ret: Option<ValueTag>) -> (r: Signature)
        ensures
            r.params@ == params@,
            r.ret == ret,
    {
        Signature { params, ret }
    }

    /// The parameter tags, in order.
    pub fn params(&self) -> (r: &[ValueTag])
        ensures
            r@ == self.params@,
    {
        self.params.as_slice()
    }

    /// The result tag, `None` for a function that returns nothing.
    pub fn return_type(&self) -> (r: Option<ValueTag>)
        ensures
            r == self.ret,
    {
        self.ret
    }

    /// A copy of this signature.
    pub fn duplicate(&self) -> (r: Signature)
        ensures
            r@ == self@,
    {
        Signature { params: copy_tags(&self.params), ret: self.ret }
    }

    /// Whether two signatures agree in arity, in every parameter tag and in
    /// the result tag.
    pub fn matches(&self, other: &Signature) -> (r: bool)
        ensures
            r == (self@ == other@),
    {
        let same_params = tags_equal(&self.params, &other.params);
        let same_ret = match (self.ret, other.ret) {
            (None, None) => true,
            (Some(a), Some(b)) => a == b,
            _ => false,
        };
        same_params && same_ret
    }
}

} // verus!
