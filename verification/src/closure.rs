//! Decisions taken when a closure is looked up by the name under which OCaml
//! registered it.
use vstd::prelude::*;

verus! {

/// A name can be handed to the OCaml runtime only as a C string, which cannot
/// hold a NUL byte.
pub open spec fn is_c_name(name: Seq<u8>) -> bool {
    !name.contains(0u8)
}

/// The header tag of an OCaml closure block.
pub open spec fn closure_tag_value() -> u8 {
    247u8
}

/// `ocaml_sys::CLOSURE`, the tag that OCaml gives closure blocks; its source
/// defines it as 247.
#[verifier::external_body]
fn closure_tag() -> (t: u8)
    ensures
        t == closure_tag_value(),
{
    ocaml_sys::CLOSURE
}

/// What the runtime's table of named values holds under a name.
#[derive(Debug, PartialEq, Eq, Clone, Copy)]
pub enum Registration {
    /// Nothing is registered under the name.
    Unregistered,
    /// A value is registered; `tag` is the tag in its block header.
    Registered { tag: u8 },
}

/// A registration refers to a closure when a value is registered and its
/// block carries the closure tag.
pub open spec fn registers_closure(reg: Registration) -> bool {
    match reg {
        Registration::Unregistered => false,
        Registration::Registered { tag } => tag == closure_tag_value(),
    }
}

/// Whether `name` may be looked up at all: it must contain no NUL byte.
/// A name that fails this test yields no closure and is never looked up.
pub fn accepts_name(name: &[u8]) -> (r: bool)
    ensures
        r == is_c_name(name@),
        r == (forall|j: int| 0 <= j < name@.len() ==> name@[j] != 0u8),
{
    let n = name.len();
    let mut i: usize = 0;
    while i < n
        invariant
            n == name@.len(),
            i <= n,
            forall|j: int| 0 <= j < i ==> name@[j] != 0u8,
        decreases n - i,
    {
        if name[i] == 0u8 {
            assert(name@[i as int] == 0u8);
            return false;
        }
        i = i + 1;
    }
    assert forall|x: u8| name@.contains(x) implies x != 0u8 by {
        let j = choose|j: int| 0 <= j < name@.len() && name@[j] == x;
        assert(name@[j] != 0u8);
    }
    true
}

/// Whether the value found under a name is a closure that may be called.
pub fn names_closure(reg: &Registration) -> (r: bool)
    ensures
        r == registers_closure(*reg),
        r == (*reg matches Registration::Registered { tag } && tag == 247u8),
{
    match reg {
        Registration::Unregistered => false,
        Registration::Registered { tag } => *tag == closure_tag(),
    }
}

/// A name is usable exactly when none of its bytes is NUL: every other byte,
/// printable or not, is allowed, and a single NUL byte anywhere rules it out.
pub proof fn lemma_c_name_is_nul_free(name: Seq<u8>)
    ensures
        is_c_name(name) <==> (forall|j: int| 0 <= j < name.len() ==> name[j] != 0u8),
        forall|j: int| 0 <= j < name.len() && name[j] == 0u8 ==> !is_c_name(name),
{
    if is_c_name(name) {
        assert forall|j: int| 0 <= j < name.len() implies name[j] != 0u8 by {
            if name[j] == 0u8 {
                assert(name.contains(0u8));
            }
        }
    }
    assert forall|j: int| 0 <= j < name.len() && name[j] == 0u8 implies !is_c_name(name) by {
        assert(name.contains(name[j]));
    }
}

/// A registered value counts as a closure exactly when its tag is the closure
/// tag 247; any other tag (string, object, double, custom, ...) and an absent
/// registration never do.
pub proof fn lemma_closure_tag_only(tag: u8)
    ensures
        registers_closure(Registration::Registered { tag }) <==> tag == 247u8,
        !registers_closure(Registration::Unregistered),
{
}

} // verus!
