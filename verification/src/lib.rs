//! Constant values keyed by the variants of an enumeration.
//!
//! An enumeration is declared together with one constant per variant. The
//! constants form the value list, in declaration order, and a variant finds its
//! constant by its ordinal: one array index, no search.
//!
//! [`ConstKey`] is implemented by the enumeration. An implementation supplies
//! the two primitives, [`ConstKey::value_list`] and [`ConstKey::get_id`], and
//! proves that its declaration is well formed; [`ConstKey::get`] comes with the
//! trait. The module [`laws`] states what follows for every implementation, and
//! [`samples`] holds two enumerations written out in full.
//!
//! An enumeration without variants cannot implement the trait: every
//! enumeration declares at least one constant.
use vstd::prelude::*;

pub mod laws;
pub mod samples;

verus! {

/// An enumeration whose variants select constants of type `T`.
///
/// The declaration is modelled by three functions. `variants()` lists the
/// variants in declaration order, `values()` lists the constants in the same
/// order, and `ordinal()` gives a variant's zero-based position. The two proof
/// obligations say that the three describe one declaration: each variant is
/// declared once, at the position of its ordinal, with one constant.
pub trait ConstKey<T>: Copy + Clone {
    /// The variants, in declaration order.
    spec fn variants() -> Seq<Self>;

    /// The constants, in declaration order: the value list.
    spec fn values() -> Seq<T>;

    /// The declaration position of a variant, counted from zero.
    spec fn ordinal(self) -> nat;

    /// There is one constant per declared variant, and no variant is declared
    /// twice.
    proof fn lemma_declaration()
        ensures
            Self::variants().len() == Self::values().len(),
            Self::variants().no_duplicates(),
    ;

    /// Every variant is declared, at the position of its ordinal.
    proof fn lemma_ordinal(self)
        ensures
            self.ordinal() < Self::variants().len(),
            Self::variants()[self.ordinal() as int] == self,
    ;

    /// The value list: the same constants on every call, one per declared
    /// variant.
    fn value_list() -> (list: &'static [T])
        ensures
            list@ == Self::values(),
            list@.len() == Self::variants().len(),
    ;

    /// The ordinal of a variant. It is an index into the value list.
    fn get_id(self) -> (id: usize)
        ensures
            id == self.ordinal(),
            id < Self::values().len(),
    ;

    /// The constant of a variant: the element of the value list at the
    /// variant's ordinal.
    fn get(self) -> (value: &'static T)
        ensures
            *value == Self::values()[self.ordinal() as int],
    {
        Self::value_list().get(self.get_id()).unwrap()
    }
}

} // verus!
