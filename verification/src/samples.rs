//! Two enumerations with their constants, written out in full.
//!
//! Each shows what a declaration consists of: the enumeration, the array of
//! constants, and an implementation of [`ConstKey`] whose `get_id` is the
//! variant's discriminant.
use crate::ConstKey;
use vstd::prelude::*;

verus! {

/// Two variants, each with a text.
#[derive(Clone, Copy, Debug, PartialEq, Eq)]
pub enum Foo {
    Item0,
    Item1,
}

/// The constants of [`Foo`], in declaration order.
pub const FOO_VALUES: [&'static str; 2] = ["item0", "item1"];

impl ConstKey<&'static str> for Foo {
    open spec fn variants() -> Seq<Self> {
        seq![Foo::Item0, Foo::Item1]
    }

    open spec fn values() -> Seq<&'static str> {
        seq!["item0", "item1"]
    }

    open spec fn ordinal(self) -> nat {
        match self {
            Foo::Item0 => 0,
            Foo::Item1 => 1,
        }
    }

    proof fn lemma_declaration() {
        assert(Self::variants().len() == 2);
        assert(Self::values().len() == 2);
    }

    proof fn lemma_ordinal(self) {
    }

    fn value_list() -> (list: &'static [&'static str]) {
        proof {
            Self::lemma_declaration();
        }
        assert(FOO_VALUES@ =~= Self::values());
        &FOO_VALUES
    }

    fn get_id(self) -> (id: usize) {
        proof {
            Self::lemma_declaration();
        }
        self as usize
    }
}

/// Three variants, each with a number.
#[derive(Clone, Copy, Debug, PartialEq, Eq)]
pub enum Tier {
    A,
    B,
    C,
}

/// The constants of [`Tier`], in declaration order.
pub const TIER_VALUES: [i32; 3] = [10, 20, 30];

impl ConstKey<i32> for Tier {
    open spec fn variants() -> Seq<Self> {
        seq![Tier::A, Tier::B, Tier::C]
    }

    open spec fn values() -> Seq<i32> {
        seq![10i32, 20i32, 30i32]
    }

    open spec fn ordinal(self) -> nat {
        match self {
            Tier::A => 0,
            Tier::B => 1,
            Tier::C => 2,
        }
    }

    proof fn lemma_declaration() {
        assert(Self::variants().len() == 3);
        assert(Self::values().len() == 3);
    }

    proof fn lemma_ordinal(self) {
    }

    fn value_list() -> (list: &'static [i32]) {
        proof {
            Self::lemma_declaration();
        }
        assert(TIER_VALUES@ =~= Self::values());
        &TIER_VALUES
    }

    fn get_id(self) -> (id: usize) {
        proof {
            Self::lemma_declaration();
        }
        self as usize
    }
}

} // verus!
