//! The closed set of text art that ships with the library.

use vstd::prelude::*;

verus! {

/// A piece of art embedded in the library.
#[derive(Clone, Copy, Debug, PartialEq, Eq, Structural)]
pub enum Builtins {
    Catpeek,
    LoveMyPuter,
    Gamebtw,
    Hashbang,
}

/// Every built-in piece, in its fixed order.
pub open spec fn all_builtins() -> Seq<Builtins> {
    seq![Builtins::Catpeek, Builtins::LoveMyPuter, Builtins::Gamebtw, Builtins::Hashbang]
}

/// The text of each built-in piece.
pub open spec fn art(b: Builtins) -> Seq<char> {
    match b {
        Builtins::Catpeek => CATPEEK@,
        Builtins::LoveMyPuter => LOVE_MY_PUTER@,
        Builtins::Gamebtw => GAMEBTW@,
        Builtins::Hashbang => HASHBANG@,
    }
}

pub const CATPEEK: &'static str = "    /|_/|\n   ( o.o )\n____> ^ <____\n";

pub const LOVE_MY_PUTER: &'static str = " .-------.   _   _\n | >_    |  ( `v' )\n |_______|   `. .'\n  _|___|_      v\n";

pub const GAMEBTW: &'static str = "   _____________\n  /  +     o    \\\n | -+-   o   o  |\n  \\___/-----\\___/\n   i game btw\n";

pub const HASHBANG: &'static str = "  # #    ||\n ######  ||\n  # #    ||\n ######  ..\n  # #    ()\n";

impl Builtins {
    /// Every built-in piece, in the registry's order.
    pub fn all() -> (r: Vec<Builtins>)
        ensures
            r@ == all_builtins(),
    {
        let r = vec![Builtins::Catpeek, Builtins::LoveMyPuter, Builtins::Gamebtw, Builtins::Hashbang];
        assert(r@ =~= all_builtins());
        r
    }

    /// The embedded text of this piece.
    pub fn get(&self) -> (r: &'static str)
        ensures
            r@ == art(*self),
    {
        match self {
            Builtins::Catpeek => CATPEEK,
            Builtins::LoveMyPuter => LOVE_MY_PUTER,
            Builtins::Gamebtw => GAMEBTW,
            Builtins::Hashbang => HASHBANG,
        }
    }
}

} // verus!
