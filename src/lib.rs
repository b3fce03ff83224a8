use vstd::prelude::*;

pub mod lexemes;
pub mod lexer;
pub mod text;
pub mod theorems;

verus! {

} // verus!
