use vstd::prelude::*;

pub mod ambiente;
pub mod ast;
pub mod erros;
pub mod explicacoes;
pub mod inteiros;
pub mod lexer;
pub mod metodos_texto;
pub mod numeros;
pub mod parser;
pub mod programa;
pub mod texto;
pub mod token;

verus! {
} // verus!
