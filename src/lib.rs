//! `Zom` is a collection for zero, one or many elements. It is meant for
//! places where zero or one item is the usual case: those two cases are held
//! inline, and only the many case allocates.

mod impls;
mod into_iter;
pub mod laws;
mod std_calls;
mod zom;

pub use impls::lex_partial_cmp;
pub use into_iter::IntoIter;
pub use zom::Zom;
