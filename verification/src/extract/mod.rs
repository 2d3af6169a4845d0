//! All that is told of a file: [`module`] puts it together from [`docs`], [`constants`], [`calls`]
//! and what the modules of the languages read of functions and classes.
pub mod c;
pub mod calls;
pub mod classes;
pub mod constants;
pub mod csharp;
pub mod docs;
pub mod elixir;
pub mod go;
pub mod java;
pub mod kotlin;
pub mod lua;
pub mod module;
pub mod ocaml;
pub mod php;
pub mod python;
pub mod ruby;
pub mod rust;
pub mod scala;
pub mod script;
pub mod swift;
