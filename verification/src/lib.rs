//! What a source file holds, read off its syntax tree.
//!
//! For eighteen languages the library tells the functions, classes, methods, fields, constants,
//! imports and definitions of a file, finds functions by their names, and tells which functions
//! of a file call which. Files and directories are handed over as plain values: reading them is
//! left to the program round the library.
//!
//! Trees come from [`parser`] and are plain values too, see [`tree`]; [`walk`] and [`scope`] look
//! around in them, and [`text`] holds what is needed of strings. [`names`] and [`definitions`]
//! list what a tree defines, [`finder`] looks a function up, [`imports`] reads imports, [`extract`]
//! tells all of a file, [`structure`] the structure of a directory, and [`count`] counts. [`laws`]
//! states what holds of them together.
pub mod count;
pub mod definitions;
pub mod extract;
pub mod finder;
pub mod imports;
pub mod laws;
pub mod names;
pub mod parser;
pub mod scope;
pub mod structure;
pub mod text;
pub mod tree;
pub mod types;
pub mod walk;

pub use count::{collect_module_infos, count_functions_canonical, count_functions_canonical_from_modules, Sources};
pub use definitions::{classify_definition_node, extract_definitions};
pub use extract::calls::{build_intra_file_call_graph, CallEntry, CallTable, IntraFileCallGraph};
pub use extract::constants::extract_module_constants;
pub use extract::docs::{extract_module_docstring, parse_block_doc_comment};
pub use extract::module::{
    extract_classes_detailed, extract_file, extract_file_with_lang, extract_from_tree, extract_functions_detailed,
};
pub use finder::{
    find_function_node, get_function_body, get_function_name, get_function_node_kinds, get_function_node_kinds_vec,
};
pub use imports::kotlin::{find_kotlin_as_split, parse_kotlin_import_text};
pub use imports::php::parse_php_use_alias;
pub use imports::scala::parse_scala_import_text;
pub use imports::swift::parse_swift_import_text;
pub use imports::{extract_imports_from_tree, get_imports};
pub use names::{extract_classes, extract_functions, extract_methods};
pub use parser::{parse, parse_dialect, parse_file_with_lang};
pub use structure::{extract_file_structure, get_code_structure, Scan};
pub use text::is_upper_case_name;
pub use tree::{FieldLink, Node, Record, SyntaxTree};
pub use types::{
    BasePath, ClassInfo, CodeStructure, DefinitionInfo, FieldInfo, FileStructure, FunctionInfo, ImportInfo, Language,
    MethodInfo, ModuleInfo, PathParts, SourceFile, TldrError, TldrResult,
};
