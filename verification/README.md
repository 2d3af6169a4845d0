# tldr_ast

What a source file holds, read off its syntax tree: functions, classes, methods, fields,
constants, imports, doc comments, definitions with their lines, and which function calls which.
Eighteen languages are read.

The library in `src/` is written in Verus. Every contract that concerns a tree is stated over
`NodeModel`, a position in the preorder of a tree, and says exactly what is found there.

- `tree.rs`, `walk.rs`, `scope.rs`: syntax trees as plain values, walking them, and what a node
  stands inside of
- `parser.rs`: parsing with tree-sitter, and the trusted calls into it
- `text.rs`: operations on text, and the trusted calls into std
- `names.rs`, `definitions.rs`, `finder.rs`: names, definitions, and finding a function by its name
- `imports/`, `extract/`: one file for each language
- `structure.rs`, `count.rs`: files and directories as a whole
- `laws.rs`: what holds of the library across functions

`app/` reads files and directories and hands them to the library as plain values.
