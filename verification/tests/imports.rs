use tldr_ast::{extract_imports_from_tree, parse, Language};

#[test]
fn test_c_include_system() {
    let source = "#include <stdio.h>";
    let tree = parse(source, Language::C).unwrap();
    let imports = extract_imports_from_tree(&tree, Language::C).unwrap();

    assert_eq!(imports.len(), 1);
    assert_eq!(imports[0].module, "stdio.h");
    assert!(
        imports[0].is_from,
        "System headers should have is_from=true"
    );
}

#[test]
fn test_c_include_local() {
    let source = r#"#include "local.h""#;
    let tree = parse(source, Language::C).unwrap();
    let imports = extract_imports_from_tree(&tree, Language::C).unwrap();

    assert_eq!(imports.len(), 1);
    assert_eq!(imports[0].module, "local.h");
    assert!(
        !imports[0].is_from,
        "Local headers should have is_from=false"
    );
}

#[test]
fn test_c_multiple_includes() {
    let source = r#"
#include <stdio.h>
#include <stdlib.h>
#include "myheader.h"
"#;
    let tree = parse(source, Language::C).unwrap();
    let imports = extract_imports_from_tree(&tree, Language::C).unwrap();

    assert_eq!(imports.len(), 3);
    let modules: Vec<&str> = imports.iter().map(|i| i.module.as_str()).collect();
    assert!(modules.contains(&"stdio.h"));
    assert!(modules.contains(&"stdlib.h"));
    assert!(modules.contains(&"myheader.h"));
}

#[test]
fn test_cpp_includes() {
    let source = r#"
#include <iostream>
#include <string>
#include "local.hpp"
"#;
    let tree = parse(source, Language::Cpp).unwrap();
    let imports = extract_imports_from_tree(&tree, Language::Cpp).unwrap();

    assert_eq!(imports.len(), 3);
    let modules: Vec<&str> = imports.iter().map(|i| i.module.as_str()).collect();
    assert!(modules.contains(&"iostream"));
    assert!(modules.contains(&"string"));
    assert!(modules.contains(&"local.hpp"));
}

#[test]
fn test_python_import() {
    let source = "import os";
    let tree = parse(source, Language::Python).unwrap();
    let imports = extract_imports_from_tree(&tree, Language::Python).unwrap();

    assert_eq!(imports.len(), 1);
    assert_eq!(imports[0].module, "os");
    assert!(!imports[0].is_from);
}

#[test]
fn test_python_from_import() {
    let source = "from typing import List, Optional";
    let tree = parse(source, Language::Python).unwrap();
    let imports = extract_imports_from_tree(&tree, Language::Python).unwrap();

    assert_eq!(imports.len(), 1);
    assert_eq!(imports[0].module, "typing");
    assert!(imports[0].is_from);
    assert!(imports[0].names.contains(&"List".to_string()));
    assert!(imports[0].names.contains(&"Optional".to_string()));
}

#[test]
fn test_typescript_import() {
    let source = "import { foo, bar } from './module';";
    let tree = parse(source, Language::TypeScript).unwrap();
    let imports = extract_imports_from_tree(&tree, Language::TypeScript).unwrap();

    assert_eq!(imports.len(), 1);
    assert_eq!(imports[0].module, "./module");
    assert!(imports[0].names.contains(&"foo".to_string()));
}

#[test]
fn test_go_import() {
    let source = r#"
package main

import "fmt"
"#;
    let tree = parse(source, Language::Go).unwrap();
    let imports = extract_imports_from_tree(&tree, Language::Go).unwrap();

    assert!(!imports.is_empty());
    assert!(imports.iter().any(|i| i.module == "fmt"));
}

#[test]
fn test_rust_use() {
    let source = "use std::collections::HashMap;";
    let tree = parse(source, Language::Rust).unwrap();
    let imports = extract_imports_from_tree(&tree, Language::Rust).unwrap();

    assert_eq!(imports.len(), 1);
    assert!(imports[0].module.contains("std::collections"));
}

#[test]
fn test_ruby_require_gem() {
    let source = "require 'json'";
    let tree = parse(source, Language::Ruby).unwrap();
    let imports = extract_imports_from_tree(&tree, Language::Ruby).unwrap();

    assert_eq!(imports.len(), 1);
    assert_eq!(imports[0].module, "json");
    assert!(
        !imports[0].is_from,
        "External gem require should have is_from=false"
    );
}

#[test]
fn test_ruby_require_relative() {
    let source = "require_relative './helper'";
    let tree = parse(source, Language::Ruby).unwrap();
    let imports = extract_imports_from_tree(&tree, Language::Ruby).unwrap();

    assert_eq!(imports.len(), 1);
    assert_eq!(imports[0].module, "./helper");
    assert!(
        imports[0].is_from,
        "require_relative should have is_from=true"
    );
}

#[test]
fn test_ruby_require_explicit_relative() {
    let source = "require './lib/util'";
    let tree = parse(source, Language::Ruby).unwrap();
    let imports = extract_imports_from_tree(&tree, Language::Ruby).unwrap();

    assert_eq!(imports.len(), 1);
    assert_eq!(imports[0].module, "./lib/util");
    assert!(
        imports[0].is_from,
        "Explicit relative require should have is_from=true"
    );
}

#[test]
fn test_ruby_multiple_requires() {
    let source = r##"
require 'json'
require 'net/http'
require_relative './local_module'
"##;
    let tree = parse(source, Language::Ruby).unwrap();
    let imports = extract_imports_from_tree(&tree, Language::Ruby).unwrap();

    assert_eq!(imports.len(), 3);
    let modules: Vec<&str> = imports.iter().map(|i| i.module.as_str()).collect();
    assert!(modules.contains(&"json"));
    assert!(modules.contains(&"net/http"));
    assert!(modules.contains(&"./local_module"));
}

// =========================================================================
// Elixir import tests
// =========================================================================

#[test]
fn test_elixir_import() {
    let source = "import Phoenix.Controller";
    let tree = parse(source, Language::Elixir).unwrap();
    let imports = extract_imports_from_tree(&tree, Language::Elixir).unwrap();

    assert_eq!(imports.len(), 1);
    assert_eq!(imports[0].module, "Phoenix.Controller");
    assert!(
        imports[0].is_from,
        "import should have is_from=true (imports all functions)"
    );
}

#[test]
fn test_elixir_alias_simple() {
    let source = "alias Phoenix.LiveView";
    let tree = parse(source, Language::Elixir).unwrap();
    let imports = extract_imports_from_tree(&tree, Language::Elixir).unwrap();

    assert_eq!(imports.len(), 1);
    assert_eq!(imports[0].module, "Phoenix.LiveView");
    // Simple alias uses last segment as short name
    assert_eq!(imports[0].alias, Some("LiveView".to_string()));
}

#[test]
fn test_elixir_alias_with_as() {
    let source = "alias Phoenix.LiveView, as: LV";
    let tree = parse(source, Language::Elixir).unwrap();
    let imports = extract_imports_from_tree(&tree, Language::Elixir).unwrap();

    assert_eq!(imports.len(), 1);
    assert_eq!(imports[0].module, "Phoenix.LiveView");
    assert_eq!(imports[0].alias, Some("LV".to_string()));
}

#[test]
fn test_elixir_require() {
    let source = "require Logger";
    let tree = parse(source, Language::Elixir).unwrap();
    let imports = extract_imports_from_tree(&tree, Language::Elixir).unwrap();

    assert_eq!(imports.len(), 1);
    assert_eq!(imports[0].module, "Logger");
}

#[test]
fn test_elixir_use() {
    let source = "use GenServer";
    let tree = parse(source, Language::Elixir).unwrap();
    let imports = extract_imports_from_tree(&tree, Language::Elixir).unwrap();

    assert_eq!(imports.len(), 1);
    assert_eq!(imports[0].module, "GenServer");
    assert!(
        imports[0].is_from,
        "use should have is_from=true (imports macros)"
    );
}

#[test]
fn test_elixir_multiple_imports() {
    let source = r#"import Phoenix.Controller
alias Phoenix.LiveView, as: LV
require Logger
use GenServer
"#;
    let tree = parse(source, Language::Elixir).unwrap();
    let imports = extract_imports_from_tree(&tree, Language::Elixir).unwrap();

    assert_eq!(imports.len(), 4);
    let modules: Vec<&str> = imports.iter().map(|i| i.module.as_str()).collect();
    assert!(modules.contains(&"Phoenix.Controller"));
    assert!(modules.contains(&"Phoenix.LiveView"));
    assert!(modules.contains(&"Logger"));
    assert!(modules.contains(&"GenServer"));
}

#[test]
fn test_elixir_imports_inside_defmodule() {
    let source = r#"defmodule MyApp.Router do
  alias Phoenix.Socket
  import Plug.Conn
  use Phoenix.Router
  require Logger
end"#;
    let tree = parse(source, Language::Elixir).unwrap();
    let imports = extract_imports_from_tree(&tree, Language::Elixir).unwrap();

    assert_eq!(
        imports.len(),
        4,
        "Should find all 4 imports inside defmodule"
    );
    let modules: Vec<&str> = imports.iter().map(|i| i.module.as_str()).collect();
    assert!(
        modules.contains(&"Phoenix.Socket"),
        "Should find alias Phoenix.Socket"
    );
    assert!(
        modules.contains(&"Plug.Conn"),
        "Should find import Plug.Conn"
    );
    assert!(
        modules.contains(&"Phoenix.Router"),
        "Should find use Phoenix.Router"
    );
    assert!(modules.contains(&"Logger"), "Should find require Logger");
}

// =========================================================================
// OCaml import tests
// =========================================================================

#[test]
fn test_ocaml_open() {
    let source = "open List";
    let tree = parse(source, Language::Ocaml).unwrap();
    let imports = extract_imports_from_tree(&tree, Language::Ocaml).unwrap();

    assert_eq!(imports.len(), 1);
    assert_eq!(imports[0].module, "List");
    assert!(
        imports[0].is_from,
        "open should have is_from=true (like import *)"
    );
}

#[test]
fn test_ocaml_module_alias() {
    let source = "module M = Hashtbl";
    let tree = parse(source, Language::Ocaml).unwrap();
    let imports = extract_imports_from_tree(&tree, Language::Ocaml).unwrap();

    assert_eq!(imports.len(), 1);
    assert_eq!(imports[0].module, "Hashtbl");
    assert_eq!(imports[0].alias, Some("M".to_string()));
}

#[test]
fn test_ocaml_include() {
    let source = "include Set";
    let tree = parse(source, Language::Ocaml).unwrap();
    let imports = extract_imports_from_tree(&tree, Language::Ocaml).unwrap();

    assert_eq!(imports.len(), 1);
    assert_eq!(imports[0].module, "Set");
    assert!(imports[0].is_from, "include should have is_from=true");
}

#[test]
fn test_ocaml_multiple_imports() {
    let source = r#"open List
module M = Hashtbl
include Set
"#;
    let tree = parse(source, Language::Ocaml).unwrap();
    let imports = extract_imports_from_tree(&tree, Language::Ocaml).unwrap();

    assert_eq!(imports.len(), 3);
    let modules: Vec<&str> = imports.iter().map(|i| i.module.as_str()).collect();
    assert!(modules.contains(&"List"));
    assert!(modules.contains(&"Hashtbl"));
    assert!(modules.contains(&"Set"));
}

#[test]
fn test_ocaml_nested_module() {
    let source = "open Stdlib.Map";
    let tree = parse(source, Language::Ocaml).unwrap();
    let imports = extract_imports_from_tree(&tree, Language::Ocaml).unwrap();

    assert_eq!(imports.len(), 1);
    assert_eq!(imports[0].module, "Stdlib.Map");
}

#[test]
fn test_ocaml_open_inside_module() {
    let source = r#"module M = struct
  open List
  open Hashtbl
end"#;
    let tree = parse(source, Language::Ocaml).unwrap();
    let imports = extract_imports_from_tree(&tree, Language::Ocaml).unwrap();

    assert_eq!(
        imports.len(),
        2,
        "Should find 2 open statements inside module struct"
    );
    let modules: Vec<&str> = imports.iter().map(|i| i.module.as_str()).collect();
    assert!(modules.contains(&"List"), "Should find open List");
    assert!(modules.contains(&"Hashtbl"), "Should find open Hashtbl");
}

// =========================================================================
// PHP import tests
// =========================================================================

#[test]
fn test_php_use_simple() {
    let source = "<?php\nuse App\\Models\\User;";
    let tree = parse(source, Language::Php).unwrap();
    let imports = extract_imports_from_tree(&tree, Language::Php).unwrap();

    assert_eq!(imports.len(), 1);
    assert_eq!(imports[0].module, "App\\Models\\User");
}

#[test]
fn test_php_use_alias() {
    let source = "<?php\nuse App\\Models\\User as UserModel;";
    let tree = parse(source, Language::Php).unwrap();
    let imports = extract_imports_from_tree(&tree, Language::Php).unwrap();

    assert_eq!(imports.len(), 1);
    assert_eq!(imports[0].module, "App\\Models\\User");
    assert_eq!(imports[0].alias, Some("UserModel".to_string()));
}

#[test]
fn test_php_require() {
    let source = "<?php\nrequire 'config.php';";
    let tree = parse(source, Language::Php).unwrap();
    let imports = extract_imports_from_tree(&tree, Language::Php).unwrap();

    assert_eq!(imports.len(), 1);
    assert_eq!(imports[0].module, "config.php");
    assert!(imports[0].is_from, "require should have is_from=true");
}

#[test]
fn test_php_require_once() {
    let source = "<?php\nrequire_once 'autoload.php';";
    let tree = parse(source, Language::Php).unwrap();
    let imports = extract_imports_from_tree(&tree, Language::Php).unwrap();

    assert_eq!(imports.len(), 1);
    assert_eq!(imports[0].module, "autoload.php");
    assert_eq!(
        imports[0].alias,
        Some("once".to_string()),
        "require_once should have alias='once'"
    );
}

#[test]
fn test_php_multiple_imports() {
    let source = r#"<?php
use App\Models\User;
use App\Models\Post as BlogPost;
require_once 'vendor/autoload.php';
"#;
    let tree = parse(source, Language::Php).unwrap();
    let imports = extract_imports_from_tree(&tree, Language::Php).unwrap();

    assert!(
        imports.len() >= 3,
        "Expected at least 3 imports, got {}",
        imports.len()
    );
}

// =========================================================================
// Lua imports
// =========================================================================

/// Test: Lua standard require with parentheses
/// `local socket = require("socket")`
#[test]
fn test_lua_require_standard() {
    let source = r#"local socket = require("socket")"#;
    let tree = parse(source, Language::Lua).unwrap();
    let imports = extract_imports_from_tree(&tree, Language::Lua).unwrap();

    assert_eq!(imports.len(), 1, "Expected 1 import, got {}", imports.len());
    assert_eq!(imports[0].module, "socket");
}

/// Test: Lua require without parentheses
/// `local dict = require"socket.dict"`
#[test]
fn test_lua_require_no_parens() {
    let source = r#"local dict = require"socket.dict""#;
    let tree = parse(source, Language::Lua).unwrap();
    let imports = extract_imports_from_tree(&tree, Language::Lua).unwrap();

    assert_eq!(imports.len(), 1, "Expected 1 import, got {}", imports.len());
    assert_eq!(imports[0].module, "socket.dict");
}

/// Test: Lua require with space before string (no parens)
/// `local mime = require "mime"`
#[test]
fn test_lua_require_space_string() {
    let source = r#"local mime = require "mime""#;
    let tree = parse(source, Language::Lua).unwrap();
    let imports = extract_imports_from_tree(&tree, Language::Lua).unwrap();

    assert_eq!(imports.len(), 1, "Expected 1 import, got {}", imports.len());
    assert_eq!(imports[0].module, "mime");
}

/// Test: Lua local require with nested module path
/// `local http = require("socket.http")`
#[test]
fn test_lua_require_local() {
    let source = r#"local http = require("socket.http")"#;
    let tree = parse(source, Language::Lua).unwrap();
    let imports = extract_imports_from_tree(&tree, Language::Lua).unwrap();

    assert_eq!(imports.len(), 1, "Expected 1 import, got {}", imports.len());
    assert_eq!(imports[0].module, "socket.http");
}

/// Test: Multiple Lua requires in a file
#[test]
fn test_lua_multiple_requires() {
    let source = r#"
local socket = require("socket")
local url = require("socket.url")
local ltn12 = require("ltn12")
local mime = require("mime")
"#;
    let tree = parse(source, Language::Lua).unwrap();
    let imports = extract_imports_from_tree(&tree, Language::Lua).unwrap();

    assert!(
        imports.len() >= 4,
        "Expected at least 4 imports, got {}",
        imports.len()
    );
    let modules: Vec<&str> = imports.iter().map(|i| i.module.as_str()).collect();
    assert!(modules.contains(&"socket"), "Missing 'socket' import");
    assert!(
        modules.contains(&"socket.url"),
        "Missing 'socket.url' import"
    );
    assert!(modules.contains(&"ltn12"), "Missing 'ltn12' import");
    assert!(modules.contains(&"mime"), "Missing 'mime' import");
}
