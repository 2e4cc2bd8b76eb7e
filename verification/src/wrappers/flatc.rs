//! The FlatBuffers compiler: target languages, C++ standard choices, the
//! full option set, and the exact command line each option set maps to.

use vstd::prelude::*;
use crate::Error;
use crate::wrappers::command::{
    Invocation, args_view, flag_contrib, flag_seg, lemma_args_view_concat,
    lemma_tok_count_concat, lemma_tok_count_flag_seg, lemma_tok_count_list_seg,
    lemma_tok_count_opt_seg, lemma_tok_count_pair, lemma_tok_count_single, lemma_tok_count_zero,
    list_contrib, list_seg, opt_contrib, opt_seg, push_arg, push_all, push_flag, push_list,
    push_opt, tok_count,
};

verus! {

/// A compiler bound to a binary that was present when it was constructed.
pub struct FlatC {
    binary: String,
}

impl View for FlatC {
    type V = Seq<char>;

    /// The compiler is characterised by the binary path it is bound to.
    closed spec fn view(&self) -> Seq<char> {
        self.binary@
    }
}

/// A code-generation target; each maps one-to-one to a compiler flag.
#[derive(Debug, Clone, Copy, PartialEq, Eq, Structural)]
pub enum Language {
    Cpp,
    Java,
    Kotlin,
    KotlinKmp,
    CSharp,
    Go,
    Python,
    JavaScript,
    TypeScript,
    Php,
    Dart,
    Lua,
    Lobster,
    Rust,
    Swift,
    Nim,
}

/// The C++ standard the generated code targets.
#[derive(Debug, Clone, Copy, PartialEq, Eq, Structural)]
pub enum CppStd {
    Cpp0x,
    Cpp11,
    Cpp17,
}

/// The flag a target language maps to.
pub open spec fn lang_flag(l: Language) -> Seq<char> {
    match l {
        Language::Cpp => "--cpp"@,
        Language::Java => "--java"@,
        Language::Kotlin => "--kotlin"@,
        Language::KotlinKmp => "--kotlin-kmp"@,
        Language::CSharp => "--csharp"@,
        Language::Go => "--go"@,
        Language::Python => "--python"@,
        Language::JavaScript => "--js"@,
        Language::TypeScript => "--ts"@,
        Language::Php => "--php"@,
        Language::Dart => "--dart"@,
        Language::Lua => "--lua"@,
        Language::Lobster => "--lobster"@,
        Language::Rust => "--rust"@,
        Language::Swift => "--swift"@,
        Language::Nim => "--nim"@,
    }
}

/// The token a C++ standard maps to.
pub open spec fn cpp_std_token(c: CppStd) -> Seq<char> {
    match c {
        CppStd::Cpp0x => "c++0x"@,
        CppStd::Cpp11 => "c++11"@,
        CppStd::Cpp17 => "c++17"@,
    }
}

/// One bare flag per requested language, in order.
pub open spec fn langs_seg(ls: Seq<Language>) -> Seq<Seq<char>>
    decreases ls.len(),
{
    if ls.len() == 0 {
        seq![]
    } else {
        seq![lang_flag(ls[0])] + langs_seg(ls.drop_first())
    }
}

/// The `--cpp-std` pair when a standard is chosen, nothing otherwise.
pub open spec fn cpp_std_seg(c: Option<CppStd>) -> Seq<Seq<char>> {
    match c {
        Option::Some(std_choice) => seq!["--cpp-std"@, cpp_std_token(std_choice)],
        Option::None => seq![],
    }
}

/// Binary input files are separated from schema files by a lone `--`.
pub open spec fn bin_files_seg(bf: Seq<Seq<char>>) -> Seq<Seq<char>> {
    if bf.len() == 0 {
        seq![]
    } else {
        seq!["--"@] + bf
    }
}

/// Everything the compiler can be told. `url` and `binary_name` configure
/// fetching and extraction; the rest become command-line flags.
#[derive(Debug)]
pub struct FlatCOptions {
    pub url: Option<String>,
    pub binary_name: Option<String>,
    pub languages: Vec<Language>,
    pub grpc: bool,
    pub output_path: Option<String>,
    pub include_paths: Vec<String>,
    pub binary: bool,
    pub json: bool,
    pub jsonschema: bool,
    pub strict_json: bool,
    pub allow_non_utf8: bool,
    pub natural_utf8: bool,
    pub defaults_json: bool,
    pub unknown_json: bool,
    pub no_prefix: bool,
    pub scoped_enums: bool,
    pub no_emit_min_max_enum_values: bool,
    pub swift_implementation_only: bool,
    pub no_includes: bool,
    pub gen_mutable: bool,
    pub gen_onefile: bool,
    pub gen_name_strings: bool,
    pub gen_object_api: bool,
    pub gen_compare: bool,
    pub gen_nullable: bool,
    pub java_package_prefix: Option<String>,
    pub java_checkerframework: bool,
    pub gen_generated: bool,
    pub gen_jvmstatic: bool,
    pub gen_all: bool,
    pub gen_json_emit: bool,
    pub cpp_include: Vec<String>,
    pub cpp_ptr_type: Option<String>,
    pub cpp_str_type: Option<String>,
    pub cpp_str_flex_ctor: bool,
    pub cpp_field_case_style: Option<String>,
    pub no_cpp_direct_copy: bool,
    pub cpp_std: Option<CppStd>,
    pub cpp_static_reflection: bool,
    pub object_prefix: Option<String>,
    pub object_suffix: Option<String>,
    pub go_namespace: Option<String>,
    pub go_import: Option<String>,
    pub go_module_name: Option<String>,
    pub raw_binary: bool,
    pub size_prefixed: bool,
    pub proto: bool,
    pub proto_namespace_suffix: Option<String>,
    pub oneof_union: bool,
    pub keep_proto_id: bool,
    pub proto_id_gap: Option<String>,
    pub schema: bool,
    pub bfbs_filenames: Option<String>,
    pub bfbs_absolute_paths: bool,
    pub bfbs_comments: bool,
    pub bfbs_builtins: bool,
    pub bfbs_gen_embed: bool,
    pub conform: Option<String>,
    pub conform_includes: Vec<String>,
    pub filename_suffix: Option<String>,
    pub filename_ext: Option<String>,
    pub include_prefix: Option<String>,
    pub keep_prefix: bool,
    pub reflect_types: bool,
    pub reflect_names: bool,
    pub rust_serialize: bool,
    pub rust_module_root_file: bool,
    pub root_type: Option<String>,
    pub require_explicit_ids: bool,
    pub force_defaults: bool,
    pub force_empty: bool,
    pub force_empty_vectors: bool,
    pub flexbuffers: bool,
    pub no_warnings: bool,
    pub warnings_as_errors: bool,
    pub cs_global_alias: bool,
    pub cs_gen_json_serializer: bool,
    pub json_nested_bytes: bool,
    pub ts_flat_files: bool,
    pub ts_entry_points: bool,
    pub annotate_sparse_vectors: bool,
    pub annotate: Option<String>,
    pub no_leak_private_annotation: bool,
    pub python_no_type_prefix_suffix: bool,
    pub python_typing: bool,
    pub python_version: Option<String>,
    pub python_gen_numpy: bool,
    pub ts_omit_entrypoint: bool,
    pub file_names_only: bool,
    pub grpc_filename_suffix: Option<String>,
    pub grpc_additional_header: Vec<String>,
    pub grpc_search_path: Option<String>,
    pub grpc_use_system_headers: bool,
    pub grpc_python_typed_handlers: bool,
}

/// Every field at its built-in default: unset, false or empty. An option set
/// in this state maps to an empty flag list.
pub open spec fn flatc_defaults(o: FlatCOptions) -> bool {
    &&& o.url is None
    &&& o.binary_name is None
    &&& o.languages@ == Seq::<Language>::empty()
    &&& o.grpc == false
    &&& o.output_path is None
    &&& o.include_paths@ == Seq::<String>::empty()
    &&& o.binary == false
    &&& o.json == false
    &&& o.jsonschema == false
    &&& o.strict_json == false
    &&& o.allow_non_utf8 == false
    &&& o.natural_utf8 == false
    &&& o.defaults_json == false
    &&& o.unknown_json == false
    &&& o.no_prefix == false
    &&& o.scoped_enums == false
    &&& o.no_emit_min_max_enum_values == false
    &&& o.swift_implementation_only == false
    &&& o.no_includes == false
    &&& o.gen_mutable == false
    &&& o.gen_onefile == false
    &&& o.gen_name_strings == false
    &&& o.gen_object_api == false
    &&& o.gen_compare == false
    &&& o.gen_nullable == false
    &&& o.java_package_prefix is None
    &&& o.java_checkerframework == false
    &&& o.gen_generated == false
    &&& o.gen_jvmstatic == false
    &&& o.gen_all == false
    &&& o.gen_json_emit == false
    &&& o.cpp_include@ == Seq::<String>::empty()
    &&& o.cpp_ptr_type is None
    &&& o.cpp_str_type is None
    &&& o.cpp_str_flex_ctor == false
    &&& o.cpp_field_case_style is None
    &&& o.no_cpp_direct_copy == false
    &&& o.cpp_std is None
    &&& o.cpp_static_reflection == false
    &&& o.object_prefix is None
    &&& o.object_suffix is None
    &&& o.go_namespace is None
    &&& o.go_import is None
    &&& o.go_module_name is None
    &&& o.raw_binary == false
    &&& o.size_prefixed == false
    &&& o.proto == false
    &&& o.proto_namespace_suffix is None
    &&& o.oneof_union == false
    &&& o.keep_proto_id == false
    &&& o.proto_id_gap is None
    &&& o.schema == false
    &&& o.bfbs_filenames is None
    &&& o.bfbs_absolute_paths == false
    &&& o.bfbs_comments == false
    &&& o.bfbs_builtins == false
    &&& o.bfbs_gen_embed == false
    &&& o.conform is None
    &&& o.conform_includes@ == Seq::<String>::empty()
    &&& o.filename_suffix is None
    &&& o.filename_ext is None
    &&& o.include_prefix is None
    &&& o.keep_prefix == false
    &&& o.reflect_types == false
    &&& o.reflect_names == false
    &&& o.rust_serialize == false
    &&& o.rust_module_root_file == false
    &&& o.root_type is None
    &&& o.require_explicit_ids == false
    &&& o.force_defaults == false
    &&& o.force_empty == false
    &&& o.force_empty_vectors == false
    &&& o.flexbuffers == false
    &&& o.no_warnings == false
    &&& o.warnings_as_errors == false
    &&& o.cs_global_alias == false
    &&& o.cs_gen_json_serializer == false
    &&& o.json_nested_bytes == false
    &&& o.ts_flat_files == false
    &&& o.ts_entry_points == false
    &&& o.annotate_sparse_vectors == false
    &&& o.annotate is None
    &&& o.no_leak_private_annotation == false
    &&& o.python_no_type_prefix_suffix == false
    &&& o.python_typing == false
    &&& o.python_version is None
    &&& o.python_gen_numpy == false
    &&& o.ts_omit_entrypoint == false
    &&& o.file_names_only == false
    &&& o.grpc_filename_suffix is None
    &&& o.grpc_additional_header@ == Seq::<String>::empty()
    &&& o.grpc_search_path is None
    &&& o.grpc_use_system_headers == false
    &&& o.grpc_python_typed_handlers == false
}

impl Default for FlatCOptions {
    /// All options unset: no flag is emitted for any of them.
    fn default() -> (r: Self)
        ensures
            flatc_defaults(r),
    {
        FlatCOptions {
            url: Option::None,
            binary_name: Option::None,
            languages: Vec::new(),
            grpc: false,
            output_path: Option::None,
            include_paths: Vec::new(),
            binary: false,
            json: false,
            jsonschema: false,
            strict_json: false,
            allow_non_utf8: false,
            natural_utf8: false,
            defaults_json: false,
            unknown_json: false,
            no_prefix: false,
            scoped_enums: false,
            no_emit_min_max_enum_values: false,
            swift_implementation_only: false,
            no_includes: false,
            gen_mutable: false,
            gen_onefile: false,
            gen_name_strings: false,
            gen_object_api: false,
            gen_compare: false,
            gen_nullable: false,
            java_package_prefix: Option::None,
            java_checkerframework: false,
            gen_generated: false,
            gen_jvmstatic: false,
            gen_all: false,
            gen_json_emit: false,
            cpp_include: Vec::new(),
            cpp_ptr_type: Option::None,
            cpp_str_type: Option::None,
            cpp_str_flex_ctor: false,
            cpp_field_case_style: Option::None,
            no_cpp_direct_copy: false,
            cpp_std: Option::None,
            cpp_static_reflection: false,
            object_prefix: Option::None,
            object_suffix: Option::None,
            go_namespace: Option::None,
            go_import: Option::None,
            go_module_name: Option::None,
            raw_binary: false,
            size_prefixed: false,
            proto: false,
            proto_namespace_suffix: Option::None,
            oneof_union: false,
            keep_proto_id: false,
            proto_id_gap: Option::None,
            schema: false,
            bfbs_filenames: Option::None,
            bfbs_absolute_paths: false,
            bfbs_comments: false,
            bfbs_builtins: false,
            bfbs_gen_embed: false,
            conform: Option::None,
            conform_includes: Vec::new(),
            filename_suffix: Option::None,
            filename_ext: Option::None,
            include_prefix: Option::None,
            keep_prefix: false,
            reflect_types: false,
            reflect_names: false,
            rust_serialize: false,
            rust_module_root_file: false,
            root_type: Option::None,
            require_explicit_ids: false,
            force_defaults: false,
            force_empty: false,
            force_empty_vectors: false,
            flexbuffers: false,
            no_warnings: false,
            warnings_as_errors: false,
            cs_global_alias: false,
            cs_gen_json_serializer: false,
            json_nested_bytes: false,
            ts_flat_files: false,
            ts_entry_points: false,
            annotate_sparse_vectors: false,
            annotate: Option::None,
            no_leak_private_annotation: false,
            python_no_type_prefix_suffix: false,
            python_typing: false,
            python_version: Option::None,
            python_gen_numpy: false,
            ts_omit_entrypoint: false,
            file_names_only: false,
            grpc_filename_suffix: Option::None,
            grpc_additional_header: Vec::new(),
            grpc_search_path: Option::None,
            grpc_use_system_headers: false,
            grpc_python_typed_handlers: false,
        }
    }
}

/// Languages, gRPC, output and include paths, and the output-kind flags.
pub open spec fn flatc_args_io(o: FlatCOptions) -> Seq<Seq<char>> {
    langs_seg(o.languages@) + flag_seg("--grpc"@, o.grpc) + opt_seg("-o"@, o.output_path)
        + list_seg("-I"@, args_view(o.include_paths@)) + flag_seg("--binary"@, o.binary) + flag_seg(
        "--json"@,
        o.json,
    ) + flag_seg("--jsonschema"@, o.jsonschema)
}

/// The JSON-shape and naming flags.
pub open spec fn flatc_args_json(o: FlatCOptions) -> Seq<Seq<char>> {
    flag_seg("--strict-json"@, o.strict_json) + flag_seg("--allow-non-utf8"@, o.allow_non_utf8)
        + flag_seg("--natural-utf8"@, o.natural_utf8) + flag_seg(
        "--defaults-json"@,
        o.defaults_json,
    ) + flag_seg("--unknown-json"@, o.unknown_json) + flag_seg("--no-prefix"@, o.no_prefix)
        + flag_seg("--scoped-enums"@, o.scoped_enums) + flag_seg(
        "--no-emit-min-max-enum-values"@,
        o.no_emit_min_max_enum_values,
    ) + flag_seg("--swift-implementation-only"@, o.swift_implementation_only) + flag_seg(
        "--no-includes"@,
        o.no_includes,
    )
}

/// The general code-generation flags.
pub open spec fn flatc_args_gen(o: FlatCOptions) -> Seq<Seq<char>> {
    flag_seg("--gen-mutable"@, o.gen_mutable) + flag_seg("--gen-onefile"@, o.gen_onefile)
        + flag_seg("--gen-name-strings"@, o.gen_name_strings) + flag_seg(
        "--gen-object-api"@,
        o.gen_object_api,
    ) + flag_seg("--gen-compare"@, o.gen_compare) + flag_seg("--gen-nullable"@, o.gen_nullable)
        + opt_seg("--java-package-prefix"@, o.java_package_prefix) + flag_seg(
        "--java-checkerframework"@,
        o.java_checkerframework,
    ) + flag_seg("--gen-generated"@, o.gen_generated) + flag_seg(
        "--gen-jvmstatic"@,
        o.gen_jvmstatic,
    ) + flag_seg("--gen-all"@, o.gen_all) + flag_seg("--gen-json-emit"@, o.gen_json_emit)
}

/// The C++-specific options.
pub open spec fn flatc_args_cpp(o: FlatCOptions) -> Seq<Seq<char>> {
    list_seg("--cpp-include"@, args_view(o.cpp_include@)) + opt_seg(
        "--cpp-ptr-type"@,
        o.cpp_ptr_type,
    ) + opt_seg("--cpp-str-type"@, o.cpp_str_type) + flag_seg(
        "--cpp-str-flex-ctor"@,
        o.cpp_str_flex_ctor,
    ) + opt_seg("--cpp-field-case-style"@, o.cpp_field_case_style) + flag_seg(
        "--no-cpp-direct-copy"@,
        o.no_cpp_direct_copy,
    ) + cpp_std_seg(o.cpp_std) + flag_seg("--cpp-static-reflection"@, o.cpp_static_reflection)
        + opt_seg("--object-prefix"@, o.object_prefix) + opt_seg("--object-suffix"@, o.object_suffix)
}

/// The Go and Protobuf options.
pub open spec fn flatc_args_go_proto(o: FlatCOptions) -> Seq<Seq<char>> {
    opt_seg("--go-namespace"@, o.go_namespace) + opt_seg("--go-import"@, o.go_import) + opt_seg(
        "--go-module-name"@,
        o.go_module_name,
    ) + flag_seg("--raw-binary"@, o.raw_binary) + flag_seg("--size-prefixed"@, o.size_prefixed)
        + flag_seg("--proto"@, o.proto) + opt_seg(
        "--proto-namespace-suffix"@,
        o.proto_namespace_suffix,
    ) + flag_seg("--oneof-union"@, o.oneof_union) + flag_seg("--keep-proto-id"@, o.keep_proto_id)
        + opt_seg("--proto-id-gap"@, o.proto_id_gap) + flag_seg("--schema"@, o.schema)
}

/// The binary-schema and conformance options.
pub open spec fn flatc_args_bfbs(o: FlatCOptions) -> Seq<Seq<char>> {
    opt_seg("--bfbs-filenames"@, o.bfbs_filenames) + flag_seg(
        "--bfbs-absolute-paths"@,
        o.bfbs_absolute_paths,
    ) + flag_seg("--bfbs-comments"@, o.bfbs_comments) + flag_seg(
        "--bfbs-builtins"@,
        o.bfbs_builtins,
    ) + flag_seg("--bfbs-gen-embed"@, o.bfbs_gen_embed) + opt_seg("--conform"@, o.conform)
        + list_seg("--conform-includes"@, args_view(o.conform_includes@)) + opt_seg(
        "--filename-suffix"@,
        o.filename_suffix,
    ) + opt_seg("--filename-ext"@, o.filename_ext) + opt_seg("--include-prefix"@, o.include_prefix)
        + flag_seg("--keep-prefix"@, o.keep_prefix)
}

/// The reflection, Rust and strictness options.
pub open spec fn flatc_args_strict(o: FlatCOptions) -> Seq<Seq<char>> {
    flag_seg("--reflect-types"@, o.reflect_types) + flag_seg("--reflect-names"@, o.reflect_names)
        + flag_seg("--rust-serialize"@, o.rust_serialize) + flag_seg(
        "--rust-module-root-file"@,
        o.rust_module_root_file,
    ) + opt_seg("--root-type"@, o.root_type) + flag_seg(
        "--require-explicit-ids"@,
        o.require_explicit_ids,
    ) + flag_seg("--force-defaults"@, o.force_defaults) + flag_seg("--force-empty"@, o.force_empty)
        + flag_seg("--force-empty-vectors"@, o.force_empty_vectors) + flag_seg(
        "--flexbuffers"@,
        o.flexbuffers,
    ) + flag_seg("--no-warnings"@, o.no_warnings) + flag_seg(
        "--warnings-as-errors"@,
        o.warnings_as_errors,
    )
}

/// The C#, TypeScript, annotation and Python options.
pub open spec fn flatc_args_misc(o: FlatCOptions) -> Seq<Seq<char>> {
    flag_seg("--cs-global-alias"@, o.cs_global_alias) + flag_seg(
        "--cs-gen-json-serializer"@,
        o.cs_gen_json_serializer,
    ) + flag_seg("--json-nested-bytes"@, o.json_nested_bytes) + flag_seg(
        "--ts-flat-files"@,
        o.ts_flat_files,
    ) + flag_seg("--ts-entry-points"@, o.ts_entry_points) + flag_seg(
        "--annotate-sparse-vectors"@,
        o.annotate_sparse_vectors,
    ) + opt_seg("--annotate"@, o.annotate) + flag_seg(
        "--no-leak-private-annotation"@,
        o.no_leak_private_annotation,
    ) + flag_seg("--python-no-type-prefix-suffix"@, o.python_no_type_prefix_suffix) + flag_seg(
        "--python-typing"@,
        o.python_typing,
    ) + opt_seg("--python-version"@, o.python_version) + flag_seg(
        "--python-gen-numpy"@,
        o.python_gen_numpy,
    ) + flag_seg("--ts-omit-entrypoint"@, o.ts_omit_entrypoint) + flag_seg(
        "--file-names-only"@,
        o.file_names_only,
    )
}

/// The gRPC options.
pub open spec fn flatc_args_grpc(o: FlatCOptions) -> Seq<Seq<char>> {
    opt_seg("--grpc-filename-suffix"@, o.grpc_filename_suffix) + list_seg(
        "--grpc-additional-header"@,
        args_view(o.grpc_additional_header@),
    ) + opt_seg("--grpc-search-path"@, o.grpc_search_path) + flag_seg(
        "--grpc-use-system-headers"@,
        o.grpc_use_system_headers,
    ) + flag_seg("--grpc-python-typed-handlers"@, o.grpc_python_typed_handlers)
}

/// Every option's flags, in the fixed emission order.
pub open spec fn flatc_opts_args(o: FlatCOptions) -> Seq<Seq<char>> {
    flatc_args_io(o) + flatc_args_json(o) + flatc_args_gen(o) + flatc_args_cpp(o)
        + flatc_args_go_proto(o) + flatc_args_bfbs(o) + flatc_args_strict(o) + flatc_args_misc(o)
        + flatc_args_grpc(o)
}

/// The complete argument list: every populated option exactly once, then the
/// input files, then — only when there are binary files — a `--` separator
/// and the binary files.
pub open spec fn flatc_args_spec(
    o: FlatCOptions,
    files: Seq<Seq<char>>,
    binary_files: Seq<Seq<char>>,
) -> Seq<Seq<char>> {
    flatc_opts_args(o) + files + bin_files_seg(binary_files)
}

/// The flag a target language maps to, as a literal.
pub fn lang_arg(l: Language) -> (r: &'static str)
    ensures
        r@ == lang_flag(l),
{
    match l {
        Language::Cpp => "--cpp",
        Language::Java => "--java",
        Language::Kotlin => "--kotlin",
        Language::KotlinKmp => "--kotlin-kmp",
        Language::CSharp => "--csharp",
        Language::Go => "--go",
        Language::Python => "--python",
        Language::JavaScript => "--js",
        Language::TypeScript => "--ts",
        Language::Php => "--php",
        Language::Dart => "--dart",
        Language::Lua => "--lua",
        Language::Lobster => "--lobster",
        Language::Rust => "--rust",
        Language::Swift => "--swift",
        Language::Nim => "--nim",
    }
}

/// The token a C++ standard maps to, as a literal.
pub fn cpp_std_arg(c: CppStd) -> (r: &'static str)
    ensures
        r@ == cpp_std_token(c),
{
    match c {
        CppStd::Cpp0x => "c++0x",
        CppStd::Cpp11 => "c++11",
        CppStd::Cpp17 => "c++17",
    }
}

/// A copy of a language vector whose view is provably unchanged.
pub fn clone_vec_lang(v: &Vec<Language>) -> (r: Vec<Language>)
    ensures
        r@ == v@,
{
    let mut r: Vec<Language> = Vec::new();
    let mut i: usize = 0;
    while i < v.len()
        invariant
            i <= v.len(),
            r@ =~= v@.subrange(0, i as int),
        decreases v.len() - i,
    {
        r.push(v[i]);
        i = i + 1;
    }
    proof {
        assert(r@ =~= v@);
    }
    r
}

/// Splitting the language flags at the first language.
proof fn lemma_langs_seg_step(ls: Seq<Language>, i: int)
    requires
        0 <= i < ls.len(),
    ensures
        langs_seg(ls.skip(i)) == seq![lang_flag(ls[i])] + langs_seg(ls.skip(i + 1)),
{
    assert(ls.skip(i).len() > 0);
    assert(ls.skip(i)[0] == ls[i]);
    assert(ls.skip(i).drop_first() =~= ls.skip(i + 1));
}

/// Appends one bare flag per requested language.
fn push_langs(args: &mut Vec<String>, langs: &Vec<Language>)
    ensures
        args_view(final(args)@) == args_view(old(args)@) + langs_seg(langs@),
{
    proof {
        assert(langs@.skip(0) =~= langs@);
    }
    let mut i: usize = 0;
    while i < langs.len()
        invariant
            i <= langs.len(),
            args_view(args@) + langs_seg(langs@.skip(i as int)) == args_view(old(args)@)
                + langs_seg(langs@),
        decreases langs.len() - i,
    {
        proof {
            lemma_langs_seg_step(langs@, i as int);
        }
        push_arg(args, lang_arg(langs[i]));
        i = i + 1;
    }
    proof {
        assert(langs@.skip(langs@.len() as int) =~= Seq::<Language>::empty());
    }
}

/// Appends the `--cpp-std` pair when a standard is chosen.
fn push_cpp_std(args: &mut Vec<String>, c: &Option<CppStd>)
    ensures
        args_view(final(args)@) == args_view(old(args)@) + cpp_std_seg(*c),
{
    match c {
        Option::Some(std_choice) => {
            push_arg(args, "--cpp-std");
            push_arg(args, cpp_std_arg(*std_choice));
        },
        Option::None => {},
    }
    proof {
        assert(args_view(args@) =~= args_view(old(args)@) + cpp_std_seg(*c));
    }
}

/// Builds the language/output/include group.
fn flatc_io_args(o: &FlatCOptions) -> (v: Vec<String>)
    ensures
        args_view(v@) == flatc_args_io(*o),
{
    let mut args: Vec<String> = Vec::new();
    push_langs(&mut args, &o.languages);
    push_flag(&mut args, o.grpc, "--grpc");
    push_opt(&mut args, &o.output_path, "-o");
    push_list(&mut args, "-I", &o.include_paths);
    push_flag(&mut args, o.binary, "--binary");
    push_flag(&mut args, o.json, "--json");
    push_flag(&mut args, o.jsonschema, "--jsonschema");
    proof {
        assert(args_view(args@) =~= flatc_args_io(*o));
    }
    args
}

/// Builds the JSON-shape and naming group.
fn flatc_json_args(o: &FlatCOptions) -> (v: Vec<String>)
    ensures
        args_view(v@) == flatc_args_json(*o),
{
    let mut args: Vec<String> = Vec::new();
    push_flag(&mut args, o.strict_json, "--strict-json");
    push_flag(&mut args, o.allow_non_utf8, "--allow-non-utf8");
    push_flag(&mut args, o.natural_utf8, "--natural-utf8");
    push_flag(&mut args, o.defaults_json, "--defaults-json");
    push_flag(&mut args, o.unknown_json, "--unknown-json");
    push_flag(&mut args, o.no_prefix, "--no-prefix");
    push_flag(&mut args, o.scoped_enums, "--scoped-enums");
    push_flag(&mut args, o.no_emit_min_max_enum_values, "--no-emit-min-max-enum-values");
    push_flag(&mut args, o.swift_implementation_only, "--swift-implementation-only");
    push_flag(&mut args, o.no_includes, "--no-includes");
    proof {
        assert(args_view(args@) =~= flatc_args_json(*o));
    }
    args
}

/// Builds the general code-generation group.
fn flatc_gen_args(o: &FlatCOptions) -> (v: Vec<String>)
    ensures
        args_view(v@) == flatc_args_gen(*o),
{
    let mut args: Vec<String> = Vec::new();
    push_flag(&mut args, o.gen_mutable, "--gen-mutable");
    push_flag(&mut args, o.gen_onefile, "--gen-onefile");
    push_flag(&mut args, o.gen_name_strings, "--gen-name-strings");
    push_flag(&mut args, o.gen_object_api, "--gen-object-api");
    push_flag(&mut args, o.gen_compare, "--gen-compare");
    push_flag(&mut args, o.gen_nullable, "--gen-nullable");
    push_opt(&mut args, &o.java_package_prefix, "--java-package-prefix");
    push_flag(&mut args, o.java_checkerframework, "--java-checkerframework");
    push_flag(&mut args, o.gen_generated, "--gen-generated");
    push_flag(&mut args, o.gen_jvmstatic, "--gen-jvmstatic");
    push_flag(&mut args, o.gen_all, "--gen-all");
    push_flag(&mut args, o.gen_json_emit, "--gen-json-emit");
    proof {
        assert(args_view(args@) =~= flatc_args_gen(*o));
    }
    args
}

/// Builds the C++ group.
fn flatc_cpp_args(o: &FlatCOptions) -> (v: Vec<String>)
    ensures
        args_view(v@) == flatc_args_cpp(*o),
{
    let mut args: Vec<String> = Vec::new();
    push_list(&mut args, "--cpp-include", &o.cpp_include);
    push_opt(&mut args, &o.cpp_ptr_type, "--cpp-ptr-type");
    push_opt(&mut args, &o.cpp_str_type, "--cpp-str-type");
    push_flag(&mut args, o.cpp_str_flex_ctor, "--cpp-str-flex-ctor");
    push_opt(&mut args, &o.cpp_field_case_style, "--cpp-field-case-style");
    push_flag(&mut args, o.no_cpp_direct_copy, "--no-cpp-direct-copy");
    push_cpp_std(&mut args, &o.cpp_std);
    push_flag(&mut args, o.cpp_static_reflection, "--cpp-static-reflection");
    push_opt(&mut args, &o.object_prefix, "--object-prefix");
    push_opt(&mut args, &o.object_suffix, "--object-suffix");
    proof {
        assert(args_view(args@) =~= flatc_args_cpp(*o));
    }
    args
}

/// Builds the Go/Protobuf group.
fn flatc_go_proto_args(o: &FlatCOptions) -> (v: Vec<String>)
    ensures
        args_view(v@) == flatc_args_go_proto(*o),
{
    let mut args: Vec<String> = Vec::new();
    push_opt(&mut args, &o.go_namespace, "--go-namespace");
    push_opt(&mut args, &o.go_import, "--go-import");
    push_opt(&mut args, &o.go_module_name, "--go-module-name");
    push_flag(&mut args, o.raw_binary, "--raw-binary");
    push_flag(&mut args, o.size_prefixed, "--size-prefixed");
    push_flag(&mut args, o.proto, "--proto");
    push_opt(&mut args, &o.proto_namespace_suffix, "--proto-namespace-suffix");
    push_flag(&mut args, o.oneof_union, "--oneof-union");
    push_flag(&mut args, o.keep_proto_id, "--keep-proto-id");
    push_opt(&mut args, &o.proto_id_gap, "--proto-id-gap");
    push_flag(&mut args, o.schema, "--schema");
    proof {
        assert(args_view(args@) =~= flatc_args_go_proto(*o));
    }
    args
}

/// Builds the binary-schema/conformance group.
fn flatc_bfbs_args(o: &FlatCOptions) -> (v: Vec<String>)
    ensures
        args_view(v@) == flatc_args_bfbs(*o),
{
    let mut args: Vec<String> = Vec::new();
    push_opt(&mut args, &o.bfbs_filenames, "--bfbs-filenames");
    push_flag(&mut args, o.bfbs_absolute_paths, "--bfbs-absolute-paths");
    push_flag(&mut args, o.bfbs_comments, "--bfbs-comments");
    push_flag(&mut args, o.bfbs_builtins, "--bfbs-builtins");
    push_flag(&mut args, o.bfbs_gen_embed, "--bfbs-gen-embed");
    push_opt(&mut args, &o.conform, "--conform");
    push_list(&mut args, "--conform-includes", &o.conform_includes);
    push_opt(&mut args, &o.filename_suffix, "--filename-suffix");
    push_opt(&mut args, &o.filename_ext, "--filename-ext");
    push_opt(&mut args, &o.include_prefix, "--include-prefix");
    push_flag(&mut args, o.keep_prefix, "--keep-prefix");
    proof {
        assert(args_view(args@) =~= flatc_args_bfbs(*o));
    }
    args
}

/// Builds the reflection/Rust/strictness group.
fn flatc_strict_args(o: &FlatCOptions) -> (v: Vec<String>)
    ensures
        args_view(v@) == flatc_args_strict(*o),
{
    let mut args: Vec<String> = Vec::new();
    push_flag(&mut args, o.reflect_types, "--reflect-types");
    push_flag(&mut args, o.reflect_names, "--reflect-names");
    push_flag(&mut args, o.rust_serialize, "--rust-serialize");
    push_flag(&mut args, o.rust_module_root_file, "--rust-module-root-file");
    push_opt(&mut args, &o.root_type, "--root-type");
    push_flag(&mut args, o.require_explicit_ids, "--require-explicit-ids");
    push_flag(&mut args, o.force_defaults, "--force-defaults");
    push_flag(&mut args, o.force_empty, "--force-empty");
    push_flag(&mut args, o.force_empty_vectors, "--force-empty-vectors");
    push_flag(&mut args, o.flexbuffers, "--flexbuffers");
    push_flag(&mut args, o.no_warnings, "--no-warnings");
    push_flag(&mut args, o.warnings_as_errors, "--warnings-as-errors");
    proof {
        assert(args_view(args@) =~= flatc_args_strict(*o));
    }
    args
}

/// Builds the C#/TypeScript/annotation/Python group.
fn flatc_misc_args(o: &FlatCOptions) -> (v: Vec<String>)
    ensures
        args_view(v@) == flatc_args_misc(*o),
{
    let mut args: Vec<String> = Vec::new();
    push_flag(&mut args, o.cs_global_alias, "--cs-global-alias");
    push_flag(&mut args, o.cs_gen_json_serializer, "--cs-gen-json-serializer");
    push_flag(&mut args, o.json_nested_bytes, "--json-nested-bytes");
    push_flag(&mut args, o.ts_flat_files, "--ts-flat-files");
    push_flag(&mut args, o.ts_entry_points, "--ts-entry-points");
    push_flag(&mut args, o.annotate_sparse_vectors, "--annotate-sparse-vectors");
    push_opt(&mut args, &o.annotate, "--annotate");
    push_flag(&mut args, o.no_leak_private_annotation, "--no-leak-private-annotation");
    push_flag(&mut args, o.python_no_type_prefix_suffix, "--python-no-type-prefix-suffix");
    push_flag(&mut args, o.python_typing, "--python-typing");
    push_opt(&mut args, &o.python_version, "--python-version");
    push_flag(&mut args, o.python_gen_numpy, "--python-gen-numpy");
    push_flag(&mut args, o.ts_omit_entrypoint, "--ts-omit-entrypoint");
    push_flag(&mut args, o.file_names_only, "--file-names-only");
    proof {
        assert(args_view(args@) =~= flatc_args_misc(*o));
    }
    args
}

/// Builds the gRPC group.
fn flatc_grpc_args(o: &FlatCOptions) -> (v: Vec<String>)
    ensures
        args_view(v@) == flatc_args_grpc(*o),
{
    let mut args: Vec<String> = Vec::new();
    push_opt(&mut args, &o.grpc_filename_suffix, "--grpc-filename-suffix");
    push_list(&mut args, "--grpc-additional-header", &o.grpc_additional_header);
    push_opt(&mut args, &o.grpc_search_path, "--grpc-search-path");
    push_flag(&mut args, o.grpc_use_system_headers, "--grpc-use-system-headers");
    push_flag(&mut args, o.grpc_python_typed_handlers, "--grpc-python-typed-handlers");
    proof {
        assert(args_view(args@) =~= flatc_args_grpc(*o));
    }
    args
}

/// How many occurrences of `t` the language list contributes.
pub open spec fn langs_contrib(ls: Seq<Language>, t: Seq<char>) -> int
    decreases ls.len(),
{
    if ls.len() == 0 {
        0
    } else {
        (if lang_flag(ls[0]) == t {
            1int
        } else {
            0int
        }) + langs_contrib(ls.drop_first(), t)
    }
}

/// The language flags contribute per `langs_contrib`.
proof fn lemma_tok_count_langs_seg(ls: Seq<Language>, t: Seq<char>)
    ensures
        tok_count(langs_seg(ls), t) as int == langs_contrib(ls, t),
    decreases ls.len(),
{
    if ls.len() == 0 {
    } else {
        lemma_tok_count_concat(seq![lang_flag(ls[0])], langs_seg(ls.drop_first()), t);
        lemma_tok_count_single(lang_flag(ls[0]), t);
        lemma_tok_count_langs_seg(ls.drop_first(), t);
    }
}

/// A token that is no language's flag gets nothing from the language list.
proof fn lemma_langs_contrib_zero(ls: Seq<Language>, t: Seq<char>)
    requires
        forall|l: Language| #[trigger] lang_flag(l) != t,
    ensures
        langs_contrib(ls, t) == 0,
    decreases ls.len(),
{
    if ls.len() > 0 {
        assert(lang_flag(ls[0]) != t);
        lemma_langs_contrib_zero(ls.drop_first(), t);
    }
}

/// How many occurrences of `t` the C++-standard choice contributes.
pub open spec fn cpp_std_contrib(c: Option<CppStd>, t: Seq<char>) -> int {
    match c {
        Option::Some(s) => (if "--cpp-std"@ == t {
            1int
        } else {
            0int
        }) + (if cpp_std_token(s) == t {
            1int
        } else {
            0int
        }),
        Option::None => 0,
    }
}

/// The C++-standard pair contributes per `cpp_std_contrib`.
proof fn lemma_tok_count_cpp_std_seg(c: Option<CppStd>, t: Seq<char>)
    ensures
        tok_count(cpp_std_seg(c), t) as int == cpp_std_contrib(c, t),
{
    match c {
        Option::Some(s) => {
            lemma_tok_count_pair("--cpp-std"@, cpp_std_token(s), t);
        },
        Option::None => {},
    }
}

/// Every option flag token the compiler's command line is built from.
pub open spec fn flatc_flag_tokens() -> Seq<Seq<char>> {
    seq![
        "--grpc"@,
        "-o"@,
        "-I"@,
        "--binary"@,
        "--json"@,
        "--jsonschema"@,
        "--strict-json"@,
        "--allow-non-utf8"@,
        "--natural-utf8"@,
        "--defaults-json"@,
        "--unknown-json"@,
        "--no-prefix"@,
        "--scoped-enums"@,
        "--no-emit-min-max-enum-values"@,
        "--swift-implementation-only"@,
        "--no-includes"@,
        "--gen-mutable"@,
        "--gen-onefile"@,
        "--gen-name-strings"@,
        "--gen-object-api"@,
        "--gen-compare"@,
        "--gen-nullable"@,
        "--java-package-prefix"@,
        "--java-checkerframework"@,
        "--gen-generated"@,
        "--gen-jvmstatic"@,
        "--gen-all"@,
        "--gen-json-emit"@,
        "--cpp-include"@,
        "--cpp-ptr-type"@,
        "--cpp-str-type"@,
        "--cpp-str-flex-ctor"@,
        "--cpp-field-case-style"@,
        "--no-cpp-direct-copy"@,
        "--cpp-std"@,
        "--cpp-static-reflection"@,
        "--object-prefix"@,
        "--object-suffix"@,
        "--go-namespace"@,
        "--go-import"@,
        "--go-module-name"@,
        "--raw-binary"@,
        "--size-prefixed"@,
        "--proto"@,
        "--proto-namespace-suffix"@,
        "--oneof-union"@,
        "--keep-proto-id"@,
        "--proto-id-gap"@,
        "--schema"@,
        "--bfbs-filenames"@,
        "--bfbs-absolute-paths"@,
        "--bfbs-comments"@,
        "--bfbs-builtins"@,
        "--bfbs-gen-embed"@,
        "--conform"@,
        "--conform-includes"@,
        "--filename-suffix"@,
        "--filename-ext"@,
        "--include-prefix"@,
        "--keep-prefix"@,
        "--reflect-types"@,
        "--reflect-names"@,
        "--rust-serialize"@,
        "--rust-module-root-file"@,
        "--root-type"@,
        "--require-explicit-ids"@,
        "--force-defaults"@,
        "--force-empty"@,
        "--force-empty-vectors"@,
        "--flexbuffers"@,
        "--no-warnings"@,
        "--warnings-as-errors"@,
        "--cs-global-alias"@,
        "--cs-gen-json-serializer"@,
        "--json-nested-bytes"@,
        "--ts-flat-files"@,
        "--ts-entry-points"@,
        "--annotate-sparse-vectors"@,
        "--annotate"@,
        "--no-leak-private-annotation"@,
        "--python-no-type-prefix-suffix"@,
        "--python-typing"@,
        "--python-version"@,
        "--python-gen-numpy"@,
        "--ts-omit-entrypoint"@,
        "--file-names-only"@,
        "--grpc-filename-suffix"@,
        "--grpc-additional-header"@,
        "--grpc-search-path"@,
        "--grpc-use-system-headers"@,
        "--grpc-python-typed-handlers"@,
    ]
}

/// No populated value is itself the exact text of an option flag token; on
/// such inputs occurrence counts would conflate a value with a flag.
pub open spec fn flatc_values_flag_free(o: FlatCOptions) -> bool {
    &&& (o.output_path matches Some(s) ==> !flatc_flag_tokens().contains(s@))
    &&& (forall|i: int|
        0 <= i < o.include_paths@.len() ==> !flatc_flag_tokens().contains(#[trigger] args_view(o.include_paths@)[i]))
    &&& (o.java_package_prefix matches Some(s) ==> !flatc_flag_tokens().contains(s@))
    &&& (forall|i: int|
        0 <= i < o.cpp_include@.len() ==> !flatc_flag_tokens().contains(#[trigger] args_view(o.cpp_include@)[i]))
    &&& (o.cpp_ptr_type matches Some(s) ==> !flatc_flag_tokens().contains(s@))
    &&& (o.cpp_str_type matches Some(s) ==> !flatc_flag_tokens().contains(s@))
    &&& (o.cpp_field_case_style matches Some(s) ==> !flatc_flag_tokens().contains(s@))
    &&& (o.object_prefix matches Some(s) ==> !flatc_flag_tokens().contains(s@))
    &&& (o.object_suffix matches Some(s) ==> !flatc_flag_tokens().contains(s@))
    &&& (o.go_namespace matches Some(s) ==> !flatc_flag_tokens().contains(s@))
    &&& (o.go_import matches Some(s) ==> !flatc_flag_tokens().contains(s@))
    &&& (o.go_module_name matches Some(s) ==> !flatc_flag_tokens().contains(s@))
    &&& (o.proto_namespace_suffix matches Some(s) ==> !flatc_flag_tokens().contains(s@))
    &&& (o.proto_id_gap matches Some(s) ==> !flatc_flag_tokens().contains(s@))
    &&& (o.bfbs_filenames matches Some(s) ==> !flatc_flag_tokens().contains(s@))
    &&& (o.conform matches Some(s) ==> !flatc_flag_tokens().contains(s@))
    &&& (forall|i: int|
        0 <= i < o.conform_includes@.len() ==> !flatc_flag_tokens().contains(#[trigger] args_view(o.conform_includes@)[i]))
    &&& (o.filename_suffix matches Some(s) ==> !flatc_flag_tokens().contains(s@))
    &&& (o.filename_ext matches Some(s) ==> !flatc_flag_tokens().contains(s@))
    &&& (o.include_prefix matches Some(s) ==> !flatc_flag_tokens().contains(s@))
    &&& (o.root_type matches Some(s) ==> !flatc_flag_tokens().contains(s@))
    &&& (o.annotate matches Some(s) ==> !flatc_flag_tokens().contains(s@))
    &&& (o.python_version matches Some(s) ==> !flatc_flag_tokens().contains(s@))
    &&& (o.grpc_filename_suffix matches Some(s) ==> !flatc_flag_tokens().contains(s@))
    &&& (forall|i: int|
        0 <= i < o.grpc_additional_header@.len() ==> !flatc_flag_tokens().contains(#[trigger] args_view(o.grpc_additional_header@)[i]))
    &&& (o.grpc_search_path matches Some(s) ==> !flatc_flag_tokens().contains(s@))
}

/// Lengths of the first third of the fixed tokens.
proof fn lemma_flatc_token_lens_a()
    ensures
        "--grpc"@.len() == 6,
        "-o"@.len() == 2,
        "-I"@.len() == 2,
        "--binary"@.len() == 8,
        "--json"@.len() == 6,
        "--jsonschema"@.len() == 12,
        "--strict-json"@.len() == 13,
        "--allow-non-utf8"@.len() == 16,
        "--natural-utf8"@.len() == 14,
        "--defaults-json"@.len() == 15,
        "--unknown-json"@.len() == 14,
        "--no-prefix"@.len() == 11,
        "--scoped-enums"@.len() == 14,
        "--no-emit-min-max-enum-values"@.len() == 29,
        "--swift-implementation-only"@.len() == 27,
        "--no-includes"@.len() == 13,
        "--gen-mutable"@.len() == 13,
        "--gen-onefile"@.len() == 13,
        "--gen-name-strings"@.len() == 18,
        "--gen-object-api"@.len() == 16,
        "--gen-compare"@.len() == 13,
        "--gen-nullable"@.len() == 14,
        "--java-package-prefix"@.len() == 21,
        "--java-checkerframework"@.len() == 23,
        "--gen-generated"@.len() == 15,
        "--gen-jvmstatic"@.len() == 15,
        "--gen-all"@.len() == 9,
        "--gen-json-emit"@.len() == 15,
        "--cpp-include"@.len() == 13,
        "--cpp-ptr-type"@.len() == 14,
        "--cpp-str-type"@.len() == 14,
        "--cpp-str-flex-ctor"@.len() == 19,
        "--cpp-field-case-style"@.len() == 22,
        "--no-cpp-direct-copy"@.len() == 20,
        "--cpp-std"@.len() == 9,
        "--cpp-static-reflection"@.len() == 23,
        "--object-prefix"@.len() == 15,
{
    reveal_strlit("--grpc");
    reveal_strlit("-o");
    reveal_strlit("-I");
    reveal_strlit("--binary");
    reveal_strlit("--json");
    reveal_strlit("--jsonschema");
    reveal_strlit("--strict-json");
    reveal_strlit("--allow-non-utf8");
    reveal_strlit("--natural-utf8");
    reveal_strlit("--defaults-json");
    reveal_strlit("--unknown-json");
    reveal_strlit("--no-prefix");
    reveal_strlit("--scoped-enums");
    reveal_strlit("--no-emit-min-max-enum-values");
    reveal_strlit("--swift-implementation-only");
    reveal_strlit("--no-includes");
    reveal_strlit("--gen-mutable");
    reveal_strlit("--gen-onefile");
    reveal_strlit("--gen-name-strings");
    reveal_strlit("--gen-object-api");
    reveal_strlit("--gen-compare");
    reveal_strlit("--gen-nullable");
    reveal_strlit("--java-package-prefix");
    reveal_strlit("--java-checkerframework");
    reveal_strlit("--gen-generated");
    reveal_strlit("--gen-jvmstatic");
    reveal_strlit("--gen-all");
    reveal_strlit("--gen-json-emit");
    reveal_strlit("--cpp-include");
    reveal_strlit("--cpp-ptr-type");
    reveal_strlit("--cpp-str-type");
    reveal_strlit("--cpp-str-flex-ctor");
    reveal_strlit("--cpp-field-case-style");
    reveal_strlit("--no-cpp-direct-copy");
    reveal_strlit("--cpp-std");
    reveal_strlit("--cpp-static-reflection");
    reveal_strlit("--object-prefix");
    reveal_strlit("--object-suffix");
    reveal_strlit("--go-namespace");
    reveal_strlit("--go-import");
    reveal_strlit("--go-module-name");
    reveal_strlit("--raw-binary");
    reveal_strlit("--size-prefixed");
    reveal_strlit("--proto");
    reveal_strlit("--proto-namespace-suffix");
    reveal_strlit("--oneof-union");
    reveal_strlit("--keep-proto-id");
    reveal_strlit("--proto-id-gap");
    reveal_strlit("--schema");
    reveal_strlit("--bfbs-filenames");
    reveal_strlit("--bfbs-absolute-paths");
    reveal_strlit("--bfbs-comments");
    reveal_strlit("--bfbs-builtins");
    reveal_strlit("--bfbs-gen-embed");
    reveal_strlit("--conform");
    reveal_strlit("--conform-includes");
    reveal_strlit("--filename-suffix");
    reveal_strlit("--filename-ext");
    reveal_strlit("--include-prefix");
    reveal_strlit("--keep-prefix");
    reveal_strlit("--reflect-types");
    reveal_strlit("--reflect-names");
    reveal_strlit("--rust-serialize");
    reveal_strlit("--rust-module-root-file");
    reveal_strlit("--root-type");
    reveal_strlit("--require-explicit-ids");
    reveal_strlit("--force-defaults");
    reveal_strlit("--force-empty");
    reveal_strlit("--force-empty-vectors");
    reveal_strlit("--flexbuffers");
    reveal_strlit("--no-warnings");
    reveal_strlit("--warnings-as-errors");
    reveal_strlit("--cs-global-alias");
    reveal_strlit("--cs-gen-json-serializer");
    reveal_strlit("--json-nested-bytes");
    reveal_strlit("--ts-flat-files");
    reveal_strlit("--ts-entry-points");
    reveal_strlit("--annotate-sparse-vectors");
    reveal_strlit("--annotate");
    reveal_strlit("--no-leak-private-annotation");
    reveal_strlit("--python-no-type-prefix-suffix");
    reveal_strlit("--python-typing");
    reveal_strlit("--python-version");
    reveal_strlit("--python-gen-numpy");
    reveal_strlit("--ts-omit-entrypoint");
    reveal_strlit("--file-names-only");
    reveal_strlit("--grpc-filename-suffix");
    reveal_strlit("--grpc-additional-header");
    reveal_strlit("--grpc-search-path");
    reveal_strlit("--grpc-use-system-headers");
    reveal_strlit("--grpc-python-typed-handlers");
    reveal_strlit("--cpp");
    reveal_strlit("--java");
    reveal_strlit("--kotlin");
    reveal_strlit("--kotlin-kmp");
    reveal_strlit("--csharp");
    reveal_strlit("--go");
    reveal_strlit("--python");
    reveal_strlit("--js");
    reveal_strlit("--ts");
    reveal_strlit("--php");
    reveal_strlit("--dart");
    reveal_strlit("--lua");
    reveal_strlit("--lobster");
    reveal_strlit("--rust");
    reveal_strlit("--swift");
    reveal_strlit("--nim");
    reveal_strlit("c++0x");
    reveal_strlit("c++11");
    reveal_strlit("c++17");
}

/// Lengths of the second third of the fixed tokens.
proof fn lemma_flatc_token_lens_b()
    ensures
        "--object-suffix"@.len() == 15,
        "--go-namespace"@.len() == 14,
        "--go-import"@.len() == 11,
        "--go-module-name"@.len() == 16,
        "--raw-binary"@.len() == 12,
        "--size-prefixed"@.len() == 15,
        "--proto"@.len() == 7,
        "--proto-namespace-suffix"@.len() == 24,
        "--oneof-union"@.len() == 13,
        "--keep-proto-id"@.len() == 15,
        "--proto-id-gap"@.len() == 14,
        "--schema"@.len() == 8,
        "--bfbs-filenames"@.len() == 16,
        "--bfbs-absolute-paths"@.len() == 21,
        "--bfbs-comments"@.len() == 15,
        "--bfbs-builtins"@.len() == 15,
        "--bfbs-gen-embed"@.len() == 16,
        "--conform"@.len() == 9,
        "--conform-includes"@.len() == 18,
        "--filename-suffix"@.len() == 17,
        "--filename-ext"@.len() == 14,
        "--include-prefix"@.len() == 16,
        "--keep-prefix"@.len() == 13,
        "--reflect-types"@.len() == 15,
        "--reflect-names"@.len() == 15,
        "--rust-serialize"@.len() == 16,
        "--rust-module-root-file"@.len() == 23,
        "--root-type"@.len() == 11,
        "--require-explicit-ids"@.len() == 22,
        "--force-defaults"@.len() == 16,
        "--force-empty"@.len() == 13,
        "--force-empty-vectors"@.len() == 21,
        "--flexbuffers"@.len() == 13,
        "--no-warnings"@.len() == 13,
        "--warnings-as-errors"@.len() == 20,
        "--cs-global-alias"@.len() == 17,
        "--cs-gen-json-serializer"@.len() == 24,
{
    reveal_strlit("--grpc");
    reveal_strlit("-o");
    reveal_strlit("-I");
    reveal_strlit("--binary");
    reveal_strlit("--json");
    reveal_strlit("--jsonschema");
    reveal_strlit("--strict-json");
    reveal_strlit("--allow-non-utf8");
    reveal_strlit("--natural-utf8");
    reveal_strlit("--defaults-json");
    reveal_strlit("--unknown-json");
    reveal_strlit("--no-prefix");
    reveal_strlit("--scoped-enums");
    reveal_strlit("--no-emit-min-max-enum-values");
    reveal_strlit("--swift-implementation-only");
    reveal_strlit("--no-includes");
    reveal_strlit("--gen-mutable");
    reveal_strlit("--gen-onefile");
    reveal_strlit("--gen-name-strings");
    reveal_strlit("--gen-object-api");
    reveal_strlit("--gen-compare");
    reveal_strlit("--gen-nullable");
    reveal_strlit("--java-package-prefix");
    reveal_strlit("--java-checkerframework");
    reveal_strlit("--gen-generated");
    reveal_strlit("--gen-jvmstatic");
    reveal_strlit("--gen-all");
    reveal_strlit("--gen-json-emit");
    reveal_strlit("--cpp-include");
    reveal_strlit("--cpp-ptr-type");
    reveal_strlit("--cpp-str-type");
    reveal_strlit("--cpp-str-flex-ctor");
    reveal_strlit("--cpp-field-case-style");
    reveal_strlit("--no-cpp-direct-copy");
    reveal_strlit("--cpp-std");
    reveal_strlit("--cpp-static-reflection");
    reveal_strlit("--object-prefix");
    reveal_strlit("--object-suffix");
    reveal_strlit("--go-namespace");
    reveal_strlit("--go-import");
    reveal_strlit("--go-module-name");
    reveal_strlit("--raw-binary");
    reveal_strlit("--size-prefixed");
    reveal_strlit("--proto");
    reveal_strlit("--proto-namespace-suffix");
    reveal_strlit("--oneof-union");
    reveal_strlit("--keep-proto-id");
    reveal_strlit("--proto-id-gap");
    reveal_strlit("--schema");
    reveal_strlit("--bfbs-filenames");
    reveal_strlit("--bfbs-absolute-paths");
    reveal_strlit("--bfbs-comments");
    reveal_strlit("--bfbs-builtins");
    reveal_strlit("--bfbs-gen-embed");
    reveal_strlit("--conform");
    reveal_strlit("--conform-includes");
    reveal_strlit("--filename-suffix");
    reveal_strlit("--filename-ext");
    reveal_strlit("--include-prefix");
    reveal_strlit("--keep-prefix");
    reveal_strlit("--reflect-types");
    reveal_strlit("--reflect-names");
    reveal_strlit("--rust-serialize");
    reveal_strlit("--rust-module-root-file");
    reveal_strlit("--root-type");
    reveal_strlit("--require-explicit-ids");
    reveal_strlit("--force-defaults");
    reveal_strlit("--force-empty");
    reveal_strlit("--force-empty-vectors");
    reveal_strlit("--flexbuffers");
    reveal_strlit("--no-warnings");
    reveal_strlit("--warnings-as-errors");
    reveal_strlit("--cs-global-alias");
    reveal_strlit("--cs-gen-json-serializer");
    reveal_strlit("--json-nested-bytes");
    reveal_strlit("--ts-flat-files");
    reveal_strlit("--ts-entry-points");
    reveal_strlit("--annotate-sparse-vectors");
    reveal_strlit("--annotate");
    reveal_strlit("--no-leak-private-annotation");
    reveal_strlit("--python-no-type-prefix-suffix");
    reveal_strlit("--python-typing");
    reveal_strlit("--python-version");
    reveal_strlit("--python-gen-numpy");
    reveal_strlit("--ts-omit-entrypoint");
    reveal_strlit("--file-names-only");
    reveal_strlit("--grpc-filename-suffix");
    reveal_strlit("--grpc-additional-header");
    reveal_strlit("--grpc-search-path");
    reveal_strlit("--grpc-use-system-headers");
    reveal_strlit("--grpc-python-typed-handlers");
    reveal_strlit("--cpp");
    reveal_strlit("--java");
    reveal_strlit("--kotlin");
    reveal_strlit("--kotlin-kmp");
    reveal_strlit("--csharp");
    reveal_strlit("--go");
    reveal_strlit("--python");
    reveal_strlit("--js");
    reveal_strlit("--ts");
    reveal_strlit("--php");
    reveal_strlit("--dart");
    reveal_strlit("--lua");
    reveal_strlit("--lobster");
    reveal_strlit("--rust");
    reveal_strlit("--swift");
    reveal_strlit("--nim");
    reveal_strlit("c++0x");
    reveal_strlit("c++11");
    reveal_strlit("c++17");
}

/// Lengths of the last third of the fixed tokens.
proof fn lemma_flatc_token_lens_c()
    ensures
        "--json-nested-bytes"@.len() == 19,
        "--ts-flat-files"@.len() == 15,
        "--ts-entry-points"@.len() == 17,
        "--annotate-sparse-vectors"@.len() == 25,
        "--annotate"@.len() == 10,
        "--no-leak-private-annotation"@.len() == 28,
        "--python-no-type-prefix-suffix"@.len() == 30,
        "--python-typing"@.len() == 15,
        "--python-version"@.len() == 16,
        "--python-gen-numpy"@.len() == 18,
        "--ts-omit-entrypoint"@.len() == 20,
        "--file-names-only"@.len() == 17,
        "--grpc-filename-suffix"@.len() == 22,
        "--grpc-additional-header"@.len() == 24,
        "--grpc-search-path"@.len() == 18,
        "--grpc-use-system-headers"@.len() == 25,
        "--grpc-python-typed-handlers"@.len() == 28,
        "--cpp"@.len() == 5,
        "--java"@.len() == 6,
        "--kotlin"@.len() == 8,
        "--kotlin-kmp"@.len() == 12,
        "--csharp"@.len() == 8,
        "--go"@.len() == 4,
        "--python"@.len() == 8,
        "--js"@.len() == 4,
        "--ts"@.len() == 4,
        "--php"@.len() == 5,
        "--dart"@.len() == 6,
        "--lua"@.len() == 5,
        "--lobster"@.len() == 9,
        "--rust"@.len() == 6,
        "--swift"@.len() == 7,
        "--nim"@.len() == 5,
        "c++0x"@.len() == 5,
        "c++11"@.len() == 5,
        "c++17"@.len() == 5,
{
    reveal_strlit("--grpc");
    reveal_strlit("-o");
    reveal_strlit("-I");
    reveal_strlit("--binary");
    reveal_strlit("--json");
    reveal_strlit("--jsonschema");
    reveal_strlit("--strict-json");
    reveal_strlit("--allow-non-utf8");
    reveal_strlit("--natural-utf8");
    reveal_strlit("--defaults-json");
    reveal_strlit("--unknown-json");
    reveal_strlit("--no-prefix");
    reveal_strlit("--scoped-enums");
    reveal_strlit("--no-emit-min-max-enum-values");
    reveal_strlit("--swift-implementation-only");
    reveal_strlit("--no-includes");
    reveal_strlit("--gen-mutable");
    reveal_strlit("--gen-onefile");
    reveal_strlit("--gen-name-strings");
    reveal_strlit("--gen-object-api");
    reveal_strlit("--gen-compare");
    reveal_strlit("--gen-nullable");
    reveal_strlit("--java-package-prefix");
    reveal_strlit("--java-checkerframework");
    reveal_strlit("--gen-generated");
    reveal_strlit("--gen-jvmstatic");
    reveal_strlit("--gen-all");
    reveal_strlit("--gen-json-emit");
    reveal_strlit("--cpp-include");
    reveal_strlit("--cpp-ptr-type");
    reveal_strlit("--cpp-str-type");
    reveal_strlit("--cpp-str-flex-ctor");
    reveal_strlit("--cpp-field-case-style");
    reveal_strlit("--no-cpp-direct-copy");
    reveal_strlit("--cpp-std");
    reveal_strlit("--cpp-static-reflection");
    reveal_strlit("--object-prefix");
    reveal_strlit("--object-suffix");
    reveal_strlit("--go-namespace");
    reveal_strlit("--go-import");
    reveal_strlit("--go-module-name");
    reveal_strlit("--raw-binary");
    reveal_strlit("--size-prefixed");
    reveal_strlit("--proto");
    reveal_strlit("--proto-namespace-suffix");
    reveal_strlit("--oneof-union");
    reveal_strlit("--keep-proto-id");
    reveal_strlit("--proto-id-gap");
    reveal_strlit("--schema");
    reveal_strlit("--bfbs-filenames");
    reveal_strlit("--bfbs-absolute-paths");
    reveal_strlit("--bfbs-comments");
    reveal_strlit("--bfbs-builtins");
    reveal_strlit("--bfbs-gen-embed");
    reveal_strlit("--conform");
    reveal_strlit("--conform-includes");
    reveal_strlit("--filename-suffix");
    reveal_strlit("--filename-ext");
    reveal_strlit("--include-prefix");
    reveal_strlit("--keep-prefix");
    reveal_strlit("--reflect-types");
    reveal_strlit("--reflect-names");
    reveal_strlit("--rust-serialize");
    reveal_strlit("--rust-module-root-file");
    reveal_strlit("--root-type");
    reveal_strlit("--require-explicit-ids");
    reveal_strlit("--force-defaults");
    reveal_strlit("--force-empty");
    reveal_strlit("--force-empty-vectors");
    reveal_strlit("--flexbuffers");
    reveal_strlit("--no-warnings");
    reveal_strlit("--warnings-as-errors");
    reveal_strlit("--cs-global-alias");
    reveal_strlit("--cs-gen-json-serializer");
    reveal_strlit("--json-nested-bytes");
    reveal_strlit("--ts-flat-files");
    reveal_strlit("--ts-entry-points");
    reveal_strlit("--annotate-sparse-vectors");
    reveal_strlit("--annotate");
    reveal_strlit("--no-leak-private-annotation");
    reveal_strlit("--python-no-type-prefix-suffix");
    reveal_strlit("--python-typing");
    reveal_strlit("--python-version");
    reveal_strlit("--python-gen-numpy");
    reveal_strlit("--ts-omit-entrypoint");
    reveal_strlit("--file-names-only");
    reveal_strlit("--grpc-filename-suffix");
    reveal_strlit("--grpc-additional-header");
    reveal_strlit("--grpc-search-path");
    reveal_strlit("--grpc-use-system-headers");
    reveal_strlit("--grpc-python-typed-handlers");
    reveal_strlit("--cpp");
    reveal_strlit("--java");
    reveal_strlit("--kotlin");
    reveal_strlit("--kotlin-kmp");
    reveal_strlit("--csharp");
    reveal_strlit("--go");
    reveal_strlit("--python");
    reveal_strlit("--js");
    reveal_strlit("--ts");
    reveal_strlit("--php");
    reveal_strlit("--dart");
    reveal_strlit("--lua");
    reveal_strlit("--lobster");
    reveal_strlit("--rust");
    reveal_strlit("--swift");
    reveal_strlit("--nim");
    reveal_strlit("c++0x");
    reveal_strlit("c++11");
    reveal_strlit("c++17");
}

/// Distinguishing characters of same-length tokens, first half.
proof fn lemma_flatc_token_chars_a()
    ensures
        "--allow-non-utf8"@[2] == 'a',
        "--annotate-sparse-vectors"@[2] == 'a',
        "--bfbs-absolute-paths"@[2] == 'b',
        "--bfbs-builtins"@[2] == 'b',
        "--bfbs-builtins"@[7] == 'b',
        "--bfbs-comments"@[2] == 'b',
        "--bfbs-comments"@[7] == 'c',
        "--bfbs-filenames"@[2] == 'b',
        "--bfbs-filenames"@[7] == 'f',
        "--bfbs-gen-embed"@[2] == 'b',
        "--bfbs-gen-embed"@[7] == 'g',
        "--binary"@[2] == 'b',
        "--conform"@[2] == 'c',
        "--conform"@[3] == 'o',
        "--conform-includes"@[2] == 'c',
        "--cpp"@[0] == '-',
        "--cpp"@[2] == 'c',
        "--cpp-field-case-style"@[2] == 'c',
        "--cpp-include"@[2] == 'c',
        "--cpp-ptr-type"@[2] == 'c',
        "--cpp-ptr-type"@[6] == 'p',
        "--cpp-static-reflection"@[2] == 'c',
        "--cpp-std"@[2] == 'c',
        "--cpp-std"@[3] == 'p',
        "--cpp-str-flex-ctor"@[2] == 'c',
        "--cpp-str-type"@[2] == 'c',
        "--cpp-str-type"@[6] == 's',
        "--cs-gen-json-serializer"@[2] == 'c',
        "--cs-global-alias"@[2] == 'c',
        "--csharp"@[2] == 'c',
        "--dart"@[2] == 'd',
        "--defaults-json"@[2] == 'd',
        "--file-names-only"@[2] == 'f',
        "--file-names-only"@[6] == '-',
        "--filename-ext"@[2] == 'f',
        "--filename-suffix"@[2] == 'f',
        "--filename-suffix"@[6] == 'n',
        "--flexbuffers"@[2] == 'f',
        "--flexbuffers"@[3] == 'l',
        "--force-defaults"@[2] == 'f',
        "--force-empty"@[2] == 'f',
        "--force-empty"@[3] == 'o',
        "--force-empty-vectors"@[2] == 'f',
        "--gen-all"@[2] == 'g',
        "--gen-compare"@[2] == 'g',
        "--gen-compare"@[6] == 'c',
        "--gen-generated"@[2] == 'g',
        "--gen-generated"@[6] == 'g',
        "--gen-json-emit"@[2] == 'g',
        "--gen-json-emit"@[6] == 'j',
        "--gen-json-emit"@[7] == 's',
        "--gen-jvmstatic"@[2] == 'g',
        "--gen-jvmstatic"@[6] == 'j',
        "--gen-jvmstatic"@[7] == 'v',
        "--gen-mutable"@[2] == 'g',
        "--gen-mutable"@[6] == 'm',
        "--gen-name-strings"@[2] == 'g',
        "--gen-name-strings"@[3] == 'e',
        "--gen-nullable"@[2] == 'g',
        "--gen-nullable"@[3] == 'e',
        "--gen-object-api"@[2] == 'g',
        "--gen-object-api"@[3] == 'e',
        "--gen-onefile"@[2] == 'g',
        "--gen-onefile"@[6] == 'o',
        "--go"@[2] == 'g',
        "--go-import"@[2] == 'g',
        "--go-module-name"@[2] == 'g',
        "--go-module-name"@[3] == 'o',
        "--go-namespace"@[2] == 'g',
        "--go-namespace"@[3] == 'o',
        "--grpc"@[2] == 'g',
        "--grpc-additional-header"@[2] == 'g',
        "--grpc-filename-suffix"@[2] == 'g',
        "--grpc-python-typed-handlers"@[2] == 'g',
        "--grpc-search-path"@[2] == 'g',
{
    reveal_strlit("--grpc");
    reveal_strlit("-o");
    reveal_strlit("-I");
    reveal_strlit("--binary");
    reveal_strlit("--json");
    reveal_strlit("--jsonschema");
    reveal_strlit("--strict-json");
    reveal_strlit("--allow-non-utf8");
    reveal_strlit("--natural-utf8");
    reveal_strlit("--defaults-json");
    reveal_strlit("--unknown-json");
    reveal_strlit("--no-prefix");
    reveal_strlit("--scoped-enums");
    reveal_strlit("--no-emit-min-max-enum-values");
    reveal_strlit("--swift-implementation-only");
    reveal_strlit("--no-includes");
    reveal_strlit("--gen-mutable");
    reveal_strlit("--gen-onefile");
    reveal_strlit("--gen-name-strings");
    reveal_strlit("--gen-object-api");
    reveal_strlit("--gen-compare");
    reveal_strlit("--gen-nullable");
    reveal_strlit("--java-package-prefix");
    reveal_strlit("--java-checkerframework");
    reveal_strlit("--gen-generated");
    reveal_strlit("--gen-jvmstatic");
    reveal_strlit("--gen-all");
    reveal_strlit("--gen-json-emit");
    reveal_strlit("--cpp-include");
    reveal_strlit("--cpp-ptr-type");
    reveal_strlit("--cpp-str-type");
    reveal_strlit("--cpp-str-flex-ctor");
    reveal_strlit("--cpp-field-case-style");
    reveal_strlit("--no-cpp-direct-copy");
    reveal_strlit("--cpp-std");
    reveal_strlit("--cpp-static-reflection");
    reveal_strlit("--object-prefix");
    reveal_strlit("--object-suffix");
    reveal_strlit("--go-namespace");
    reveal_strlit("--go-import");
    reveal_strlit("--go-module-name");
    reveal_strlit("--raw-binary");
    reveal_strlit("--size-prefixed");
    reveal_strlit("--proto");
    reveal_strlit("--proto-namespace-suffix");
    reveal_strlit("--oneof-union");
    reveal_strlit("--keep-proto-id");
    reveal_strlit("--proto-id-gap");
    reveal_strlit("--schema");
    reveal_strlit("--bfbs-filenames");
    reveal_strlit("--bfbs-absolute-paths");
    reveal_strlit("--bfbs-comments");
    reveal_strlit("--bfbs-builtins");
    reveal_strlit("--bfbs-gen-embed");
    reveal_strlit("--conform");
    reveal_strlit("--conform-includes");
    reveal_strlit("--filename-suffix");
    reveal_strlit("--filename-ext");
    reveal_strlit("--include-prefix");
    reveal_strlit("--keep-prefix");
    reveal_strlit("--reflect-types");
    reveal_strlit("--reflect-names");
    reveal_strlit("--rust-serialize");
    reveal_strlit("--rust-module-root-file");
    reveal_strlit("--root-type");
    reveal_strlit("--require-explicit-ids");
    reveal_strlit("--force-defaults");
    reveal_strlit("--force-empty");
    reveal_strlit("--force-empty-vectors");
    reveal_strlit("--flexbuffers");
    reveal_strlit("--no-warnings");
    reveal_strlit("--warnings-as-errors");
    reveal_strlit("--cs-global-alias");
    reveal_strlit("--cs-gen-json-serializer");
    reveal_strlit("--json-nested-bytes");
    reveal_strlit("--ts-flat-files");
    reveal_strlit("--ts-entry-points");
    reveal_strlit("--annotate-sparse-vectors");
    reveal_strlit("--annotate");
    reveal_strlit("--no-leak-private-annotation");
    reveal_strlit("--python-no-type-prefix-suffix");
    reveal_strlit("--python-typing");
    reveal_strlit("--python-version");
    reveal_strlit("--python-gen-numpy");
    reveal_strlit("--ts-omit-entrypoint");
    reveal_strlit("--file-names-only");
    reveal_strlit("--grpc-filename-suffix");
    reveal_strlit("--grpc-additional-header");
    reveal_strlit("--grpc-search-path");
    reveal_strlit("--grpc-use-system-headers");
    reveal_strlit("--grpc-python-typed-handlers");
    reveal_strlit("--cpp");
    reveal_strlit("--java");
    reveal_strlit("--kotlin");
    reveal_strlit("--kotlin-kmp");
    reveal_strlit("--csharp");
    reveal_strlit("--go");
    reveal_strlit("--python");
    reveal_strlit("--js");
    reveal_strlit("--ts");
    reveal_strlit("--php");
    reveal_strlit("--dart");
    reveal_strlit("--lua");
    reveal_strlit("--lobster");
    reveal_strlit("--rust");
    reveal_strlit("--swift");
    reveal_strlit("--nim");
    reveal_strlit("c++0x");
    reveal_strlit("c++11");
    reveal_strlit("c++17");
}

/// Distinguishing characters of same-length tokens, second half.
proof fn lemma_flatc_token_chars_b()
    ensures
        "--grpc-search-path"@[3] == 'r',
        "--grpc-use-system-headers"@[2] == 'g',
        "--include-prefix"@[2] == 'i',
        "--java"@[2] == 'j',
        "--java"@[3] == 'a',
        "--java-checkerframework"@[2] == 'j',
        "--java-package-prefix"@[2] == 'j',
        "--js"@[2] == 'j',
        "--json"@[2] == 'j',
        "--json"@[3] == 's',
        "--json-nested-bytes"@[2] == 'j',
        "--jsonschema"@[2] == 'j',
        "--keep-prefix"@[2] == 'k',
        "--keep-proto-id"@[2] == 'k',
        "--kotlin"@[2] == 'k',
        "--kotlin-kmp"@[2] == 'k',
        "--lobster"@[2] == 'l',
        "--lua"@[0] == '-',
        "--lua"@[2] == 'l',
        "--natural-utf8"@[2] == 'n',
        "--nim"@[0] == '-',
        "--nim"@[2] == 'n',
        "--no-cpp-direct-copy"@[2] == 'n',
        "--no-includes"@[2] == 'n',
        "--no-includes"@[5] == 'i',
        "--no-leak-private-annotation"@[2] == 'n',
        "--no-prefix"@[2] == 'n',
        "--no-warnings"@[2] == 'n',
        "--no-warnings"@[5] == 'w',
        "--object-prefix"@[2] == 'o',
        "--object-prefix"@[9] == 'p',
        "--object-suffix"@[2] == 'o',
        "--object-suffix"@[9] == 's',
        "--oneof-union"@[2] == 'o',
        "--php"@[0] == '-',
        "--php"@[2] == 'p',
        "--proto"@[2] == 'p',
        "--proto-id-gap"@[2] == 'p',
        "--proto-namespace-suffix"@[2] == 'p',
        "--python"@[2] == 'p',
        "--python-gen-numpy"@[2] == 'p',
        "--python-typing"@[2] == 'p',
        "--python-version"@[2] == 'p',
        "--raw-binary"@[2] == 'r',
        "--reflect-names"@[2] == 'r',
        "--reflect-names"@[10] == 'n',
        "--reflect-types"@[2] == 'r',
        "--reflect-types"@[10] == 't',
        "--require-explicit-ids"@[2] == 'r',
        "--root-type"@[2] == 'r',
        "--rust"@[2] == 'r',
        "--rust-module-root-file"@[2] == 'r',
        "--rust-serialize"@[2] == 'r',
        "--schema"@[2] == 's',
        "--scoped-enums"@[2] == 's',
        "--size-prefixed"@[2] == 's',
        "--strict-json"@[2] == 's',
        "--swift"@[2] == 's',
        "--ts"@[2] == 't',
        "--ts-entry-points"@[2] == 't',
        "--ts-flat-files"@[2] == 't',
        "--ts-omit-entrypoint"@[2] == 't',
        "--unknown-json"@[2] == 'u',
        "--warnings-as-errors"@[2] == 'w',
        "-I"@[1] == 'I',
        "-o"@[1] == 'o',
        "c++0x"@[0] == 'c',
        "c++0x"@[3] == '0',
        "c++11"@[0] == 'c',
        "c++11"@[3] == '1',
        "c++11"@[4] == '1',
        "c++17"@[0] == 'c',
        "c++17"@[3] == '1',
        "c++17"@[4] == '7',
{
    reveal_strlit("--grpc");
    reveal_strlit("-o");
    reveal_strlit("-I");
    reveal_strlit("--binary");
    reveal_strlit("--json");
    reveal_strlit("--jsonschema");
    reveal_strlit("--strict-json");
    reveal_strlit("--allow-non-utf8");
    reveal_strlit("--natural-utf8");
    reveal_strlit("--defaults-json");
    reveal_strlit("--unknown-json");
    reveal_strlit("--no-prefix");
    reveal_strlit("--scoped-enums");
    reveal_strlit("--no-emit-min-max-enum-values");
    reveal_strlit("--swift-implementation-only");
    reveal_strlit("--no-includes");
    reveal_strlit("--gen-mutable");
    reveal_strlit("--gen-onefile");
    reveal_strlit("--gen-name-strings");
    reveal_strlit("--gen-object-api");
    reveal_strlit("--gen-compare");
    reveal_strlit("--gen-nullable");
    reveal_strlit("--java-package-prefix");
    reveal_strlit("--java-checkerframework");
    reveal_strlit("--gen-generated");
    reveal_strlit("--gen-jvmstatic");
    reveal_strlit("--gen-all");
    reveal_strlit("--gen-json-emit");
    reveal_strlit("--cpp-include");
    reveal_strlit("--cpp-ptr-type");
    reveal_strlit("--cpp-str-type");
    reveal_strlit("--cpp-str-flex-ctor");
    reveal_strlit("--cpp-field-case-style");
    reveal_strlit("--no-cpp-direct-copy");
    reveal_strlit("--cpp-std");
    reveal_strlit("--cpp-static-reflection");
    reveal_strlit("--object-prefix");
    reveal_strlit("--object-suffix");
    reveal_strlit("--go-namespace");
    reveal_strlit("--go-import");
    reveal_strlit("--go-module-name");
    reveal_strlit("--raw-binary");
    reveal_strlit("--size-prefixed");
    reveal_strlit("--proto");
    reveal_strlit("--proto-namespace-suffix");
    reveal_strlit("--oneof-union");
    reveal_strlit("--keep-proto-id");
    reveal_strlit("--proto-id-gap");
    reveal_strlit("--schema");
    reveal_strlit("--bfbs-filenames");
    reveal_strlit("--bfbs-absolute-paths");
    reveal_strlit("--bfbs-comments");
    reveal_strlit("--bfbs-builtins");
    reveal_strlit("--bfbs-gen-embed");
    reveal_strlit("--conform");
    reveal_strlit("--conform-includes");
    reveal_strlit("--filename-suffix");
    reveal_strlit("--filename-ext");
    reveal_strlit("--include-prefix");
    reveal_strlit("--keep-prefix");
    reveal_strlit("--reflect-types");
    reveal_strlit("--reflect-names");
    reveal_strlit("--rust-serialize");
    reveal_strlit("--rust-module-root-file");
    reveal_strlit("--root-type");
    reveal_strlit("--require-explicit-ids");
    reveal_strlit("--force-defaults");
    reveal_strlit("--force-empty");
    reveal_strlit("--force-empty-vectors");
    reveal_strlit("--flexbuffers");
    reveal_strlit("--no-warnings");
    reveal_strlit("--warnings-as-errors");
    reveal_strlit("--cs-global-alias");
    reveal_strlit("--cs-gen-json-serializer");
    reveal_strlit("--json-nested-bytes");
    reveal_strlit("--ts-flat-files");
    reveal_strlit("--ts-entry-points");
    reveal_strlit("--annotate-sparse-vectors");
    reveal_strlit("--annotate");
    reveal_strlit("--no-leak-private-annotation");
    reveal_strlit("--python-no-type-prefix-suffix");
    reveal_strlit("--python-typing");
    reveal_strlit("--python-version");
    reveal_strlit("--python-gen-numpy");
    reveal_strlit("--ts-omit-entrypoint");
    reveal_strlit("--file-names-only");
    reveal_strlit("--grpc-filename-suffix");
    reveal_strlit("--grpc-additional-header");
    reveal_strlit("--grpc-search-path");
    reveal_strlit("--grpc-use-system-headers");
    reveal_strlit("--grpc-python-typed-handlers");
    reveal_strlit("--cpp");
    reveal_strlit("--java");
    reveal_strlit("--kotlin");
    reveal_strlit("--kotlin-kmp");
    reveal_strlit("--csharp");
    reveal_strlit("--go");
    reveal_strlit("--python");
    reveal_strlit("--js");
    reveal_strlit("--ts");
    reveal_strlit("--php");
    reveal_strlit("--dart");
    reveal_strlit("--lua");
    reveal_strlit("--lobster");
    reveal_strlit("--rust");
    reveal_strlit("--swift");
    reveal_strlit("--nim");
    reveal_strlit("c++0x");
    reveal_strlit("c++11");
    reveal_strlit("c++17");
}

/// Where each option flag stands in the token list.
proof fn lemma_flatc_token_indexes()
    ensures
        flatc_flag_tokens()[0] == "--grpc"@,
        flatc_flag_tokens()[1] == "-o"@,
        flatc_flag_tokens()[2] == "-I"@,
        flatc_flag_tokens()[3] == "--binary"@,
        flatc_flag_tokens()[4] == "--json"@,
        flatc_flag_tokens()[5] == "--jsonschema"@,
        flatc_flag_tokens()[6] == "--strict-json"@,
        flatc_flag_tokens()[7] == "--allow-non-utf8"@,
        flatc_flag_tokens()[8] == "--natural-utf8"@,
        flatc_flag_tokens()[9] == "--defaults-json"@,
        flatc_flag_tokens()[10] == "--unknown-json"@,
        flatc_flag_tokens()[11] == "--no-prefix"@,
        flatc_flag_tokens()[12] == "--scoped-enums"@,
        flatc_flag_tokens()[13] == "--no-emit-min-max-enum-values"@,
        flatc_flag_tokens()[14] == "--swift-implementation-only"@,
        flatc_flag_tokens()[15] == "--no-includes"@,
        flatc_flag_tokens()[16] == "--gen-mutable"@,
        flatc_flag_tokens()[17] == "--gen-onefile"@,
        flatc_flag_tokens()[18] == "--gen-name-strings"@,
        flatc_flag_tokens()[19] == "--gen-object-api"@,
        flatc_flag_tokens()[20] == "--gen-compare"@,
        flatc_flag_tokens()[21] == "--gen-nullable"@,
        flatc_flag_tokens()[22] == "--java-package-prefix"@,
        flatc_flag_tokens()[23] == "--java-checkerframework"@,
        flatc_flag_tokens()[24] == "--gen-generated"@,
        flatc_flag_tokens()[25] == "--gen-jvmstatic"@,
        flatc_flag_tokens()[26] == "--gen-all"@,
        flatc_flag_tokens()[27] == "--gen-json-emit"@,
        flatc_flag_tokens()[28] == "--cpp-include"@,
        flatc_flag_tokens()[29] == "--cpp-ptr-type"@,
        flatc_flag_tokens()[30] == "--cpp-str-type"@,
        flatc_flag_tokens()[31] == "--cpp-str-flex-ctor"@,
        flatc_flag_tokens()[32] == "--cpp-field-case-style"@,
        flatc_flag_tokens()[33] == "--no-cpp-direct-copy"@,
        flatc_flag_tokens()[34] == "--cpp-std"@,
        flatc_flag_tokens()[35] == "--cpp-static-reflection"@,
        flatc_flag_tokens()[36] == "--object-prefix"@,
        flatc_flag_tokens()[37] == "--object-suffix"@,
        flatc_flag_tokens()[38] == "--go-namespace"@,
        flatc_flag_tokens()[39] == "--go-import"@,
        flatc_flag_tokens()[40] == "--go-module-name"@,
        flatc_flag_tokens()[41] == "--raw-binary"@,
        flatc_flag_tokens()[42] == "--size-prefixed"@,
        flatc_flag_tokens()[43] == "--proto"@,
        flatc_flag_tokens()[44] == "--proto-namespace-suffix"@,
        flatc_flag_tokens()[45] == "--oneof-union"@,
        flatc_flag_tokens()[46] == "--keep-proto-id"@,
        flatc_flag_tokens()[47] == "--proto-id-gap"@,
        flatc_flag_tokens()[48] == "--schema"@,
        flatc_flag_tokens()[49] == "--bfbs-filenames"@,
        flatc_flag_tokens()[50] == "--bfbs-absolute-paths"@,
        flatc_flag_tokens()[51] == "--bfbs-comments"@,
        flatc_flag_tokens()[52] == "--bfbs-builtins"@,
        flatc_flag_tokens()[53] == "--bfbs-gen-embed"@,
        flatc_flag_tokens()[54] == "--conform"@,
        flatc_flag_tokens()[55] == "--conform-includes"@,
        flatc_flag_tokens()[56] == "--filename-suffix"@,
        flatc_flag_tokens()[57] == "--filename-ext"@,
        flatc_flag_tokens()[58] == "--include-prefix"@,
        flatc_flag_tokens()[59] == "--keep-prefix"@,
        flatc_flag_tokens()[60] == "--reflect-types"@,
        flatc_flag_tokens()[61] == "--reflect-names"@,
        flatc_flag_tokens()[62] == "--rust-serialize"@,
        flatc_flag_tokens()[63] == "--rust-module-root-file"@,
        flatc_flag_tokens()[64] == "--root-type"@,
        flatc_flag_tokens()[65] == "--require-explicit-ids"@,
        flatc_flag_tokens()[66] == "--force-defaults"@,
        flatc_flag_tokens()[67] == "--force-empty"@,
        flatc_flag_tokens()[68] == "--force-empty-vectors"@,
        flatc_flag_tokens()[69] == "--flexbuffers"@,
        flatc_flag_tokens()[70] == "--no-warnings"@,
        flatc_flag_tokens()[71] == "--warnings-as-errors"@,
        flatc_flag_tokens()[72] == "--cs-global-alias"@,
        flatc_flag_tokens()[73] == "--cs-gen-json-serializer"@,
        flatc_flag_tokens()[74] == "--json-nested-bytes"@,
        flatc_flag_tokens()[75] == "--ts-flat-files"@,
        flatc_flag_tokens()[76] == "--ts-entry-points"@,
        flatc_flag_tokens()[77] == "--annotate-sparse-vectors"@,
        flatc_flag_tokens()[78] == "--annotate"@,
        flatc_flag_tokens()[79] == "--no-leak-private-annotation"@,
        flatc_flag_tokens()[80] == "--python-no-type-prefix-suffix"@,
        flatc_flag_tokens()[81] == "--python-typing"@,
        flatc_flag_tokens()[82] == "--python-version"@,
        flatc_flag_tokens()[83] == "--python-gen-numpy"@,
        flatc_flag_tokens()[84] == "--ts-omit-entrypoint"@,
        flatc_flag_tokens()[85] == "--file-names-only"@,
        flatc_flag_tokens()[86] == "--grpc-filename-suffix"@,
        flatc_flag_tokens()[87] == "--grpc-additional-header"@,
        flatc_flag_tokens()[88] == "--grpc-search-path"@,
        flatc_flag_tokens()[89] == "--grpc-use-system-headers"@,
        flatc_flag_tokens()[90] == "--grpc-python-typed-handlers"@,
{
    reveal_strlit("--grpc");
    reveal_strlit("-o");
    reveal_strlit("-I");
    reveal_strlit("--binary");
    reveal_strlit("--json");
    reveal_strlit("--jsonschema");
    reveal_strlit("--strict-json");
    reveal_strlit("--allow-non-utf8");
    reveal_strlit("--natural-utf8");
    reveal_strlit("--defaults-json");
    reveal_strlit("--unknown-json");
    reveal_strlit("--no-prefix");
    reveal_strlit("--scoped-enums");
    reveal_strlit("--no-emit-min-max-enum-values");
    reveal_strlit("--swift-implementation-only");
    reveal_strlit("--no-includes");
    reveal_strlit("--gen-mutable");
    reveal_strlit("--gen-onefile");
    reveal_strlit("--gen-name-strings");
    reveal_strlit("--gen-object-api");
    reveal_strlit("--gen-compare");
    reveal_strlit("--gen-nullable");
    reveal_strlit("--java-package-prefix");
    reveal_strlit("--java-checkerframework");
    reveal_strlit("--gen-generated");
    reveal_strlit("--gen-jvmstatic");
    reveal_strlit("--gen-all");
    reveal_strlit("--gen-json-emit");
    reveal_strlit("--cpp-include");
    reveal_strlit("--cpp-ptr-type");
    reveal_strlit("--cpp-str-type");
    reveal_strlit("--cpp-str-flex-ctor");
    reveal_strlit("--cpp-field-case-style");
    reveal_strlit("--no-cpp-direct-copy");
    reveal_strlit("--cpp-std");
    reveal_strlit("--cpp-static-reflection");
    reveal_strlit("--object-prefix");
    reveal_strlit("--object-suffix");
    reveal_strlit("--go-namespace");
    reveal_strlit("--go-import");
    reveal_strlit("--go-module-name");
    reveal_strlit("--raw-binary");
    reveal_strlit("--size-prefixed");
    reveal_strlit("--proto");
    reveal_strlit("--proto-namespace-suffix");
    reveal_strlit("--oneof-union");
    reveal_strlit("--keep-proto-id");
    reveal_strlit("--proto-id-gap");
    reveal_strlit("--schema");
    reveal_strlit("--bfbs-filenames");
    reveal_strlit("--bfbs-absolute-paths");
    reveal_strlit("--bfbs-comments");
    reveal_strlit("--bfbs-builtins");
    reveal_strlit("--bfbs-gen-embed");
    reveal_strlit("--conform");
    reveal_strlit("--conform-includes");
    reveal_strlit("--filename-suffix");
    reveal_strlit("--filename-ext");
    reveal_strlit("--include-prefix");
    reveal_strlit("--keep-prefix");
    reveal_strlit("--reflect-types");
    reveal_strlit("--reflect-names");
    reveal_strlit("--rust-serialize");
    reveal_strlit("--rust-module-root-file");
    reveal_strlit("--root-type");
    reveal_strlit("--require-explicit-ids");
    reveal_strlit("--force-defaults");
    reveal_strlit("--force-empty");
    reveal_strlit("--force-empty-vectors");
    reveal_strlit("--flexbuffers");
    reveal_strlit("--no-warnings");
    reveal_strlit("--warnings-as-errors");
    reveal_strlit("--cs-global-alias");
    reveal_strlit("--cs-gen-json-serializer");
    reveal_strlit("--json-nested-bytes");
    reveal_strlit("--ts-flat-files");
    reveal_strlit("--ts-entry-points");
    reveal_strlit("--annotate-sparse-vectors");
    reveal_strlit("--annotate");
    reveal_strlit("--no-leak-private-annotation");
    reveal_strlit("--python-no-type-prefix-suffix");
    reveal_strlit("--python-typing");
    reveal_strlit("--python-version");
    reveal_strlit("--python-gen-numpy");
    reveal_strlit("--ts-omit-entrypoint");
    reveal_strlit("--file-names-only");
    reveal_strlit("--grpc-filename-suffix");
    reveal_strlit("--grpc-additional-header");
    reveal_strlit("--grpc-search-path");
    reveal_strlit("--grpc-use-system-headers");
    reveal_strlit("--grpc-python-typed-handlers");
    reveal_strlit("--cpp");
    reveal_strlit("--java");
    reveal_strlit("--kotlin");
    reveal_strlit("--kotlin-kmp");
    reveal_strlit("--csharp");
    reveal_strlit("--go");
    reveal_strlit("--python");
    reveal_strlit("--js");
    reveal_strlit("--ts");
    reveal_strlit("--php");
    reveal_strlit("--dart");
    reveal_strlit("--lua");
    reveal_strlit("--lobster");
    reveal_strlit("--rust");
    reveal_strlit("--swift");
    reveal_strlit("--nim");
    reveal_strlit("c++0x");
    reveal_strlit("c++11");
    reveal_strlit("c++17");
}


/// The token count of this group of the argument list.
#[verifier::rlimit(100)]
proof fn lemma_flatc_count_io(o: FlatCOptions, t: Seq<char>)
    ensures
        tok_count(flatc_args_io(o), t) as int == langs_contrib(o.languages@, t) + flag_contrib("--grpc"@, o.grpc, t) + opt_contrib("-o"@, o.output_path, t) + list_contrib("-I"@, args_view(o.include_paths@), t) + flag_contrib("--binary"@, o.binary, t) + flag_contrib("--json"@, o.json, t) + flag_contrib("--jsonschema"@, o.jsonschema, t),
{
    let s0 = langs_seg(o.languages@);
    let s1 = flag_seg("--grpc"@, o.grpc);
    let s2 = opt_seg("-o"@, o.output_path);
    let s3 = list_seg("-I"@, args_view(o.include_paths@));
    let s4 = flag_seg("--binary"@, o.binary);
    let s5 = flag_seg("--json"@, o.json);
    let s6 = flag_seg("--jsonschema"@, o.jsonschema);
    assert(flatc_args_io(o) == s0 + s1 + s2 + s3 + s4 + s5 + s6);
    lemma_tok_count_concat(s0, s1, t);
    lemma_tok_count_concat(s0 + s1, s2, t);
    lemma_tok_count_concat(s0 + s1 + s2, s3, t);
    lemma_tok_count_concat(s0 + s1 + s2 + s3, s4, t);
    lemma_tok_count_concat(s0 + s1 + s2 + s3 + s4, s5, t);
    lemma_tok_count_concat(s0 + s1 + s2 + s3 + s4 + s5, s6, t);
    lemma_tok_count_langs_seg(o.languages@, t);
    lemma_tok_count_flag_seg("--grpc"@, o.grpc, t);
    lemma_tok_count_opt_seg("-o"@, o.output_path, t);
    lemma_tok_count_list_seg("-I"@, args_view(o.include_paths@), t);
    lemma_tok_count_flag_seg("--binary"@, o.binary, t);
    lemma_tok_count_flag_seg("--json"@, o.json, t);
    lemma_tok_count_flag_seg("--jsonschema"@, o.jsonschema, t);
}

/// The token count of the first stretch of this group.
#[verifier::rlimit(100)]
proof fn lemma_flatc_count_json_a(o: FlatCOptions, t: Seq<char>)
    ensures
        tok_count(flag_seg("--strict-json"@, o.strict_json) + flag_seg("--allow-non-utf8"@, o.allow_non_utf8) + flag_seg("--natural-utf8"@, o.natural_utf8) + flag_seg("--defaults-json"@, o.defaults_json) + flag_seg("--unknown-json"@, o.unknown_json), t) as int == flag_contrib("--strict-json"@, o.strict_json, t) + flag_contrib("--allow-non-utf8"@, o.allow_non_utf8, t) + flag_contrib("--natural-utf8"@, o.natural_utf8, t) + flag_contrib("--defaults-json"@, o.defaults_json, t) + flag_contrib("--unknown-json"@, o.unknown_json, t),
{
    let s0 = flag_seg("--strict-json"@, o.strict_json);
    let s1 = flag_seg("--allow-non-utf8"@, o.allow_non_utf8);
    let s2 = flag_seg("--natural-utf8"@, o.natural_utf8);
    let s3 = flag_seg("--defaults-json"@, o.defaults_json);
    let s4 = flag_seg("--unknown-json"@, o.unknown_json);
    lemma_tok_count_concat(s0, s1, t);
    lemma_tok_count_concat(s0 + s1, s2, t);
    lemma_tok_count_concat(s0 + s1 + s2, s3, t);
    lemma_tok_count_concat(s0 + s1 + s2 + s3, s4, t);
    lemma_tok_count_flag_seg("--strict-json"@, o.strict_json, t);
    lemma_tok_count_flag_seg("--allow-non-utf8"@, o.allow_non_utf8, t);
    lemma_tok_count_flag_seg("--natural-utf8"@, o.natural_utf8, t);
    lemma_tok_count_flag_seg("--defaults-json"@, o.defaults_json, t);
    lemma_tok_count_flag_seg("--unknown-json"@, o.unknown_json, t);
}

/// The token count of this group of the argument list.
#[verifier::rlimit(100)]
proof fn lemma_flatc_count_json(o: FlatCOptions, t: Seq<char>)
    ensures
        tok_count(flatc_args_json(o), t) as int == flag_contrib("--strict-json"@, o.strict_json, t) + flag_contrib("--allow-non-utf8"@, o.allow_non_utf8, t) + flag_contrib("--natural-utf8"@, o.natural_utf8, t) + flag_contrib("--defaults-json"@, o.defaults_json, t) + flag_contrib("--unknown-json"@, o.unknown_json, t) + flag_contrib("--no-prefix"@, o.no_prefix, t) + flag_contrib("--scoped-enums"@, o.scoped_enums, t) + flag_contrib("--no-emit-min-max-enum-values"@, o.no_emit_min_max_enum_values, t) + flag_contrib("--swift-implementation-only"@, o.swift_implementation_only, t) + flag_contrib("--no-includes"@, o.no_includes, t),
{
    lemma_flatc_count_json_a(o, t);
    lemma_tok_count_concat(flag_seg("--strict-json"@, o.strict_json) + flag_seg("--allow-non-utf8"@, o.allow_non_utf8) + flag_seg("--natural-utf8"@, o.natural_utf8) + flag_seg("--defaults-json"@, o.defaults_json) + flag_seg("--unknown-json"@, o.unknown_json), flag_seg("--no-prefix"@, o.no_prefix), t);
    lemma_tok_count_flag_seg("--no-prefix"@, o.no_prefix, t);
    lemma_tok_count_concat(flag_seg("--strict-json"@, o.strict_json) + flag_seg("--allow-non-utf8"@, o.allow_non_utf8) + flag_seg("--natural-utf8"@, o.natural_utf8) + flag_seg("--defaults-json"@, o.defaults_json) + flag_seg("--unknown-json"@, o.unknown_json) + flag_seg("--no-prefix"@, o.no_prefix), flag_seg("--scoped-enums"@, o.scoped_enums), t);
    lemma_tok_count_flag_seg("--scoped-enums"@, o.scoped_enums, t);
    lemma_tok_count_concat(flag_seg("--strict-json"@, o.strict_json) + flag_seg("--allow-non-utf8"@, o.allow_non_utf8) + flag_seg("--natural-utf8"@, o.natural_utf8) + flag_seg("--defaults-json"@, o.defaults_json) + flag_seg("--unknown-json"@, o.unknown_json) + flag_seg("--no-prefix"@, o.no_prefix) + flag_seg("--scoped-enums"@, o.scoped_enums), flag_seg("--no-emit-min-max-enum-values"@, o.no_emit_min_max_enum_values), t);
    lemma_tok_count_flag_seg("--no-emit-min-max-enum-values"@, o.no_emit_min_max_enum_values, t);
    lemma_tok_count_concat(flag_seg("--strict-json"@, o.strict_json) + flag_seg("--allow-non-utf8"@, o.allow_non_utf8) + flag_seg("--natural-utf8"@, o.natural_utf8) + flag_seg("--defaults-json"@, o.defaults_json) + flag_seg("--unknown-json"@, o.unknown_json) + flag_seg("--no-prefix"@, o.no_prefix) + flag_seg("--scoped-enums"@, o.scoped_enums) + flag_seg("--no-emit-min-max-enum-values"@, o.no_emit_min_max_enum_values), flag_seg("--swift-implementation-only"@, o.swift_implementation_only), t);
    lemma_tok_count_flag_seg("--swift-implementation-only"@, o.swift_implementation_only, t);
    lemma_tok_count_concat(flag_seg("--strict-json"@, o.strict_json) + flag_seg("--allow-non-utf8"@, o.allow_non_utf8) + flag_seg("--natural-utf8"@, o.natural_utf8) + flag_seg("--defaults-json"@, o.defaults_json) + flag_seg("--unknown-json"@, o.unknown_json) + flag_seg("--no-prefix"@, o.no_prefix) + flag_seg("--scoped-enums"@, o.scoped_enums) + flag_seg("--no-emit-min-max-enum-values"@, o.no_emit_min_max_enum_values) + flag_seg("--swift-implementation-only"@, o.swift_implementation_only), flag_seg("--no-includes"@, o.no_includes), t);
    lemma_tok_count_flag_seg("--no-includes"@, o.no_includes, t);
}

/// The token count of the first stretch of this group.
#[verifier::rlimit(100)]
proof fn lemma_flatc_count_gen_a(o: FlatCOptions, t: Seq<char>)
    ensures
        tok_count(flag_seg("--gen-mutable"@, o.gen_mutable) + flag_seg("--gen-onefile"@, o.gen_onefile) + flag_seg("--gen-name-strings"@, o.gen_name_strings) + flag_seg("--gen-object-api"@, o.gen_object_api) + flag_seg("--gen-compare"@, o.gen_compare) + flag_seg("--gen-nullable"@, o.gen_nullable), t) as int == flag_contrib("--gen-mutable"@, o.gen_mutable, t) + flag_contrib("--gen-onefile"@, o.gen_onefile, t) + flag_contrib("--gen-name-strings"@, o.gen_name_strings, t) + flag_contrib("--gen-object-api"@, o.gen_object_api, t) + flag_contrib("--gen-compare"@, o.gen_compare, t) + flag_contrib("--gen-nullable"@, o.gen_nullable, t),
{
    let s0 = flag_seg("--gen-mutable"@, o.gen_mutable);
    let s1 = flag_seg("--gen-onefile"@, o.gen_onefile);
    let s2 = flag_seg("--gen-name-strings"@, o.gen_name_strings);
    let s3 = flag_seg("--gen-object-api"@, o.gen_object_api);
    let s4 = flag_seg("--gen-compare"@, o.gen_compare);
    let s5 = flag_seg("--gen-nullable"@, o.gen_nullable);
    lemma_tok_count_concat(s0, s1, t);
    lemma_tok_count_concat(s0 + s1, s2, t);
    lemma_tok_count_concat(s0 + s1 + s2, s3, t);
    lemma_tok_count_concat(s0 + s1 + s2 + s3, s4, t);
    lemma_tok_count_concat(s0 + s1 + s2 + s3 + s4, s5, t);
    lemma_tok_count_flag_seg("--gen-mutable"@, o.gen_mutable, t);
    lemma_tok_count_flag_seg("--gen-onefile"@, o.gen_onefile, t);
    lemma_tok_count_flag_seg("--gen-name-strings"@, o.gen_name_strings, t);
    lemma_tok_count_flag_seg("--gen-object-api"@, o.gen_object_api, t);
    lemma_tok_count_flag_seg("--gen-compare"@, o.gen_compare, t);
    lemma_tok_count_flag_seg("--gen-nullable"@, o.gen_nullable, t);
}

/// The token count of this group of the argument list.
#[verifier::rlimit(100)]
proof fn lemma_flatc_count_gen(o: FlatCOptions, t: Seq<char>)
    ensures
        tok_count(flatc_args_gen(o), t) as int == flag_contrib("--gen-mutable"@, o.gen_mutable, t) + flag_contrib("--gen-onefile"@, o.gen_onefile, t) + flag_contrib("--gen-name-strings"@, o.gen_name_strings, t) + flag_contrib("--gen-object-api"@, o.gen_object_api, t) + flag_contrib("--gen-compare"@, o.gen_compare, t) + flag_contrib("--gen-nullable"@, o.gen_nullable, t) + opt_contrib("--java-package-prefix"@, o.java_package_prefix, t) + flag_contrib("--java-checkerframework"@, o.java_checkerframework, t) + flag_contrib("--gen-generated"@, o.gen_generated, t) + flag_contrib("--gen-jvmstatic"@, o.gen_jvmstatic, t) + flag_contrib("--gen-all"@, o.gen_all, t) + flag_contrib("--gen-json-emit"@, o.gen_json_emit, t),
{
    lemma_flatc_count_gen_a(o, t);
    lemma_tok_count_concat(flag_seg("--gen-mutable"@, o.gen_mutable) + flag_seg("--gen-onefile"@, o.gen_onefile) + flag_seg("--gen-name-strings"@, o.gen_name_strings) + flag_seg("--gen-object-api"@, o.gen_object_api) + flag_seg("--gen-compare"@, o.gen_compare) + flag_seg("--gen-nullable"@, o.gen_nullable), opt_seg("--java-package-prefix"@, o.java_package_prefix), t);
    lemma_tok_count_opt_seg("--java-package-prefix"@, o.java_package_prefix, t);
    lemma_tok_count_concat(flag_seg("--gen-mutable"@, o.gen_mutable) + flag_seg("--gen-onefile"@, o.gen_onefile) + flag_seg("--gen-name-strings"@, o.gen_name_strings) + flag_seg("--gen-object-api"@, o.gen_object_api) + flag_seg("--gen-compare"@, o.gen_compare) + flag_seg("--gen-nullable"@, o.gen_nullable) + opt_seg("--java-package-prefix"@, o.java_package_prefix), flag_seg("--java-checkerframework"@, o.java_checkerframework), t);
    lemma_tok_count_flag_seg("--java-checkerframework"@, o.java_checkerframework, t);
    lemma_tok_count_concat(flag_seg("--gen-mutable"@, o.gen_mutable) + flag_seg("--gen-onefile"@, o.gen_onefile) + flag_seg("--gen-name-strings"@, o.gen_name_strings) + flag_seg("--gen-object-api"@, o.gen_object_api) + flag_seg("--gen-compare"@, o.gen_compare) + flag_seg("--gen-nullable"@, o.gen_nullable) + opt_seg("--java-package-prefix"@, o.java_package_prefix) + flag_seg("--java-checkerframework"@, o.java_checkerframework), flag_seg("--gen-generated"@, o.gen_generated), t);
    lemma_tok_count_flag_seg("--gen-generated"@, o.gen_generated, t);
    lemma_tok_count_concat(flag_seg("--gen-mutable"@, o.gen_mutable) + flag_seg("--gen-onefile"@, o.gen_onefile) + flag_seg("--gen-name-strings"@, o.gen_name_strings) + flag_seg("--gen-object-api"@, o.gen_object_api) + flag_seg("--gen-compare"@, o.gen_compare) + flag_seg("--gen-nullable"@, o.gen_nullable) + opt_seg("--java-package-prefix"@, o.java_package_prefix) + flag_seg("--java-checkerframework"@, o.java_checkerframework) + flag_seg("--gen-generated"@, o.gen_generated), flag_seg("--gen-jvmstatic"@, o.gen_jvmstatic), t);
    lemma_tok_count_flag_seg("--gen-jvmstatic"@, o.gen_jvmstatic, t);
    lemma_tok_count_concat(flag_seg("--gen-mutable"@, o.gen_mutable) + flag_seg("--gen-onefile"@, o.gen_onefile) + flag_seg("--gen-name-strings"@, o.gen_name_strings) + flag_seg("--gen-object-api"@, o.gen_object_api) + flag_seg("--gen-compare"@, o.gen_compare) + flag_seg("--gen-nullable"@, o.gen_nullable) + opt_seg("--java-package-prefix"@, o.java_package_prefix) + flag_seg("--java-checkerframework"@, o.java_checkerframework) + flag_seg("--gen-generated"@, o.gen_generated) + flag_seg("--gen-jvmstatic"@, o.gen_jvmstatic), flag_seg("--gen-all"@, o.gen_all), t);
    lemma_tok_count_flag_seg("--gen-all"@, o.gen_all, t);
    lemma_tok_count_concat(flag_seg("--gen-mutable"@, o.gen_mutable) + flag_seg("--gen-onefile"@, o.gen_onefile) + flag_seg("--gen-name-strings"@, o.gen_name_strings) + flag_seg("--gen-object-api"@, o.gen_object_api) + flag_seg("--gen-compare"@, o.gen_compare) + flag_seg("--gen-nullable"@, o.gen_nullable) + opt_seg("--java-package-prefix"@, o.java_package_prefix) + flag_seg("--java-checkerframework"@, o.java_checkerframework) + flag_seg("--gen-generated"@, o.gen_generated) + flag_seg("--gen-jvmstatic"@, o.gen_jvmstatic) + flag_seg("--gen-all"@, o.gen_all), flag_seg("--gen-json-emit"@, o.gen_json_emit), t);
    lemma_tok_count_flag_seg("--gen-json-emit"@, o.gen_json_emit, t);
}

/// The token count of the first stretch of this group.
#[verifier::rlimit(100)]
proof fn lemma_flatc_count_cpp_a(o: FlatCOptions, t: Seq<char>)
    ensures
        tok_count(list_seg("--cpp-include"@, args_view(o.cpp_include@)) + opt_seg("--cpp-ptr-type"@, o.cpp_ptr_type) + opt_seg("--cpp-str-type"@, o.cpp_str_type) + flag_seg("--cpp-str-flex-ctor"@, o.cpp_str_flex_ctor) + opt_seg("--cpp-field-case-style"@, o.cpp_field_case_style), t) as int == list_contrib("--cpp-include"@, args_view(o.cpp_include@), t) + opt_contrib("--cpp-ptr-type"@, o.cpp_ptr_type, t) + opt_contrib("--cpp-str-type"@, o.cpp_str_type, t) + flag_contrib("--cpp-str-flex-ctor"@, o.cpp_str_flex_ctor, t) + opt_contrib("--cpp-field-case-style"@, o.cpp_field_case_style, t),
{
    let s0 = list_seg("--cpp-include"@, args_view(o.cpp_include@));
    let s1 = opt_seg("--cpp-ptr-type"@, o.cpp_ptr_type);
    let s2 = opt_seg("--cpp-str-type"@, o.cpp_str_type);
    let s3 = flag_seg("--cpp-str-flex-ctor"@, o.cpp_str_flex_ctor);
    let s4 = opt_seg("--cpp-field-case-style"@, o.cpp_field_case_style);
    lemma_tok_count_concat(s0, s1, t);
    lemma_tok_count_concat(s0 + s1, s2, t);
    lemma_tok_count_concat(s0 + s1 + s2, s3, t);
    lemma_tok_count_concat(s0 + s1 + s2 + s3, s4, t);
    lemma_tok_count_list_seg("--cpp-include"@, args_view(o.cpp_include@), t);
    lemma_tok_count_opt_seg("--cpp-ptr-type"@, o.cpp_ptr_type, t);
    lemma_tok_count_opt_seg("--cpp-str-type"@, o.cpp_str_type, t);
    lemma_tok_count_flag_seg("--cpp-str-flex-ctor"@, o.cpp_str_flex_ctor, t);
    lemma_tok_count_opt_seg("--cpp-field-case-style"@, o.cpp_field_case_style, t);
}

/// The token count of this group of the argument list.
#[verifier::rlimit(100)]
proof fn lemma_flatc_count_cpp(o: FlatCOptions, t: Seq<char>)
    ensures
        tok_count(flatc_args_cpp(o), t) as int == list_contrib("--cpp-include"@, args_view(o.cpp_include@), t) + opt_contrib("--cpp-ptr-type"@, o.cpp_ptr_type, t) + opt_contrib("--cpp-str-type"@, o.cpp_str_type, t) + flag_contrib("--cpp-str-flex-ctor"@, o.cpp_str_flex_ctor, t) + opt_contrib("--cpp-field-case-style"@, o.cpp_field_case_style, t) + flag_contrib("--no-cpp-direct-copy"@, o.no_cpp_direct_copy, t) + cpp_std_contrib(o.cpp_std, t) + flag_contrib("--cpp-static-reflection"@, o.cpp_static_reflection, t) + opt_contrib("--object-prefix"@, o.object_prefix, t) + opt_contrib("--object-suffix"@, o.object_suffix, t),
{
    lemma_flatc_count_cpp_a(o, t);
    lemma_tok_count_concat(list_seg("--cpp-include"@, args_view(o.cpp_include@)) + opt_seg("--cpp-ptr-type"@, o.cpp_ptr_type) + opt_seg("--cpp-str-type"@, o.cpp_str_type) + flag_seg("--cpp-str-flex-ctor"@, o.cpp_str_flex_ctor) + opt_seg("--cpp-field-case-style"@, o.cpp_field_case_style), flag_seg("--no-cpp-direct-copy"@, o.no_cpp_direct_copy), t);
    lemma_tok_count_flag_seg("--no-cpp-direct-copy"@, o.no_cpp_direct_copy, t);
    lemma_tok_count_concat(list_seg("--cpp-include"@, args_view(o.cpp_include@)) + opt_seg("--cpp-ptr-type"@, o.cpp_ptr_type) + opt_seg("--cpp-str-type"@, o.cpp_str_type) + flag_seg("--cpp-str-flex-ctor"@, o.cpp_str_flex_ctor) + opt_seg("--cpp-field-case-style"@, o.cpp_field_case_style) + flag_seg("--no-cpp-direct-copy"@, o.no_cpp_direct_copy), cpp_std_seg(o.cpp_std), t);
    lemma_tok_count_cpp_std_seg(o.cpp_std, t);
    lemma_tok_count_concat(list_seg("--cpp-include"@, args_view(o.cpp_include@)) + opt_seg("--cpp-ptr-type"@, o.cpp_ptr_type) + opt_seg("--cpp-str-type"@, o.cpp_str_type) + flag_seg("--cpp-str-flex-ctor"@, o.cpp_str_flex_ctor) + opt_seg("--cpp-field-case-style"@, o.cpp_field_case_style) + flag_seg("--no-cpp-direct-copy"@, o.no_cpp_direct_copy) + cpp_std_seg(o.cpp_std), flag_seg("--cpp-static-reflection"@, o.cpp_static_reflection), t);
    lemma_tok_count_flag_seg("--cpp-static-reflection"@, o.cpp_static_reflection, t);
    lemma_tok_count_concat(list_seg("--cpp-include"@, args_view(o.cpp_include@)) + opt_seg("--cpp-ptr-type"@, o.cpp_ptr_type) + opt_seg("--cpp-str-type"@, o.cpp_str_type) + flag_seg("--cpp-str-flex-ctor"@, o.cpp_str_flex_ctor) + opt_seg("--cpp-field-case-style"@, o.cpp_field_case_style) + flag_seg("--no-cpp-direct-copy"@, o.no_cpp_direct_copy) + cpp_std_seg(o.cpp_std) + flag_seg("--cpp-static-reflection"@, o.cpp_static_reflection), opt_seg("--object-prefix"@, o.object_prefix), t);
    lemma_tok_count_opt_seg("--object-prefix"@, o.object_prefix, t);
    lemma_tok_count_concat(list_seg("--cpp-include"@, args_view(o.cpp_include@)) + opt_seg("--cpp-ptr-type"@, o.cpp_ptr_type) + opt_seg("--cpp-str-type"@, o.cpp_str_type) + flag_seg("--cpp-str-flex-ctor"@, o.cpp_str_flex_ctor) + opt_seg("--cpp-field-case-style"@, o.cpp_field_case_style) + flag_seg("--no-cpp-direct-copy"@, o.no_cpp_direct_copy) + cpp_std_seg(o.cpp_std) + flag_seg("--cpp-static-reflection"@, o.cpp_static_reflection) + opt_seg("--object-prefix"@, o.object_prefix), opt_seg("--object-suffix"@, o.object_suffix), t);
    lemma_tok_count_opt_seg("--object-suffix"@, o.object_suffix, t);
}

/// The token count of the first stretch of this group.
#[verifier::rlimit(100)]
proof fn lemma_flatc_count_go_proto_a(o: FlatCOptions, t: Seq<char>)
    ensures
        tok_count(opt_seg("--go-namespace"@, o.go_namespace) + opt_seg("--go-import"@, o.go_import) + opt_seg("--go-module-name"@, o.go_module_name) + flag_seg("--raw-binary"@, o.raw_binary) + flag_seg("--size-prefixed"@, o.size_prefixed), t) as int == opt_contrib("--go-namespace"@, o.go_namespace, t) + opt_contrib("--go-import"@, o.go_import, t) + opt_contrib("--go-module-name"@, o.go_module_name, t) + flag_contrib("--raw-binary"@, o.raw_binary, t) + flag_contrib("--size-prefixed"@, o.size_prefixed, t),
{
    let s0 = opt_seg("--go-namespace"@, o.go_namespace);
    let s1 = opt_seg("--go-import"@, o.go_import);
    let s2 = opt_seg("--go-module-name"@, o.go_module_name);
    let s3 = flag_seg("--raw-binary"@, o.raw_binary);
    let s4 = flag_seg("--size-prefixed"@, o.size_prefixed);
    lemma_tok_count_concat(s0, s1, t);
    lemma_tok_count_concat(s0 + s1, s2, t);
    lemma_tok_count_concat(s0 + s1 + s2, s3, t);
    lemma_tok_count_concat(s0 + s1 + s2 + s3, s4, t);
    lemma_tok_count_opt_seg("--go-namespace"@, o.go_namespace, t);
    lemma_tok_count_opt_seg("--go-import"@, o.go_import, t);
    lemma_tok_count_opt_seg("--go-module-name"@, o.go_module_name, t);
    lemma_tok_count_flag_seg("--raw-binary"@, o.raw_binary, t);
    lemma_tok_count_flag_seg("--size-prefixed"@, o.size_prefixed, t);
}

/// The token count of this group of the argument list.
#[verifier::rlimit(100)]
proof fn lemma_flatc_count_go_proto(o: FlatCOptions, t: Seq<char>)
    ensures
        tok_count(flatc_args_go_proto(o), t) as int == opt_contrib("--go-namespace"@, o.go_namespace, t) + opt_contrib("--go-import"@, o.go_import, t) + opt_contrib("--go-module-name"@, o.go_module_name, t) + flag_contrib("--raw-binary"@, o.raw_binary, t) + flag_contrib("--size-prefixed"@, o.size_prefixed, t) + flag_contrib("--proto"@, o.proto, t) + opt_contrib("--proto-namespace-suffix"@, o.proto_namespace_suffix, t) + flag_contrib("--oneof-union"@, o.oneof_union, t) + flag_contrib("--keep-proto-id"@, o.keep_proto_id, t) + opt_contrib("--proto-id-gap"@, o.proto_id_gap, t) + flag_contrib("--schema"@, o.schema, t),
{
    lemma_flatc_count_go_proto_a(o, t);
    lemma_tok_count_concat(opt_seg("--go-namespace"@, o.go_namespace) + opt_seg("--go-import"@, o.go_import) + opt_seg("--go-module-name"@, o.go_module_name) + flag_seg("--raw-binary"@, o.raw_binary) + flag_seg("--size-prefixed"@, o.size_prefixed), flag_seg("--proto"@, o.proto), t);
    lemma_tok_count_flag_seg("--proto"@, o.proto, t);
    lemma_tok_count_concat(opt_seg("--go-namespace"@, o.go_namespace) + opt_seg("--go-import"@, o.go_import) + opt_seg("--go-module-name"@, o.go_module_name) + flag_seg("--raw-binary"@, o.raw_binary) + flag_seg("--size-prefixed"@, o.size_prefixed) + flag_seg("--proto"@, o.proto), opt_seg("--proto-namespace-suffix"@, o.proto_namespace_suffix), t);
    lemma_tok_count_opt_seg("--proto-namespace-suffix"@, o.proto_namespace_suffix, t);
    lemma_tok_count_concat(opt_seg("--go-namespace"@, o.go_namespace) + opt_seg("--go-import"@, o.go_import) + opt_seg("--go-module-name"@, o.go_module_name) + flag_seg("--raw-binary"@, o.raw_binary) + flag_seg("--size-prefixed"@, o.size_prefixed) + flag_seg("--proto"@, o.proto) + opt_seg("--proto-namespace-suffix"@, o.proto_namespace_suffix), flag_seg("--oneof-union"@, o.oneof_union), t);
    lemma_tok_count_flag_seg("--oneof-union"@, o.oneof_union, t);
    lemma_tok_count_concat(opt_seg("--go-namespace"@, o.go_namespace) + opt_seg("--go-import"@, o.go_import) + opt_seg("--go-module-name"@, o.go_module_name) + flag_seg("--raw-binary"@, o.raw_binary) + flag_seg("--size-prefixed"@, o.size_prefixed) + flag_seg("--proto"@, o.proto) + opt_seg("--proto-namespace-suffix"@, o.proto_namespace_suffix) + flag_seg("--oneof-union"@, o.oneof_union), flag_seg("--keep-proto-id"@, o.keep_proto_id), t);
    lemma_tok_count_flag_seg("--keep-proto-id"@, o.keep_proto_id, t);
    lemma_tok_count_concat(opt_seg("--go-namespace"@, o.go_namespace) + opt_seg("--go-import"@, o.go_import) + opt_seg("--go-module-name"@, o.go_module_name) + flag_seg("--raw-binary"@, o.raw_binary) + flag_seg("--size-prefixed"@, o.size_prefixed) + flag_seg("--proto"@, o.proto) + opt_seg("--proto-namespace-suffix"@, o.proto_namespace_suffix) + flag_seg("--oneof-union"@, o.oneof_union) + flag_seg("--keep-proto-id"@, o.keep_proto_id), opt_seg("--proto-id-gap"@, o.proto_id_gap), t);
    lemma_tok_count_opt_seg("--proto-id-gap"@, o.proto_id_gap, t);
    lemma_tok_count_concat(opt_seg("--go-namespace"@, o.go_namespace) + opt_seg("--go-import"@, o.go_import) + opt_seg("--go-module-name"@, o.go_module_name) + flag_seg("--raw-binary"@, o.raw_binary) + flag_seg("--size-prefixed"@, o.size_prefixed) + flag_seg("--proto"@, o.proto) + opt_seg("--proto-namespace-suffix"@, o.proto_namespace_suffix) + flag_seg("--oneof-union"@, o.oneof_union) + flag_seg("--keep-proto-id"@, o.keep_proto_id) + opt_seg("--proto-id-gap"@, o.proto_id_gap), flag_seg("--schema"@, o.schema), t);
    lemma_tok_count_flag_seg("--schema"@, o.schema, t);
}

/// The token count of the first stretch of this group.
#[verifier::rlimit(100)]
proof fn lemma_flatc_count_bfbs_a(o: FlatCOptions, t: Seq<char>)
    ensures
        tok_count(opt_seg("--bfbs-filenames"@, o.bfbs_filenames) + flag_seg("--bfbs-absolute-paths"@, o.bfbs_absolute_paths) + flag_seg("--bfbs-comments"@, o.bfbs_comments) + flag_seg("--bfbs-builtins"@, o.bfbs_builtins) + flag_seg("--bfbs-gen-embed"@, o.bfbs_gen_embed), t) as int == opt_contrib("--bfbs-filenames"@, o.bfbs_filenames, t) + flag_contrib("--bfbs-absolute-paths"@, o.bfbs_absolute_paths, t) + flag_contrib("--bfbs-comments"@, o.bfbs_comments, t) + flag_contrib("--bfbs-builtins"@, o.bfbs_builtins, t) + flag_contrib("--bfbs-gen-embed"@, o.bfbs_gen_embed, t),
{
    let s0 = opt_seg("--bfbs-filenames"@, o.bfbs_filenames);
    let s1 = flag_seg("--bfbs-absolute-paths"@, o.bfbs_absolute_paths);
    let s2 = flag_seg("--bfbs-comments"@, o.bfbs_comments);
    let s3 = flag_seg("--bfbs-builtins"@, o.bfbs_builtins);
    let s4 = flag_seg("--bfbs-gen-embed"@, o.bfbs_gen_embed);
    lemma_tok_count_concat(s0, s1, t);
    lemma_tok_count_concat(s0 + s1, s2, t);
    lemma_tok_count_concat(s0 + s1 + s2, s3, t);
    lemma_tok_count_concat(s0 + s1 + s2 + s3, s4, t);
    lemma_tok_count_opt_seg("--bfbs-filenames"@, o.bfbs_filenames, t);
    lemma_tok_count_flag_seg("--bfbs-absolute-paths"@, o.bfbs_absolute_paths, t);
    lemma_tok_count_flag_seg("--bfbs-comments"@, o.bfbs_comments, t);
    lemma_tok_count_flag_seg("--bfbs-builtins"@, o.bfbs_builtins, t);
    lemma_tok_count_flag_seg("--bfbs-gen-embed"@, o.bfbs_gen_embed, t);
}

/// The token count of this group of the argument list.
#[verifier::rlimit(100)]
proof fn lemma_flatc_count_bfbs(o: FlatCOptions, t: Seq<char>)
    ensures
        tok_count(flatc_args_bfbs(o), t) as int == opt_contrib("--bfbs-filenames"@, o.bfbs_filenames, t) + flag_contrib("--bfbs-absolute-paths"@, o.bfbs_absolute_paths, t) + flag_contrib("--bfbs-comments"@, o.bfbs_comments, t) + flag_contrib("--bfbs-builtins"@, o.bfbs_builtins, t) + flag_contrib("--bfbs-gen-embed"@, o.bfbs_gen_embed, t) + opt_contrib("--conform"@, o.conform, t) + list_contrib("--conform-includes"@, args_view(o.conform_includes@), t) + opt_contrib("--filename-suffix"@, o.filename_suffix, t) + opt_contrib("--filename-ext"@, o.filename_ext, t) + opt_contrib("--include-prefix"@, o.include_prefix, t) + flag_contrib("--keep-prefix"@, o.keep_prefix, t),
{
    lemma_flatc_count_bfbs_a(o, t);
    lemma_tok_count_concat(opt_seg("--bfbs-filenames"@, o.bfbs_filenames) + flag_seg("--bfbs-absolute-paths"@, o.bfbs_absolute_paths) + flag_seg("--bfbs-comments"@, o.bfbs_comments) + flag_seg("--bfbs-builtins"@, o.bfbs_builtins) + flag_seg("--bfbs-gen-embed"@, o.bfbs_gen_embed), opt_seg("--conform"@, o.conform), t);
    lemma_tok_count_opt_seg("--conform"@, o.conform, t);
    lemma_tok_count_concat(opt_seg("--bfbs-filenames"@, o.bfbs_filenames) + flag_seg("--bfbs-absolute-paths"@, o.bfbs_absolute_paths) + flag_seg("--bfbs-comments"@, o.bfbs_comments) + flag_seg("--bfbs-builtins"@, o.bfbs_builtins) + flag_seg("--bfbs-gen-embed"@, o.bfbs_gen_embed) + opt_seg("--conform"@, o.conform), list_seg("--conform-includes"@, args_view(o.conform_includes@)), t);
    lemma_tok_count_list_seg("--conform-includes"@, args_view(o.conform_includes@), t);
    lemma_tok_count_concat(opt_seg("--bfbs-filenames"@, o.bfbs_filenames) + flag_seg("--bfbs-absolute-paths"@, o.bfbs_absolute_paths) + flag_seg("--bfbs-comments"@, o.bfbs_comments) + flag_seg("--bfbs-builtins"@, o.bfbs_builtins) + flag_seg("--bfbs-gen-embed"@, o.bfbs_gen_embed) + opt_seg("--conform"@, o.conform) + list_seg("--conform-includes"@, args_view(o.conform_includes@)), opt_seg("--filename-suffix"@, o.filename_suffix), t);
    lemma_tok_count_opt_seg("--filename-suffix"@, o.filename_suffix, t);
    lemma_tok_count_concat(opt_seg("--bfbs-filenames"@, o.bfbs_filenames) + flag_seg("--bfbs-absolute-paths"@, o.bfbs_absolute_paths) + flag_seg("--bfbs-comments"@, o.bfbs_comments) + flag_seg("--bfbs-builtins"@, o.bfbs_builtins) + flag_seg("--bfbs-gen-embed"@, o.bfbs_gen_embed) + opt_seg("--conform"@, o.conform) + list_seg("--conform-includes"@, args_view(o.conform_includes@)) + opt_seg("--filename-suffix"@, o.filename_suffix), opt_seg("--filename-ext"@, o.filename_ext), t);
    lemma_tok_count_opt_seg("--filename-ext"@, o.filename_ext, t);
    lemma_tok_count_concat(opt_seg("--bfbs-filenames"@, o.bfbs_filenames) + flag_seg("--bfbs-absolute-paths"@, o.bfbs_absolute_paths) + flag_seg("--bfbs-comments"@, o.bfbs_comments) + flag_seg("--bfbs-builtins"@, o.bfbs_builtins) + flag_seg("--bfbs-gen-embed"@, o.bfbs_gen_embed) + opt_seg("--conform"@, o.conform) + list_seg("--conform-includes"@, args_view(o.conform_includes@)) + opt_seg("--filename-suffix"@, o.filename_suffix) + opt_seg("--filename-ext"@, o.filename_ext), opt_seg("--include-prefix"@, o.include_prefix), t);
    lemma_tok_count_opt_seg("--include-prefix"@, o.include_prefix, t);
    lemma_tok_count_concat(opt_seg("--bfbs-filenames"@, o.bfbs_filenames) + flag_seg("--bfbs-absolute-paths"@, o.bfbs_absolute_paths) + flag_seg("--bfbs-comments"@, o.bfbs_comments) + flag_seg("--bfbs-builtins"@, o.bfbs_builtins) + flag_seg("--bfbs-gen-embed"@, o.bfbs_gen_embed) + opt_seg("--conform"@, o.conform) + list_seg("--conform-includes"@, args_view(o.conform_includes@)) + opt_seg("--filename-suffix"@, o.filename_suffix) + opt_seg("--filename-ext"@, o.filename_ext) + opt_seg("--include-prefix"@, o.include_prefix), flag_seg("--keep-prefix"@, o.keep_prefix), t);
    lemma_tok_count_flag_seg("--keep-prefix"@, o.keep_prefix, t);
}

/// The token count of the first stretch of this group.
#[verifier::rlimit(100)]
proof fn lemma_flatc_count_strict_a(o: FlatCOptions, t: Seq<char>)
    ensures
        tok_count(flag_seg("--reflect-types"@, o.reflect_types) + flag_seg("--reflect-names"@, o.reflect_names) + flag_seg("--rust-serialize"@, o.rust_serialize) + flag_seg("--rust-module-root-file"@, o.rust_module_root_file) + opt_seg("--root-type"@, o.root_type) + flag_seg("--require-explicit-ids"@, o.require_explicit_ids), t) as int == flag_contrib("--reflect-types"@, o.reflect_types, t) + flag_contrib("--reflect-names"@, o.reflect_names, t) + flag_contrib("--rust-serialize"@, o.rust_serialize, t) + flag_contrib("--rust-module-root-file"@, o.rust_module_root_file, t) + opt_contrib("--root-type"@, o.root_type, t) + flag_contrib("--require-explicit-ids"@, o.require_explicit_ids, t),
{
    let s0 = flag_seg("--reflect-types"@, o.reflect_types);
    let s1 = flag_seg("--reflect-names"@, o.reflect_names);
    let s2 = flag_seg("--rust-serialize"@, o.rust_serialize);
    let s3 = flag_seg("--rust-module-root-file"@, o.rust_module_root_file);
    let s4 = opt_seg("--root-type"@, o.root_type);
    let s5 = flag_seg("--require-explicit-ids"@, o.require_explicit_ids);
    lemma_tok_count_concat(s0, s1, t);
    lemma_tok_count_concat(s0 + s1, s2, t);
    lemma_tok_count_concat(s0 + s1 + s2, s3, t);
    lemma_tok_count_concat(s0 + s1 + s2 + s3, s4, t);
    lemma_tok_count_concat(s0 + s1 + s2 + s3 + s4, s5, t);
    lemma_tok_count_flag_seg("--reflect-types"@, o.reflect_types, t);
    lemma_tok_count_flag_seg("--reflect-names"@, o.reflect_names, t);
    lemma_tok_count_flag_seg("--rust-serialize"@, o.rust_serialize, t);
    lemma_tok_count_flag_seg("--rust-module-root-file"@, o.rust_module_root_file, t);
    lemma_tok_count_opt_seg("--root-type"@, o.root_type, t);
    lemma_tok_count_flag_seg("--require-explicit-ids"@, o.require_explicit_ids, t);
}

/// The token count of this group of the argument list.
#[verifier::rlimit(100)]
proof fn lemma_flatc_count_strict(o: FlatCOptions, t: Seq<char>)
    ensures
        tok_count(flatc_args_strict(o), t) as int == flag_contrib("--reflect-types"@, o.reflect_types, t) + flag_contrib("--reflect-names"@, o.reflect_names, t) + flag_contrib("--rust-serialize"@, o.rust_serialize, t) + flag_contrib("--rust-module-root-file"@, o.rust_module_root_file, t) + opt_contrib("--root-type"@, o.root_type, t) + flag_contrib("--require-explicit-ids"@, o.require_explicit_ids, t) + flag_contrib("--force-defaults"@, o.force_defaults, t) + flag_contrib("--force-empty"@, o.force_empty, t) + flag_contrib("--force-empty-vectors"@, o.force_empty_vectors, t) + flag_contrib("--flexbuffers"@, o.flexbuffers, t) + flag_contrib("--no-warnings"@, o.no_warnings, t) + flag_contrib("--warnings-as-errors"@, o.warnings_as_errors, t),
{
    lemma_flatc_count_strict_a(o, t);
    lemma_tok_count_concat(flag_seg("--reflect-types"@, o.reflect_types) + flag_seg("--reflect-names"@, o.reflect_names) + flag_seg("--rust-serialize"@, o.rust_serialize) + flag_seg("--rust-module-root-file"@, o.rust_module_root_file) + opt_seg("--root-type"@, o.root_type) + flag_seg("--require-explicit-ids"@, o.require_explicit_ids), flag_seg("--force-defaults"@, o.force_defaults), t);
    lemma_tok_count_flag_seg("--force-defaults"@, o.force_defaults, t);
    lemma_tok_count_concat(flag_seg("--reflect-types"@, o.reflect_types) + flag_seg("--reflect-names"@, o.reflect_names) + flag_seg("--rust-serialize"@, o.rust_serialize) + flag_seg("--rust-module-root-file"@, o.rust_module_root_file) + opt_seg("--root-type"@, o.root_type) + flag_seg("--require-explicit-ids"@, o.require_explicit_ids) + flag_seg("--force-defaults"@, o.force_defaults), flag_seg("--force-empty"@, o.force_empty), t);
    lemma_tok_count_flag_seg("--force-empty"@, o.force_empty, t);
    lemma_tok_count_concat(flag_seg("--reflect-types"@, o.reflect_types) + flag_seg("--reflect-names"@, o.reflect_names) + flag_seg("--rust-serialize"@, o.rust_serialize) + flag_seg("--rust-module-root-file"@, o.rust_module_root_file) + opt_seg("--root-type"@, o.root_type) + flag_seg("--require-explicit-ids"@, o.require_explicit_ids) + flag_seg("--force-defaults"@, o.force_defaults) + flag_seg("--force-empty"@, o.force_empty), flag_seg("--force-empty-vectors"@, o.force_empty_vectors), t);
    lemma_tok_count_flag_seg("--force-empty-vectors"@, o.force_empty_vectors, t);
    lemma_tok_count_concat(flag_seg("--reflect-types"@, o.reflect_types) + flag_seg("--reflect-names"@, o.reflect_names) + flag_seg("--rust-serialize"@, o.rust_serialize) + flag_seg("--rust-module-root-file"@, o.rust_module_root_file) + opt_seg("--root-type"@, o.root_type) + flag_seg("--require-explicit-ids"@, o.require_explicit_ids) + flag_seg("--force-defaults"@, o.force_defaults) + flag_seg("--force-empty"@, o.force_empty) + flag_seg("--force-empty-vectors"@, o.force_empty_vectors), flag_seg("--flexbuffers"@, o.flexbuffers), t);
    lemma_tok_count_flag_seg("--flexbuffers"@, o.flexbuffers, t);
    lemma_tok_count_concat(flag_seg("--reflect-types"@, o.reflect_types) + flag_seg("--reflect-names"@, o.reflect_names) + flag_seg("--rust-serialize"@, o.rust_serialize) + flag_seg("--rust-module-root-file"@, o.rust_module_root_file) + opt_seg("--root-type"@, o.root_type) + flag_seg("--require-explicit-ids"@, o.require_explicit_ids) + flag_seg("--force-defaults"@, o.force_defaults) + flag_seg("--force-empty"@, o.force_empty) + flag_seg("--force-empty-vectors"@, o.force_empty_vectors) + flag_seg("--flexbuffers"@, o.flexbuffers), flag_seg("--no-warnings"@, o.no_warnings), t);
    lemma_tok_count_flag_seg("--no-warnings"@, o.no_warnings, t);
    lemma_tok_count_concat(flag_seg("--reflect-types"@, o.reflect_types) + flag_seg("--reflect-names"@, o.reflect_names) + flag_seg("--rust-serialize"@, o.rust_serialize) + flag_seg("--rust-module-root-file"@, o.rust_module_root_file) + opt_seg("--root-type"@, o.root_type) + flag_seg("--require-explicit-ids"@, o.require_explicit_ids) + flag_seg("--force-defaults"@, o.force_defaults) + flag_seg("--force-empty"@, o.force_empty) + flag_seg("--force-empty-vectors"@, o.force_empty_vectors) + flag_seg("--flexbuffers"@, o.flexbuffers) + flag_seg("--no-warnings"@, o.no_warnings), flag_seg("--warnings-as-errors"@, o.warnings_as_errors), t);
    lemma_tok_count_flag_seg("--warnings-as-errors"@, o.warnings_as_errors, t);
}

/// The token count of the first stretch of this group.
#[verifier::rlimit(100)]
proof fn lemma_flatc_count_misc_a(o: FlatCOptions, t: Seq<char>)
    ensures
        tok_count(flag_seg("--cs-global-alias"@, o.cs_global_alias) + flag_seg("--cs-gen-json-serializer"@, o.cs_gen_json_serializer) + flag_seg("--json-nested-bytes"@, o.json_nested_bytes) + flag_seg("--ts-flat-files"@, o.ts_flat_files) + flag_seg("--ts-entry-points"@, o.ts_entry_points) + flag_seg("--annotate-sparse-vectors"@, o.annotate_sparse_vectors) + opt_seg("--annotate"@, o.annotate), t) as int == flag_contrib("--cs-global-alias"@, o.cs_global_alias, t) + flag_contrib("--cs-gen-json-serializer"@, o.cs_gen_json_serializer, t) + flag_contrib("--json-nested-bytes"@, o.json_nested_bytes, t) + flag_contrib("--ts-flat-files"@, o.ts_flat_files, t) + flag_contrib("--ts-entry-points"@, o.ts_entry_points, t) + flag_contrib("--annotate-sparse-vectors"@, o.annotate_sparse_vectors, t) + opt_contrib("--annotate"@, o.annotate, t),
{
    let s0 = flag_seg("--cs-global-alias"@, o.cs_global_alias);
    let s1 = flag_seg("--cs-gen-json-serializer"@, o.cs_gen_json_serializer);
    let s2 = flag_seg("--json-nested-bytes"@, o.json_nested_bytes);
    let s3 = flag_seg("--ts-flat-files"@, o.ts_flat_files);
    let s4 = flag_seg("--ts-entry-points"@, o.ts_entry_points);
    let s5 = flag_seg("--annotate-sparse-vectors"@, o.annotate_sparse_vectors);
    let s6 = opt_seg("--annotate"@, o.annotate);
    lemma_tok_count_concat(s0, s1, t);
    lemma_tok_count_concat(s0 + s1, s2, t);
    lemma_tok_count_concat(s0 + s1 + s2, s3, t);
    lemma_tok_count_concat(s0 + s1 + s2 + s3, s4, t);
    lemma_tok_count_concat(s0 + s1 + s2 + s3 + s4, s5, t);
    lemma_tok_count_concat(s0 + s1 + s2 + s3 + s4 + s5, s6, t);
    lemma_tok_count_flag_seg("--cs-global-alias"@, o.cs_global_alias, t);
    lemma_tok_count_flag_seg("--cs-gen-json-serializer"@, o.cs_gen_json_serializer, t);
    lemma_tok_count_flag_seg("--json-nested-bytes"@, o.json_nested_bytes, t);
    lemma_tok_count_flag_seg("--ts-flat-files"@, o.ts_flat_files, t);
    lemma_tok_count_flag_seg("--ts-entry-points"@, o.ts_entry_points, t);
    lemma_tok_count_flag_seg("--annotate-sparse-vectors"@, o.annotate_sparse_vectors, t);
    lemma_tok_count_opt_seg("--annotate"@, o.annotate, t);
}

/// The token count of this group of the argument list.
#[verifier::rlimit(100)]
proof fn lemma_flatc_count_misc(o: FlatCOptions, t: Seq<char>)
    ensures
        tok_count(flatc_args_misc(o), t) as int == flag_contrib("--cs-global-alias"@, o.cs_global_alias, t) + flag_contrib("--cs-gen-json-serializer"@, o.cs_gen_json_serializer, t) + flag_contrib("--json-nested-bytes"@, o.json_nested_bytes, t) + flag_contrib("--ts-flat-files"@, o.ts_flat_files, t) + flag_contrib("--ts-entry-points"@, o.ts_entry_points, t) + flag_contrib("--annotate-sparse-vectors"@, o.annotate_sparse_vectors, t) + opt_contrib("--annotate"@, o.annotate, t) + flag_contrib("--no-leak-private-annotation"@, o.no_leak_private_annotation, t) + flag_contrib("--python-no-type-prefix-suffix"@, o.python_no_type_prefix_suffix, t) + flag_contrib("--python-typing"@, o.python_typing, t) + opt_contrib("--python-version"@, o.python_version, t) + flag_contrib("--python-gen-numpy"@, o.python_gen_numpy, t) + flag_contrib("--ts-omit-entrypoint"@, o.ts_omit_entrypoint, t) + flag_contrib("--file-names-only"@, o.file_names_only, t),
{
    lemma_flatc_count_misc_a(o, t);
    lemma_tok_count_concat(flag_seg("--cs-global-alias"@, o.cs_global_alias) + flag_seg("--cs-gen-json-serializer"@, o.cs_gen_json_serializer) + flag_seg("--json-nested-bytes"@, o.json_nested_bytes) + flag_seg("--ts-flat-files"@, o.ts_flat_files) + flag_seg("--ts-entry-points"@, o.ts_entry_points) + flag_seg("--annotate-sparse-vectors"@, o.annotate_sparse_vectors) + opt_seg("--annotate"@, o.annotate), flag_seg("--no-leak-private-annotation"@, o.no_leak_private_annotation), t);
    lemma_tok_count_flag_seg("--no-leak-private-annotation"@, o.no_leak_private_annotation, t);
    lemma_tok_count_concat(flag_seg("--cs-global-alias"@, o.cs_global_alias) + flag_seg("--cs-gen-json-serializer"@, o.cs_gen_json_serializer) + flag_seg("--json-nested-bytes"@, o.json_nested_bytes) + flag_seg("--ts-flat-files"@, o.ts_flat_files) + flag_seg("--ts-entry-points"@, o.ts_entry_points) + flag_seg("--annotate-sparse-vectors"@, o.annotate_sparse_vectors) + opt_seg("--annotate"@, o.annotate) + flag_seg("--no-leak-private-annotation"@, o.no_leak_private_annotation), flag_seg("--python-no-type-prefix-suffix"@, o.python_no_type_prefix_suffix), t);
    lemma_tok_count_flag_seg("--python-no-type-prefix-suffix"@, o.python_no_type_prefix_suffix, t);
    lemma_tok_count_concat(flag_seg("--cs-global-alias"@, o.cs_global_alias) + flag_seg("--cs-gen-json-serializer"@, o.cs_gen_json_serializer) + flag_seg("--json-nested-bytes"@, o.json_nested_bytes) + flag_seg("--ts-flat-files"@, o.ts_flat_files) + flag_seg("--ts-entry-points"@, o.ts_entry_points) + flag_seg("--annotate-sparse-vectors"@, o.annotate_sparse_vectors) + opt_seg("--annotate"@, o.annotate) + flag_seg("--no-leak-private-annotation"@, o.no_leak_private_annotation) + flag_seg("--python-no-type-prefix-suffix"@, o.python_no_type_prefix_suffix), flag_seg("--python-typing"@, o.python_typing), t);
    lemma_tok_count_flag_seg("--python-typing"@, o.python_typing, t);
    lemma_tok_count_concat(flag_seg("--cs-global-alias"@, o.cs_global_alias) + flag_seg("--cs-gen-json-serializer"@, o.cs_gen_json_serializer) + flag_seg("--json-nested-bytes"@, o.json_nested_bytes) + flag_seg("--ts-flat-files"@, o.ts_flat_files) + flag_seg("--ts-entry-points"@, o.ts_entry_points) + flag_seg("--annotate-sparse-vectors"@, o.annotate_sparse_vectors) + opt_seg("--annotate"@, o.annotate) + flag_seg("--no-leak-private-annotation"@, o.no_leak_private_annotation) + flag_seg("--python-no-type-prefix-suffix"@, o.python_no_type_prefix_suffix) + flag_seg("--python-typing"@, o.python_typing), opt_seg("--python-version"@, o.python_version), t);
    lemma_tok_count_opt_seg("--python-version"@, o.python_version, t);
    lemma_tok_count_concat(flag_seg("--cs-global-alias"@, o.cs_global_alias) + flag_seg("--cs-gen-json-serializer"@, o.cs_gen_json_serializer) + flag_seg("--json-nested-bytes"@, o.json_nested_bytes) + flag_seg("--ts-flat-files"@, o.ts_flat_files) + flag_seg("--ts-entry-points"@, o.ts_entry_points) + flag_seg("--annotate-sparse-vectors"@, o.annotate_sparse_vectors) + opt_seg("--annotate"@, o.annotate) + flag_seg("--no-leak-private-annotation"@, o.no_leak_private_annotation) + flag_seg("--python-no-type-prefix-suffix"@, o.python_no_type_prefix_suffix) + flag_seg("--python-typing"@, o.python_typing) + opt_seg("--python-version"@, o.python_version), flag_seg("--python-gen-numpy"@, o.python_gen_numpy), t);
    lemma_tok_count_flag_seg("--python-gen-numpy"@, o.python_gen_numpy, t);
    lemma_tok_count_concat(flag_seg("--cs-global-alias"@, o.cs_global_alias) + flag_seg("--cs-gen-json-serializer"@, o.cs_gen_json_serializer) + flag_seg("--json-nested-bytes"@, o.json_nested_bytes) + flag_seg("--ts-flat-files"@, o.ts_flat_files) + flag_seg("--ts-entry-points"@, o.ts_entry_points) + flag_seg("--annotate-sparse-vectors"@, o.annotate_sparse_vectors) + opt_seg("--annotate"@, o.annotate) + flag_seg("--no-leak-private-annotation"@, o.no_leak_private_annotation) + flag_seg("--python-no-type-prefix-suffix"@, o.python_no_type_prefix_suffix) + flag_seg("--python-typing"@, o.python_typing) + opt_seg("--python-version"@, o.python_version) + flag_seg("--python-gen-numpy"@, o.python_gen_numpy), flag_seg("--ts-omit-entrypoint"@, o.ts_omit_entrypoint), t);
    lemma_tok_count_flag_seg("--ts-omit-entrypoint"@, o.ts_omit_entrypoint, t);
    lemma_tok_count_concat(flag_seg("--cs-global-alias"@, o.cs_global_alias) + flag_seg("--cs-gen-json-serializer"@, o.cs_gen_json_serializer) + flag_seg("--json-nested-bytes"@, o.json_nested_bytes) + flag_seg("--ts-flat-files"@, o.ts_flat_files) + flag_seg("--ts-entry-points"@, o.ts_entry_points) + flag_seg("--annotate-sparse-vectors"@, o.annotate_sparse_vectors) + opt_seg("--annotate"@, o.annotate) + flag_seg("--no-leak-private-annotation"@, o.no_leak_private_annotation) + flag_seg("--python-no-type-prefix-suffix"@, o.python_no_type_prefix_suffix) + flag_seg("--python-typing"@, o.python_typing) + opt_seg("--python-version"@, o.python_version) + flag_seg("--python-gen-numpy"@, o.python_gen_numpy) + flag_seg("--ts-omit-entrypoint"@, o.ts_omit_entrypoint), flag_seg("--file-names-only"@, o.file_names_only), t);
    lemma_tok_count_flag_seg("--file-names-only"@, o.file_names_only, t);
}

/// The token count of this group of the argument list.
#[verifier::rlimit(100)]
proof fn lemma_flatc_count_grpc(o: FlatCOptions, t: Seq<char>)
    ensures
        tok_count(flatc_args_grpc(o), t) as int == opt_contrib("--grpc-filename-suffix"@, o.grpc_filename_suffix, t) + list_contrib("--grpc-additional-header"@, args_view(o.grpc_additional_header@), t) + opt_contrib("--grpc-search-path"@, o.grpc_search_path, t) + flag_contrib("--grpc-use-system-headers"@, o.grpc_use_system_headers, t) + flag_contrib("--grpc-python-typed-handlers"@, o.grpc_python_typed_handlers, t),
{
    let s0 = opt_seg("--grpc-filename-suffix"@, o.grpc_filename_suffix);
    let s1 = list_seg("--grpc-additional-header"@, args_view(o.grpc_additional_header@));
    let s2 = opt_seg("--grpc-search-path"@, o.grpc_search_path);
    let s3 = flag_seg("--grpc-use-system-headers"@, o.grpc_use_system_headers);
    let s4 = flag_seg("--grpc-python-typed-handlers"@, o.grpc_python_typed_handlers);
    assert(flatc_args_grpc(o) == s0 + s1 + s2 + s3 + s4);
    lemma_tok_count_concat(s0, s1, t);
    lemma_tok_count_concat(s0 + s1, s2, t);
    lemma_tok_count_concat(s0 + s1 + s2, s3, t);
    lemma_tok_count_concat(s0 + s1 + s2 + s3, s4, t);
    lemma_tok_count_opt_seg("--grpc-filename-suffix"@, o.grpc_filename_suffix, t);
    lemma_tok_count_list_seg("--grpc-additional-header"@, args_view(o.grpc_additional_header@), t);
    lemma_tok_count_opt_seg("--grpc-search-path"@, o.grpc_search_path, t);
    lemma_tok_count_flag_seg("--grpc-use-system-headers"@, o.grpc_use_system_headers, t);
    lemma_tok_count_flag_seg("--grpc-python-typed-handlers"@, o.grpc_python_typed_handlers, t);
}

/// How often a token occurs among the option flags of the argument list:
/// the sum of every field's contribution.
#[verifier::rlimit(100)]
proof fn lemma_flatc_count(o: FlatCOptions, t: Seq<char>)
    ensures
        tok_count(flatc_opts_args(o), t) as int == langs_contrib(o.languages@, t) + flag_contrib("--grpc"@, o.grpc, t) + opt_contrib("-o"@, o.output_path, t) + list_contrib("-I"@, args_view(o.include_paths@), t) + flag_contrib("--binary"@, o.binary, t) + flag_contrib("--json"@, o.json, t) + flag_contrib("--jsonschema"@, o.jsonschema, t) + flag_contrib("--strict-json"@, o.strict_json, t) + flag_contrib("--allow-non-utf8"@, o.allow_non_utf8, t) + flag_contrib("--natural-utf8"@, o.natural_utf8, t) + flag_contrib("--defaults-json"@, o.defaults_json, t) + flag_contrib("--unknown-json"@, o.unknown_json, t) + flag_contrib("--no-prefix"@, o.no_prefix, t) + flag_contrib("--scoped-enums"@, o.scoped_enums, t) + flag_contrib("--no-emit-min-max-enum-values"@, o.no_emit_min_max_enum_values, t) + flag_contrib("--swift-implementation-only"@, o.swift_implementation_only, t) + flag_contrib("--no-includes"@, o.no_includes, t) + flag_contrib("--gen-mutable"@, o.gen_mutable, t) + flag_contrib("--gen-onefile"@, o.gen_onefile, t) + flag_contrib("--gen-name-strings"@, o.gen_name_strings, t) + flag_contrib("--gen-object-api"@, o.gen_object_api, t) + flag_contrib("--gen-compare"@, o.gen_compare, t) + flag_contrib("--gen-nullable"@, o.gen_nullable, t) + opt_contrib("--java-package-prefix"@, o.java_package_prefix, t) + flag_contrib("--java-checkerframework"@, o.java_checkerframework, t) + flag_contrib("--gen-generated"@, o.gen_generated, t) + flag_contrib("--gen-jvmstatic"@, o.gen_jvmstatic, t) + flag_contrib("--gen-all"@, o.gen_all, t) + flag_contrib("--gen-json-emit"@, o.gen_json_emit, t) + list_contrib("--cpp-include"@, args_view(o.cpp_include@), t) + opt_contrib("--cpp-ptr-type"@, o.cpp_ptr_type, t) + opt_contrib("--cpp-str-type"@, o.cpp_str_type, t) + flag_contrib("--cpp-str-flex-ctor"@, o.cpp_str_flex_ctor, t) + opt_contrib("--cpp-field-case-style"@, o.cpp_field_case_style, t) + flag_contrib("--no-cpp-direct-copy"@, o.no_cpp_direct_copy, t) + cpp_std_contrib(o.cpp_std, t) + flag_contrib("--cpp-static-reflection"@, o.cpp_static_reflection, t) + opt_contrib("--object-prefix"@, o.object_prefix, t) + opt_contrib("--object-suffix"@, o.object_suffix, t) + opt_contrib("--go-namespace"@, o.go_namespace, t) + opt_contrib("--go-import"@, o.go_import, t) + opt_contrib("--go-module-name"@, o.go_module_name, t) + flag_contrib("--raw-binary"@, o.raw_binary, t) + flag_contrib("--size-prefixed"@, o.size_prefixed, t) + flag_contrib("--proto"@, o.proto, t) + opt_contrib("--proto-namespace-suffix"@, o.proto_namespace_suffix, t) + flag_contrib("--oneof-union"@, o.oneof_union, t) + flag_contrib("--keep-proto-id"@, o.keep_proto_id, t) + opt_contrib("--proto-id-gap"@, o.proto_id_gap, t) + flag_contrib("--schema"@, o.schema, t) + opt_contrib("--bfbs-filenames"@, o.bfbs_filenames, t) + flag_contrib("--bfbs-absolute-paths"@, o.bfbs_absolute_paths, t) + flag_contrib("--bfbs-comments"@, o.bfbs_comments, t) + flag_contrib("--bfbs-builtins"@, o.bfbs_builtins, t) + flag_contrib("--bfbs-gen-embed"@, o.bfbs_gen_embed, t) + opt_contrib("--conform"@, o.conform, t) + list_contrib("--conform-includes"@, args_view(o.conform_includes@), t) + opt_contrib("--filename-suffix"@, o.filename_suffix, t) + opt_contrib("--filename-ext"@, o.filename_ext, t) + opt_contrib("--include-prefix"@, o.include_prefix, t) + flag_contrib("--keep-prefix"@, o.keep_prefix, t) + flag_contrib("--reflect-types"@, o.reflect_types, t) + flag_contrib("--reflect-names"@, o.reflect_names, t) + flag_contrib("--rust-serialize"@, o.rust_serialize, t) + flag_contrib("--rust-module-root-file"@, o.rust_module_root_file, t) + opt_contrib("--root-type"@, o.root_type, t) + flag_contrib("--require-explicit-ids"@, o.require_explicit_ids, t) + flag_contrib("--force-defaults"@, o.force_defaults, t) + flag_contrib("--force-empty"@, o.force_empty, t) + flag_contrib("--force-empty-vectors"@, o.force_empty_vectors, t) + flag_contrib("--flexbuffers"@, o.flexbuffers, t) + flag_contrib("--no-warnings"@, o.no_warnings, t) + flag_contrib("--warnings-as-errors"@, o.warnings_as_errors, t) + flag_contrib("--cs-global-alias"@, o.cs_global_alias, t) + flag_contrib("--cs-gen-json-serializer"@, o.cs_gen_json_serializer, t) + flag_contrib("--json-nested-bytes"@, o.json_nested_bytes, t) + flag_contrib("--ts-flat-files"@, o.ts_flat_files, t) + flag_contrib("--ts-entry-points"@, o.ts_entry_points, t) + flag_contrib("--annotate-sparse-vectors"@, o.annotate_sparse_vectors, t) + opt_contrib("--annotate"@, o.annotate, t) + flag_contrib("--no-leak-private-annotation"@, o.no_leak_private_annotation, t) + flag_contrib("--python-no-type-prefix-suffix"@, o.python_no_type_prefix_suffix, t) + flag_contrib("--python-typing"@, o.python_typing, t) + opt_contrib("--python-version"@, o.python_version, t) + flag_contrib("--python-gen-numpy"@, o.python_gen_numpy, t) + flag_contrib("--ts-omit-entrypoint"@, o.ts_omit_entrypoint, t) + flag_contrib("--file-names-only"@, o.file_names_only, t) + opt_contrib("--grpc-filename-suffix"@, o.grpc_filename_suffix, t) + list_contrib("--grpc-additional-header"@, args_view(o.grpc_additional_header@), t) + opt_contrib("--grpc-search-path"@, o.grpc_search_path, t) + flag_contrib("--grpc-use-system-headers"@, o.grpc_use_system_headers, t) + flag_contrib("--grpc-python-typed-handlers"@, o.grpc_python_typed_handlers, t),
{
    lemma_tok_count_concat(flatc_args_io(o), flatc_args_json(o), t);
    lemma_tok_count_concat(flatc_args_io(o) + flatc_args_json(o), flatc_args_gen(o), t);
    lemma_tok_count_concat(flatc_args_io(o) + flatc_args_json(o) + flatc_args_gen(o), flatc_args_cpp(o), t);
    lemma_tok_count_concat(flatc_args_io(o) + flatc_args_json(o) + flatc_args_gen(o) + flatc_args_cpp(o), flatc_args_go_proto(o), t);
    lemma_tok_count_concat(flatc_args_io(o) + flatc_args_json(o) + flatc_args_gen(o) + flatc_args_cpp(o) + flatc_args_go_proto(o), flatc_args_bfbs(o), t);
    lemma_tok_count_concat(flatc_args_io(o) + flatc_args_json(o) + flatc_args_gen(o) + flatc_args_cpp(o) + flatc_args_go_proto(o) + flatc_args_bfbs(o), flatc_args_strict(o), t);
    lemma_tok_count_concat(flatc_args_io(o) + flatc_args_json(o) + flatc_args_gen(o) + flatc_args_cpp(o) + flatc_args_go_proto(o) + flatc_args_bfbs(o) + flatc_args_strict(o), flatc_args_misc(o), t);
    lemma_tok_count_concat(flatc_args_io(o) + flatc_args_json(o) + flatc_args_gen(o) + flatc_args_cpp(o) + flatc_args_go_proto(o) + flatc_args_bfbs(o) + flatc_args_strict(o) + flatc_args_misc(o), flatc_args_grpc(o), t);
    lemma_flatc_count_io(o, t);
    lemma_flatc_count_json(o, t);
    lemma_flatc_count_gen(o, t);
    lemma_flatc_count_cpp(o, t);
    lemma_flatc_count_go_proto(o, t);
    lemma_flatc_count_bfbs(o, t);
    lemma_flatc_count_strict(o, t);
    lemma_flatc_count_misc(o, t);
    lemma_flatc_count_grpc(o, t);
}

/// A token from the fixed flag list occurs in none of the repeated-option
/// values of a flag-free option set.
proof fn lemma_flatc_lists_zero(o: FlatCOptions, t: Seq<char>)
    requires
        flatc_values_flag_free(o),
        flatc_flag_tokens().contains(t),
    ensures
        tok_count(args_view(o.include_paths@), t) == 0,
        tok_count(args_view(o.cpp_include@), t) == 0,
        tok_count(args_view(o.conform_includes@), t) == 0,
        tok_count(args_view(o.grpc_additional_header@), t) == 0,
{
    assert forall|i: int| 0 <= i < args_view(o.include_paths@).len() implies args_view(
        o.include_paths@,
    )[i] != t by {
        assert(!flatc_flag_tokens().contains(args_view(o.include_paths@)[i]));
    }
    lemma_tok_count_zero(args_view(o.include_paths@), t);
    assert forall|i: int| 0 <= i < args_view(o.cpp_include@).len() implies args_view(
        o.cpp_include@,
    )[i] != t by {
        assert(!flatc_flag_tokens().contains(args_view(o.cpp_include@)[i]));
    }
    lemma_tok_count_zero(args_view(o.cpp_include@), t);
    assert forall|i: int| 0 <= i < args_view(o.conform_includes@).len() implies args_view(
        o.conform_includes@,
    )[i] != t by {
        assert(!flatc_flag_tokens().contains(args_view(o.conform_includes@)[i]));
    }
    lemma_tok_count_zero(args_view(o.conform_includes@), t);
    assert forall|i: int| 0 <= i < args_view(o.grpc_additional_header@).len() implies args_view(
        o.grpc_additional_header@,
    )[i] != t by {
        assert(!flatc_flag_tokens().contains(args_view(o.grpc_additional_header@)[i]));
    }
    lemma_tok_count_zero(args_view(o.grpc_additional_header@), t);
}

/// The occurrence count of this option's flag.
#[verifier::rlimit(100)]
proof fn lemma_flatc_tot_grpc(o: FlatCOptions)
    requires
        flatc_values_flag_free(o),
    ensures
        tok_count(flatc_opts_args(o), "--grpc"@) == (if o.grpc {
            1nat
        } else {
            0nat
        }),
{
    lemma_flatc_token_lens_a();
    lemma_flatc_token_lens_b();
    lemma_flatc_token_lens_c();
    lemma_flatc_token_chars_a();
    lemma_flatc_token_chars_b();
    lemma_flatc_token_indexes();
    assert(flatc_flag_tokens().contains("--grpc"@)) by {
        assert(flatc_flag_tokens()[0] == "--grpc"@);
    }
    assert(forall|l: Language| #[trigger] lang_flag(l) != "--grpc"@);
    lemma_langs_contrib_zero(o.languages@, "--grpc"@);
    lemma_flatc_lists_zero(o, "--grpc"@);
    lemma_flatc_count(o, "--grpc"@);
}

/// The occurrence count of this option's flag.
#[verifier::rlimit(100)]
proof fn lemma_flatc_tot_output_path(o: FlatCOptions)
    requires
        flatc_values_flag_free(o),
    ensures
        tok_count(flatc_opts_args(o), "-o"@) == (if o.output_path is Some {
            1nat
        } else {
            0nat
        }),
{
    lemma_flatc_token_lens_a();
    lemma_flatc_token_lens_b();
    lemma_flatc_token_lens_c();
    lemma_flatc_token_chars_a();
    lemma_flatc_token_chars_b();
    lemma_flatc_token_indexes();
    assert(flatc_flag_tokens().contains("-o"@)) by {
        assert(flatc_flag_tokens()[1] == "-o"@);
    }
    assert(forall|l: Language| #[trigger] lang_flag(l) != "-o"@);
    lemma_langs_contrib_zero(o.languages@, "-o"@);
    lemma_flatc_lists_zero(o, "-o"@);
    lemma_flatc_count(o, "-o"@);
}

/// The occurrence count of this option's flag.
#[verifier::rlimit(100)]
proof fn lemma_flatc_tot_include_paths(o: FlatCOptions)
    requires
        flatc_values_flag_free(o),
    ensures
        tok_count(flatc_opts_args(o), "-I"@) == o.include_paths@.len(),
{
    lemma_flatc_token_lens_a();
    lemma_flatc_token_lens_b();
    lemma_flatc_token_lens_c();
    lemma_flatc_token_chars_a();
    lemma_flatc_token_chars_b();
    lemma_flatc_token_indexes();
    assert(flatc_flag_tokens().contains("-I"@)) by {
        assert(flatc_flag_tokens()[2] == "-I"@);
    }
    assert(forall|l: Language| #[trigger] lang_flag(l) != "-I"@);
    lemma_langs_contrib_zero(o.languages@, "-I"@);
    lemma_flatc_lists_zero(o, "-I"@);
    lemma_flatc_count(o, "-I"@);
}

/// The occurrence count of this option's flag.
#[verifier::rlimit(100)]
proof fn lemma_flatc_tot_binary(o: FlatCOptions)
    requires
        flatc_values_flag_free(o),
    ensures
        tok_count(flatc_opts_args(o), "--binary"@) == (if o.binary {
            1nat
        } else {
            0nat
        }),
{
    lemma_flatc_token_lens_a();
    lemma_flatc_token_lens_b();
    lemma_flatc_token_lens_c();
    lemma_flatc_token_chars_a();
    lemma_flatc_token_chars_b();
    lemma_flatc_token_indexes();
    assert(flatc_flag_tokens().contains("--binary"@)) by {
        assert(flatc_flag_tokens()[3] == "--binary"@);
    }
    assert(forall|l: Language| #[trigger] lang_flag(l) != "--binary"@);
    lemma_langs_contrib_zero(o.languages@, "--binary"@);
    lemma_flatc_lists_zero(o, "--binary"@);
    lemma_flatc_count(o, "--binary"@);
}

/// The occurrence count of this option's flag.
#[verifier::rlimit(100)]
proof fn lemma_flatc_tot_json(o: FlatCOptions)
    requires
        flatc_values_flag_free(o),
    ensures
        tok_count(flatc_opts_args(o), "--json"@) == (if o.json {
            1nat
        } else {
            0nat
        }),
{
    lemma_flatc_token_lens_a();
    lemma_flatc_token_lens_b();
    lemma_flatc_token_lens_c();
    lemma_flatc_token_chars_a();
    lemma_flatc_token_chars_b();
    lemma_flatc_token_indexes();
    assert(flatc_flag_tokens().contains("--json"@)) by {
        assert(flatc_flag_tokens()[4] == "--json"@);
    }
    assert(forall|l: Language| #[trigger] lang_flag(l) != "--json"@);
    lemma_langs_contrib_zero(o.languages@, "--json"@);
    lemma_flatc_lists_zero(o, "--json"@);
    lemma_flatc_count(o, "--json"@);
}

/// The occurrence count of this option's flag.
#[verifier::rlimit(100)]
proof fn lemma_flatc_tot_jsonschema(o: FlatCOptions)
    requires
        flatc_values_flag_free(o),
    ensures
        tok_count(flatc_opts_args(o), "--jsonschema"@) == (if o.jsonschema {
            1nat
        } else {
            0nat
        }),
{
    lemma_flatc_token_lens_a();
    lemma_flatc_token_lens_b();
    lemma_flatc_token_lens_c();
    lemma_flatc_token_chars_a();
    lemma_flatc_token_chars_b();
    lemma_flatc_token_indexes();
    assert(flatc_flag_tokens().contains("--jsonschema"@)) by {
        assert(flatc_flag_tokens()[5] == "--jsonschema"@);
    }
    assert(forall|l: Language| #[trigger] lang_flag(l) != "--jsonschema"@);
    lemma_langs_contrib_zero(o.languages@, "--jsonschema"@);
    lemma_flatc_lists_zero(o, "--jsonschema"@);
    lemma_flatc_count(o, "--jsonschema"@);
}

/// Flag-mapping totality for the output and input-kind options: each flag occurs in the
/// option part of the argument list exactly as often as its field calls for
/// — as long as no populated value spells an option flag token.
pub proof fn lemma_flatc_io_flag_totality(o: FlatCOptions)
    requires
        flatc_values_flag_free(o),
    ensures
        tok_count(flatc_opts_args(o), "--grpc"@) == (if o.grpc {
            1nat
        } else {
            0nat
        }),
        tok_count(flatc_opts_args(o), "-o"@) == (if o.output_path is Some {
            1nat
        } else {
            0nat
        }),
        tok_count(flatc_opts_args(o), "-I"@) == o.include_paths@.len(),
        tok_count(flatc_opts_args(o), "--binary"@) == (if o.binary {
            1nat
        } else {
            0nat
        }),
        tok_count(flatc_opts_args(o), "--json"@) == (if o.json {
            1nat
        } else {
            0nat
        }),
        tok_count(flatc_opts_args(o), "--jsonschema"@) == (if o.jsonschema {
            1nat
        } else {
            0nat
        }),
{
    lemma_flatc_tot_grpc(o);
    lemma_flatc_tot_output_path(o);
    lemma_flatc_tot_include_paths(o);
    lemma_flatc_tot_binary(o);
    lemma_flatc_tot_json(o);
    lemma_flatc_tot_jsonschema(o);
}

/// The occurrence count of this option's flag.
#[verifier::rlimit(100)]
proof fn lemma_flatc_tot_strict_json(o: FlatCOptions)
    requires
        flatc_values_flag_free(o),
    ensures
        tok_count(flatc_opts_args(o), "--strict-json"@) == (if o.strict_json {
            1nat
        } else {
            0nat
        }),
{
    lemma_flatc_token_lens_a();
    lemma_flatc_token_lens_b();
    lemma_flatc_token_lens_c();
    lemma_flatc_token_chars_a();
    lemma_flatc_token_chars_b();
    lemma_flatc_token_indexes();
    assert(flatc_flag_tokens().contains("--strict-json"@)) by {
        assert(flatc_flag_tokens()[6] == "--strict-json"@);
    }
    assert(forall|l: Language| #[trigger] lang_flag(l) != "--strict-json"@);
    lemma_langs_contrib_zero(o.languages@, "--strict-json"@);
    lemma_flatc_lists_zero(o, "--strict-json"@);
    lemma_flatc_count(o, "--strict-json"@);
}

/// The occurrence count of this option's flag.
#[verifier::rlimit(100)]
proof fn lemma_flatc_tot_allow_non_utf8(o: FlatCOptions)
    requires
        flatc_values_flag_free(o),
    ensures
        tok_count(flatc_opts_args(o), "--allow-non-utf8"@) == (if o.allow_non_utf8 {
            1nat
        } else {
            0nat
        }),
{
    lemma_flatc_token_lens_a();
    lemma_flatc_token_lens_b();
    lemma_flatc_token_lens_c();
    lemma_flatc_token_chars_a();
    lemma_flatc_token_chars_b();
    lemma_flatc_token_indexes();
    assert(flatc_flag_tokens().contains("--allow-non-utf8"@)) by {
        assert(flatc_flag_tokens()[7] == "--allow-non-utf8"@);
    }
    assert(forall|l: Language| #[trigger] lang_flag(l) != "--allow-non-utf8"@);
    lemma_langs_contrib_zero(o.languages@, "--allow-non-utf8"@);
    lemma_flatc_lists_zero(o, "--allow-non-utf8"@);
    lemma_flatc_count(o, "--allow-non-utf8"@);
}

/// The occurrence count of this option's flag.
#[verifier::rlimit(100)]
proof fn lemma_flatc_tot_natural_utf8(o: FlatCOptions)
    requires
        flatc_values_flag_free(o),
    ensures
        tok_count(flatc_opts_args(o), "--natural-utf8"@) == (if o.natural_utf8 {
            1nat
        } else {
            0nat
        }),
{
    lemma_flatc_token_lens_a();
    lemma_flatc_token_lens_b();
    lemma_flatc_token_lens_c();
    lemma_flatc_token_chars_a();
    lemma_flatc_token_chars_b();
    lemma_flatc_token_indexes();
    assert(flatc_flag_tokens().contains("--natural-utf8"@)) by {
        assert(flatc_flag_tokens()[8] == "--natural-utf8"@);
    }
    assert(forall|l: Language| #[trigger] lang_flag(l) != "--natural-utf8"@);
    lemma_langs_contrib_zero(o.languages@, "--natural-utf8"@);
    lemma_flatc_lists_zero(o, "--natural-utf8"@);
    lemma_flatc_count(o, "--natural-utf8"@);
}

/// The occurrence count of this option's flag.
#[verifier::rlimit(100)]
proof fn lemma_flatc_tot_defaults_json(o: FlatCOptions)
    requires
        flatc_values_flag_free(o),
    ensures
        tok_count(flatc_opts_args(o), "--defaults-json"@) == (if o.defaults_json {
            1nat
        } else {
            0nat
        }),
{
    lemma_flatc_token_lens_a();
    lemma_flatc_token_lens_b();
    lemma_flatc_token_lens_c();
    lemma_flatc_token_chars_a();
    lemma_flatc_token_chars_b();
    lemma_flatc_token_indexes();
    assert(flatc_flag_tokens().contains("--defaults-json"@)) by {
        assert(flatc_flag_tokens()[9] == "--defaults-json"@);
    }
    assert(forall|l: Language| #[trigger] lang_flag(l) != "--defaults-json"@);
    lemma_langs_contrib_zero(o.languages@, "--defaults-json"@);
    lemma_flatc_lists_zero(o, "--defaults-json"@);
    lemma_flatc_count(o, "--defaults-json"@);
}

/// The occurrence count of this option's flag.
#[verifier::rlimit(100)]
proof fn lemma_flatc_tot_unknown_json(o: FlatCOptions)
    requires
        flatc_values_flag_free(o),
    ensures
        tok_count(flatc_opts_args(o), "--unknown-json"@) == (if o.unknown_json {
            1nat
        } else {
            0nat
        }),
{
    lemma_flatc_token_lens_a();
    lemma_flatc_token_lens_b();
    lemma_flatc_token_lens_c();
    lemma_flatc_token_chars_a();
    lemma_flatc_token_chars_b();
    lemma_flatc_token_indexes();
    assert(flatc_flag_tokens().contains("--unknown-json"@)) by {
        assert(flatc_flag_tokens()[10] == "--unknown-json"@);
    }
    assert(forall|l: Language| #[trigger] lang_flag(l) != "--unknown-json"@);
    lemma_langs_contrib_zero(o.languages@, "--unknown-json"@);
    lemma_flatc_lists_zero(o, "--unknown-json"@);
    lemma_flatc_count(o, "--unknown-json"@);
}

/// The occurrence count of this option's flag.
#[verifier::rlimit(100)]
proof fn lemma_flatc_tot_no_prefix(o: FlatCOptions)
    requires
        flatc_values_flag_free(o),
    ensures
        tok_count(flatc_opts_args(o), "--no-prefix"@) == (if o.no_prefix {
            1nat
        } else {
            0nat
        }),
{
    lemma_flatc_token_lens_a();
    lemma_flatc_token_lens_b();
    lemma_flatc_token_lens_c();
    lemma_flatc_token_chars_a();
    lemma_flatc_token_chars_b();
    lemma_flatc_token_indexes();
    assert(flatc_flag_tokens().contains("--no-prefix"@)) by {
        assert(flatc_flag_tokens()[11] == "--no-prefix"@);
    }
    assert(forall|l: Language| #[trigger] lang_flag(l) != "--no-prefix"@);
    lemma_langs_contrib_zero(o.languages@, "--no-prefix"@);
    lemma_flatc_lists_zero(o, "--no-prefix"@);
    lemma_flatc_count(o, "--no-prefix"@);
}

/// The occurrence count of this option's flag.
#[verifier::rlimit(100)]
proof fn lemma_flatc_tot_scoped_enums(o: FlatCOptions)
    requires
        flatc_values_flag_free(o),
    ensures
        tok_count(flatc_opts_args(o), "--scoped-enums"@) == (if o.scoped_enums {
            1nat
        } else {
            0nat
        }),
{
    lemma_flatc_token_lens_a();
    lemma_flatc_token_lens_b();
    lemma_flatc_token_lens_c();
    lemma_flatc_token_chars_a();
    lemma_flatc_token_chars_b();
    lemma_flatc_token_indexes();
    assert(flatc_flag_tokens().contains("--scoped-enums"@)) by {
        assert(flatc_flag_tokens()[12] == "--scoped-enums"@);
    }
    assert(forall|l: Language| #[trigger] lang_flag(l) != "--scoped-enums"@);
    lemma_langs_contrib_zero(o.languages@, "--scoped-enums"@);
    lemma_flatc_lists_zero(o, "--scoped-enums"@);
    lemma_flatc_count(o, "--scoped-enums"@);
}

/// The occurrence count of this option's flag.
#[verifier::rlimit(100)]
proof fn lemma_flatc_tot_no_emit_min_max_enum_values(o: FlatCOptions)
    requires
        flatc_values_flag_free(o),
    ensures
        tok_count(flatc_opts_args(o), "--no-emit-min-max-enum-values"@) == (if o.no_emit_min_max_enum_values {
            1nat
        } else {
            0nat
        }),
{
    lemma_flatc_token_lens_a();
    lemma_flatc_token_lens_b();
    lemma_flatc_token_lens_c();
    lemma_flatc_token_chars_a();
    lemma_flatc_token_chars_b();
    lemma_flatc_token_indexes();
    assert(flatc_flag_tokens().contains("--no-emit-min-max-enum-values"@)) by {
        assert(flatc_flag_tokens()[13] == "--no-emit-min-max-enum-values"@);
    }
    assert(forall|l: Language| #[trigger] lang_flag(l) != "--no-emit-min-max-enum-values"@);
    lemma_langs_contrib_zero(o.languages@, "--no-emit-min-max-enum-values"@);
    lemma_flatc_lists_zero(o, "--no-emit-min-max-enum-values"@);
    lemma_flatc_count(o, "--no-emit-min-max-enum-values"@);
}

/// The occurrence count of this option's flag.
#[verifier::rlimit(100)]
proof fn lemma_flatc_tot_swift_implementation_only(o: FlatCOptions)
    requires
        flatc_values_flag_free(o),
    ensures
        tok_count(flatc_opts_args(o), "--swift-implementation-only"@) == (if o.swift_implementation_only {
            1nat
        } else {
            0nat
        }),
{
    lemma_flatc_token_lens_a();
    lemma_flatc_token_lens_b();
    lemma_flatc_token_lens_c();
    lemma_flatc_token_chars_a();
    lemma_flatc_token_chars_b();
    lemma_flatc_token_indexes();
    assert(flatc_flag_tokens().contains("--swift-implementation-only"@)) by {
        assert(flatc_flag_tokens()[14] == "--swift-implementation-only"@);
    }
    assert(forall|l: Language| #[trigger] lang_flag(l) != "--swift-implementation-only"@);
    lemma_langs_contrib_zero(o.languages@, "--swift-implementation-only"@);
    lemma_flatc_lists_zero(o, "--swift-implementation-only"@);
    lemma_flatc_count(o, "--swift-implementation-only"@);
}

/// The occurrence count of this option's flag.
#[verifier::rlimit(100)]
proof fn lemma_flatc_tot_no_includes(o: FlatCOptions)
    requires
        flatc_values_flag_free(o),
    ensures
        tok_count(flatc_opts_args(o), "--no-includes"@) == (if o.no_includes {
            1nat
        } else {
            0nat
        }),
{
    lemma_flatc_token_lens_a();
    lemma_flatc_token_lens_b();
    lemma_flatc_token_lens_c();
    lemma_flatc_token_chars_a();
    lemma_flatc_token_chars_b();
    lemma_flatc_token_indexes();
    assert(flatc_flag_tokens().contains("--no-includes"@)) by {
        assert(flatc_flag_tokens()[15] == "--no-includes"@);
    }
    assert(forall|l: Language| #[trigger] lang_flag(l) != "--no-includes"@);
    lemma_langs_contrib_zero(o.languages@, "--no-includes"@);
    lemma_flatc_lists_zero(o, "--no-includes"@);
    lemma_flatc_count(o, "--no-includes"@);
}

/// Flag-mapping totality for the JSON-shape and naming options: each flag occurs in the
/// option part of the argument list exactly as often as its field calls for
/// — as long as no populated value spells an option flag token.
pub proof fn lemma_flatc_json_flag_totality(o: FlatCOptions)
    requires
        flatc_values_flag_free(o),
    ensures
        tok_count(flatc_opts_args(o), "--strict-json"@) == (if o.strict_json {
            1nat
        } else {
            0nat
        }),
        tok_count(flatc_opts_args(o), "--allow-non-utf8"@) == (if o.allow_non_utf8 {
            1nat
        } else {
            0nat
        }),
        tok_count(flatc_opts_args(o), "--natural-utf8"@) == (if o.natural_utf8 {
            1nat
        } else {
            0nat
        }),
        tok_count(flatc_opts_args(o), "--defaults-json"@) == (if o.defaults_json {
            1nat
        } else {
            0nat
        }),
        tok_count(flatc_opts_args(o), "--unknown-json"@) == (if o.unknown_json {
            1nat
        } else {
            0nat
        }),
        tok_count(flatc_opts_args(o), "--no-prefix"@) == (if o.no_prefix {
            1nat
        } else {
            0nat
        }),
        tok_count(flatc_opts_args(o), "--scoped-enums"@) == (if o.scoped_enums {
            1nat
        } else {
            0nat
        }),
        tok_count(flatc_opts_args(o), "--no-emit-min-max-enum-values"@) == (if o.no_emit_min_max_enum_values {
            1nat
        } else {
            0nat
        }),
        tok_count(flatc_opts_args(o), "--swift-implementation-only"@) == (if o.swift_implementation_only {
            1nat
        } else {
            0nat
        }),
        tok_count(flatc_opts_args(o), "--no-includes"@) == (if o.no_includes {
            1nat
        } else {
            0nat
        }),
{
    lemma_flatc_tot_strict_json(o);
    lemma_flatc_tot_allow_non_utf8(o);
    lemma_flatc_tot_natural_utf8(o);
    lemma_flatc_tot_defaults_json(o);
    lemma_flatc_tot_unknown_json(o);
    lemma_flatc_tot_no_prefix(o);
    lemma_flatc_tot_scoped_enums(o);
    lemma_flatc_tot_no_emit_min_max_enum_values(o);
    lemma_flatc_tot_swift_implementation_only(o);
    lemma_flatc_tot_no_includes(o);
}

/// The occurrence count of this option's flag.
#[verifier::rlimit(100)]
proof fn lemma_flatc_tot_gen_mutable(o: FlatCOptions)
    requires
        flatc_values_flag_free(o),
    ensures
        tok_count(flatc_opts_args(o), "--gen-mutable"@) == (if o.gen_mutable {
            1nat
        } else {
            0nat
        }),
{
    lemma_flatc_token_lens_a();
    lemma_flatc_token_lens_b();
    lemma_flatc_token_lens_c();
    lemma_flatc_token_chars_a();
    lemma_flatc_token_chars_b();
    lemma_flatc_token_indexes();
    assert(flatc_flag_tokens().contains("--gen-mutable"@)) by {
        assert(flatc_flag_tokens()[16] == "--gen-mutable"@);
    }
    assert(forall|l: Language| #[trigger] lang_flag(l) != "--gen-mutable"@);
    lemma_langs_contrib_zero(o.languages@, "--gen-mutable"@);
    lemma_flatc_lists_zero(o, "--gen-mutable"@);
    lemma_flatc_count(o, "--gen-mutable"@);
}

/// The occurrence count of this option's flag.
#[verifier::rlimit(100)]
proof fn lemma_flatc_tot_gen_onefile(o: FlatCOptions)
    requires
        flatc_values_flag_free(o),
    ensures
        tok_count(flatc_opts_args(o), "--gen-onefile"@) == (if o.gen_onefile {
            1nat
        } else {
            0nat
        }),
{
    lemma_flatc_token_lens_a();
    lemma_flatc_token_lens_b();
    lemma_flatc_token_lens_c();
    lemma_flatc_token_chars_a();
    lemma_flatc_token_chars_b();
    lemma_flatc_token_indexes();
    assert(flatc_flag_tokens().contains("--gen-onefile"@)) by {
        assert(flatc_flag_tokens()[17] == "--gen-onefile"@);
    }
    assert(forall|l: Language| #[trigger] lang_flag(l) != "--gen-onefile"@);
    lemma_langs_contrib_zero(o.languages@, "--gen-onefile"@);
    lemma_flatc_lists_zero(o, "--gen-onefile"@);
    lemma_flatc_count(o, "--gen-onefile"@);
}

/// The occurrence count of this option's flag.
#[verifier::rlimit(100)]
proof fn lemma_flatc_tot_gen_name_strings(o: FlatCOptions)
    requires
        flatc_values_flag_free(o),
    ensures
        tok_count(flatc_opts_args(o), "--gen-name-strings"@) == (if o.gen_name_strings {
            1nat
        } else {
            0nat
        }),
{
    lemma_flatc_token_lens_a();
    lemma_flatc_token_lens_b();
    lemma_flatc_token_lens_c();
    lemma_flatc_token_chars_a();
    lemma_flatc_token_chars_b();
    lemma_flatc_token_indexes();
    assert(flatc_flag_tokens().contains("--gen-name-strings"@)) by {
        assert(flatc_flag_tokens()[18] == "--gen-name-strings"@);
    }
    assert(forall|l: Language| #[trigger] lang_flag(l) != "--gen-name-strings"@);
    lemma_langs_contrib_zero(o.languages@, "--gen-name-strings"@);
    lemma_flatc_lists_zero(o, "--gen-name-strings"@);
    lemma_flatc_count(o, "--gen-name-strings"@);
}

/// The occurrence count of this option's flag.
#[verifier::rlimit(100)]
proof fn lemma_flatc_tot_gen_object_api(o: FlatCOptions)
    requires
        flatc_values_flag_free(o),
    ensures
        tok_count(flatc_opts_args(o), "--gen-object-api"@) == (if o.gen_object_api {
            1nat
        } else {
            0nat
        }),
{
    lemma_flatc_token_lens_a();
    lemma_flatc_token_lens_b();
    lemma_flatc_token_lens_c();
    lemma_flatc_token_chars_a();
    lemma_flatc_token_chars_b();
    lemma_flatc_token_indexes();
    assert(flatc_flag_tokens().contains("--gen-object-api"@)) by {
        assert(flatc_flag_tokens()[19] == "--gen-object-api"@);
    }
    assert(forall|l: Language| #[trigger] lang_flag(l) != "--gen-object-api"@);
    lemma_langs_contrib_zero(o.languages@, "--gen-object-api"@);
    lemma_flatc_lists_zero(o, "--gen-object-api"@);
    lemma_flatc_count(o, "--gen-object-api"@);
}

/// The occurrence count of this option's flag.
#[verifier::rlimit(100)]
proof fn lemma_flatc_tot_gen_compare(o: FlatCOptions)
    requires
        flatc_values_flag_free(o),
    ensures
        tok_count(flatc_opts_args(o), "--gen-compare"@) == (if o.gen_compare {
            1nat
        } else {
            0nat
        }),
{
    lemma_flatc_token_lens_a();
    lemma_flatc_token_lens_b();
    lemma_flatc_token_lens_c();
    lemma_flatc_token_chars_a();
    lemma_flatc_token_chars_b();
    lemma_flatc_token_indexes();
    assert(flatc_flag_tokens().contains("--gen-compare"@)) by {
        assert(flatc_flag_tokens()[20] == "--gen-compare"@);
    }
    assert(forall|l: Language| #[trigger] lang_flag(l) != "--gen-compare"@);
    lemma_langs_contrib_zero(o.languages@, "--gen-compare"@);
    lemma_flatc_lists_zero(o, "--gen-compare"@);
    lemma_flatc_count(o, "--gen-compare"@);
}

/// The occurrence count of this option's flag.
#[verifier::rlimit(100)]
proof fn lemma_flatc_tot_gen_nullable(o: FlatCOptions)
    requires
        flatc_values_flag_free(o),
    ensures
        tok_count(flatc_opts_args(o), "--gen-nullable"@) == (if o.gen_nullable {
            1nat
        } else {
            0nat
        }),
{
    lemma_flatc_token_lens_a();
    lemma_flatc_token_lens_b();
    lemma_flatc_token_lens_c();
    lemma_flatc_token_chars_a();
    lemma_flatc_token_chars_b();
    lemma_flatc_token_indexes();
    assert(flatc_flag_tokens().contains("--gen-nullable"@)) by {
        assert(flatc_flag_tokens()[21] == "--gen-nullable"@);
    }
    assert(forall|l: Language| #[trigger] lang_flag(l) != "--gen-nullable"@);
    lemma_langs_contrib_zero(o.languages@, "--gen-nullable"@);
    lemma_flatc_lists_zero(o, "--gen-nullable"@);
    lemma_flatc_count(o, "--gen-nullable"@);
}

/// The occurrence count of this option's flag.
#[verifier::rlimit(100)]
proof fn lemma_flatc_tot_java_package_prefix(o: FlatCOptions)
    requires
        flatc_values_flag_free(o),
    ensures
        tok_count(flatc_opts_args(o), "--java-package-prefix"@) == (if o.java_package_prefix is Some {
            1nat
        } else {
            0nat
        }),
{
    lemma_flatc_token_lens_a();
    lemma_flatc_token_lens_b();
    lemma_flatc_token_lens_c();
    lemma_flatc_token_chars_a();
    lemma_flatc_token_chars_b();
    lemma_flatc_token_indexes();
    assert(flatc_flag_tokens().contains("--java-package-prefix"@)) by {
        assert(flatc_flag_tokens()[22] == "--java-package-prefix"@);
    }
    assert(forall|l: Language| #[trigger] lang_flag(l) != "--java-package-prefix"@);
    lemma_langs_contrib_zero(o.languages@, "--java-package-prefix"@);
    lemma_flatc_lists_zero(o, "--java-package-prefix"@);
    lemma_flatc_count(o, "--java-package-prefix"@);
}

/// The occurrence count of this option's flag.
#[verifier::rlimit(100)]
proof fn lemma_flatc_tot_java_checkerframework(o: FlatCOptions)
    requires
        flatc_values_flag_free(o),
    ensures
        tok_count(flatc_opts_args(o), "--java-checkerframework"@) == (if o.java_checkerframework {
            1nat
        } else {
            0nat
        }),
{
    lemma_flatc_token_lens_a();
    lemma_flatc_token_lens_b();
    lemma_flatc_token_lens_c();
    lemma_flatc_token_chars_a();
    lemma_flatc_token_chars_b();
    lemma_flatc_token_indexes();
    assert(flatc_flag_tokens().contains("--java-checkerframework"@)) by {
        assert(flatc_flag_tokens()[23] == "--java-checkerframework"@);
    }
    assert(forall|l: Language| #[trigger] lang_flag(l) != "--java-checkerframework"@);
    lemma_langs_contrib_zero(o.languages@, "--java-checkerframework"@);
    lemma_flatc_lists_zero(o, "--java-checkerframework"@);
    lemma_flatc_count(o, "--java-checkerframework"@);
}

/// The occurrence count of this option's flag.
#[verifier::rlimit(100)]
proof fn lemma_flatc_tot_gen_generated(o: FlatCOptions)
    requires
        flatc_values_flag_free(o),
    ensures
        tok_count(flatc_opts_args(o), "--gen-generated"@) == (if o.gen_generated {
            1nat
        } else {
            0nat
        }),
{
    lemma_flatc_token_lens_a();
    lemma_flatc_token_lens_b();
    lemma_flatc_token_lens_c();
    lemma_flatc_token_chars_a();
    lemma_flatc_token_chars_b();
    lemma_flatc_token_indexes();
    assert(flatc_flag_tokens().contains("--gen-generated"@)) by {
        assert(flatc_flag_tokens()[24] == "--gen-generated"@);
    }
    assert(forall|l: Language| #[trigger] lang_flag(l) != "--gen-generated"@);
    lemma_langs_contrib_zero(o.languages@, "--gen-generated"@);
    lemma_flatc_lists_zero(o, "--gen-generated"@);
    lemma_flatc_count(o, "--gen-generated"@);
}

/// The occurrence count of this option's flag.
#[verifier::rlimit(100)]
proof fn lemma_flatc_tot_gen_jvmstatic(o: FlatCOptions)
    requires
        flatc_values_flag_free(o),
    ensures
        tok_count(flatc_opts_args(o), "--gen-jvmstatic"@) == (if o.gen_jvmstatic {
            1nat
        } else {
            0nat
        }),
{
    lemma_flatc_token_lens_a();
    lemma_flatc_token_lens_b();
    lemma_flatc_token_lens_c();
    lemma_flatc_token_chars_a();
    lemma_flatc_token_chars_b();
    lemma_flatc_token_indexes();
    assert(flatc_flag_tokens().contains("--gen-jvmstatic"@)) by {
        assert(flatc_flag_tokens()[25] == "--gen-jvmstatic"@);
    }
    assert(forall|l: Language| #[trigger] lang_flag(l) != "--gen-jvmstatic"@);
    lemma_langs_contrib_zero(o.languages@, "--gen-jvmstatic"@);
    lemma_flatc_lists_zero(o, "--gen-jvmstatic"@);
    lemma_flatc_count(o, "--gen-jvmstatic"@);
}

/// The occurrence count of this option's flag.
#[verifier::rlimit(100)]
proof fn lemma_flatc_tot_gen_all(o: FlatCOptions)
    requires
        flatc_values_flag_free(o),
    ensures
        tok_count(flatc_opts_args(o), "--gen-all"@) == (if o.gen_all {
            1nat
        } else {
            0nat
        }),
{
    lemma_flatc_token_lens_a();
    lemma_flatc_token_lens_b();
    lemma_flatc_token_lens_c();
    lemma_flatc_token_chars_a();
    lemma_flatc_token_chars_b();
    lemma_flatc_token_indexes();
    assert(flatc_flag_tokens().contains("--gen-all"@)) by {
        assert(flatc_flag_tokens()[26] == "--gen-all"@);
    }
    assert(forall|l: Language| #[trigger] lang_flag(l) != "--gen-all"@);
    lemma_langs_contrib_zero(o.languages@, "--gen-all"@);
    lemma_flatc_lists_zero(o, "--gen-all"@);
    lemma_flatc_count(o, "--gen-all"@);
}

/// The occurrence count of this option's flag.
#[verifier::rlimit(100)]
proof fn lemma_flatc_tot_gen_json_emit(o: FlatCOptions)
    requires
        flatc_values_flag_free(o),
    ensures
        tok_count(flatc_opts_args(o), "--gen-json-emit"@) == (if o.gen_json_emit {
            1nat
        } else {
            0nat
        }),
{
    lemma_flatc_token_lens_a();
    lemma_flatc_token_lens_b();
    lemma_flatc_token_lens_c();
    lemma_flatc_token_chars_a();
    lemma_flatc_token_chars_b();
    lemma_flatc_token_indexes();
    assert(flatc_flag_tokens().contains("--gen-json-emit"@)) by {
        assert(flatc_flag_tokens()[27] == "--gen-json-emit"@);
    }
    assert(forall|l: Language| #[trigger] lang_flag(l) != "--gen-json-emit"@);
    lemma_langs_contrib_zero(o.languages@, "--gen-json-emit"@);
    lemma_flatc_lists_zero(o, "--gen-json-emit"@);
    lemma_flatc_count(o, "--gen-json-emit"@);
}

/// Flag-mapping totality for the code-generation options: each flag occurs in the
/// option part of the argument list exactly as often as its field calls for
/// — as long as no populated value spells an option flag token.
pub proof fn lemma_flatc_gen_flag_totality(o: FlatCOptions)
    requires
        flatc_values_flag_free(o),
    ensures
        tok_count(flatc_opts_args(o), "--gen-mutable"@) == (if o.gen_mutable {
            1nat
        } else {
            0nat
        }),
        tok_count(flatc_opts_args(o), "--gen-onefile"@) == (if o.gen_onefile {
            1nat
        } else {
            0nat
        }),
        tok_count(flatc_opts_args(o), "--gen-name-strings"@) == (if o.gen_name_strings {
            1nat
        } else {
            0nat
        }),
        tok_count(flatc_opts_args(o), "--gen-object-api"@) == (if o.gen_object_api {
            1nat
        } else {
            0nat
        }),
        tok_count(flatc_opts_args(o), "--gen-compare"@) == (if o.gen_compare {
            1nat
        } else {
            0nat
        }),
        tok_count(flatc_opts_args(o), "--gen-nullable"@) == (if o.gen_nullable {
            1nat
        } else {
            0nat
        }),
        tok_count(flatc_opts_args(o), "--java-package-prefix"@) == (if o.java_package_prefix is Some {
            1nat
        } else {
            0nat
        }),
        tok_count(flatc_opts_args(o), "--java-checkerframework"@) == (if o.java_checkerframework {
            1nat
        } else {
            0nat
        }),
        tok_count(flatc_opts_args(o), "--gen-generated"@) == (if o.gen_generated {
            1nat
        } else {
            0nat
        }),
        tok_count(flatc_opts_args(o), "--gen-jvmstatic"@) == (if o.gen_jvmstatic {
            1nat
        } else {
            0nat
        }),
        tok_count(flatc_opts_args(o), "--gen-all"@) == (if o.gen_all {
            1nat
        } else {
            0nat
        }),
        tok_count(flatc_opts_args(o), "--gen-json-emit"@) == (if o.gen_json_emit {
            1nat
        } else {
            0nat
        }),
{
    lemma_flatc_tot_gen_mutable(o);
    lemma_flatc_tot_gen_onefile(o);
    lemma_flatc_tot_gen_name_strings(o);
    lemma_flatc_tot_gen_object_api(o);
    lemma_flatc_tot_gen_compare(o);
    lemma_flatc_tot_gen_nullable(o);
    lemma_flatc_tot_java_package_prefix(o);
    lemma_flatc_tot_java_checkerframework(o);
    lemma_flatc_tot_gen_generated(o);
    lemma_flatc_tot_gen_jvmstatic(o);
    lemma_flatc_tot_gen_all(o);
    lemma_flatc_tot_gen_json_emit(o);
}

/// The occurrence count of this option's flag.
#[verifier::rlimit(100)]
proof fn lemma_flatc_tot_cpp_include(o: FlatCOptions)
    requires
        flatc_values_flag_free(o),
    ensures
        tok_count(flatc_opts_args(o), "--cpp-include"@) == o.cpp_include@.len(),
{
    lemma_flatc_token_lens_a();
    lemma_flatc_token_lens_b();
    lemma_flatc_token_lens_c();
    lemma_flatc_token_chars_a();
    lemma_flatc_token_chars_b();
    lemma_flatc_token_indexes();
    assert(flatc_flag_tokens().contains("--cpp-include"@)) by {
        assert(flatc_flag_tokens()[28] == "--cpp-include"@);
    }
    assert(forall|l: Language| #[trigger] lang_flag(l) != "--cpp-include"@);
    lemma_langs_contrib_zero(o.languages@, "--cpp-include"@);
    lemma_flatc_lists_zero(o, "--cpp-include"@);
    lemma_flatc_count(o, "--cpp-include"@);
}

/// The occurrence count of this option's flag.
#[verifier::rlimit(100)]
proof fn lemma_flatc_tot_cpp_ptr_type(o: FlatCOptions)
    requires
        flatc_values_flag_free(o),
    ensures
        tok_count(flatc_opts_args(o), "--cpp-ptr-type"@) == (if o.cpp_ptr_type is Some {
            1nat
        } else {
            0nat
        }),
{
    lemma_flatc_token_lens_a();
    lemma_flatc_token_lens_b();
    lemma_flatc_token_lens_c();
    lemma_flatc_token_chars_a();
    lemma_flatc_token_chars_b();
    lemma_flatc_token_indexes();
    assert(flatc_flag_tokens().contains("--cpp-ptr-type"@)) by {
        assert(flatc_flag_tokens()[29] == "--cpp-ptr-type"@);
    }
    assert(forall|l: Language| #[trigger] lang_flag(l) != "--cpp-ptr-type"@);
    lemma_langs_contrib_zero(o.languages@, "--cpp-ptr-type"@);
    lemma_flatc_lists_zero(o, "--cpp-ptr-type"@);
    lemma_flatc_count(o, "--cpp-ptr-type"@);
}

/// The occurrence count of this option's flag.
#[verifier::rlimit(100)]
proof fn lemma_flatc_tot_cpp_str_type(o: FlatCOptions)
    requires
        flatc_values_flag_free(o),
    ensures
        tok_count(flatc_opts_args(o), "--cpp-str-type"@) == (if o.cpp_str_type is Some {
            1nat
        } else {
            0nat
        }),
{
    lemma_flatc_token_lens_a();
    lemma_flatc_token_lens_b();
    lemma_flatc_token_lens_c();
    lemma_flatc_token_chars_a();
    lemma_flatc_token_chars_b();
    lemma_flatc_token_indexes();
    assert(flatc_flag_tokens().contains("--cpp-str-type"@)) by {
        assert(flatc_flag_tokens()[30] == "--cpp-str-type"@);
    }
    assert(forall|l: Language| #[trigger] lang_flag(l) != "--cpp-str-type"@);
    lemma_langs_contrib_zero(o.languages@, "--cpp-str-type"@);
    lemma_flatc_lists_zero(o, "--cpp-str-type"@);
    lemma_flatc_count(o, "--cpp-str-type"@);
}

/// The occurrence count of this option's flag.
#[verifier::rlimit(100)]
proof fn lemma_flatc_tot_cpp_str_flex_ctor(o: FlatCOptions)
    requires
        flatc_values_flag_free(o),
    ensures
        tok_count(flatc_opts_args(o), "--cpp-str-flex-ctor"@) == (if o.cpp_str_flex_ctor {
            1nat
        } else {
            0nat
        }),
{
    lemma_flatc_token_lens_a();
    lemma_flatc_token_lens_b();
    lemma_flatc_token_lens_c();
    lemma_flatc_token_chars_a();
    lemma_flatc_token_chars_b();
    lemma_flatc_token_indexes();
    assert(flatc_flag_tokens().contains("--cpp-str-flex-ctor"@)) by {
        assert(flatc_flag_tokens()[31] == "--cpp-str-flex-ctor"@);
    }
    assert(forall|l: Language| #[trigger] lang_flag(l) != "--cpp-str-flex-ctor"@);
    lemma_langs_contrib_zero(o.languages@, "--cpp-str-flex-ctor"@);
    lemma_flatc_lists_zero(o, "--cpp-str-flex-ctor"@);
    lemma_flatc_count(o, "--cpp-str-flex-ctor"@);
}

/// The occurrence count of this option's flag.
#[verifier::rlimit(100)]
proof fn lemma_flatc_tot_cpp_field_case_style(o: FlatCOptions)
    requires
        flatc_values_flag_free(o),
    ensures
        tok_count(flatc_opts_args(o), "--cpp-field-case-style"@) == (if o.cpp_field_case_style is Some {
            1nat
        } else {
            0nat
        }),
{
    lemma_flatc_token_lens_a();
    lemma_flatc_token_lens_b();
    lemma_flatc_token_lens_c();
    lemma_flatc_token_chars_a();
    lemma_flatc_token_chars_b();
    lemma_flatc_token_indexes();
    assert(flatc_flag_tokens().contains("--cpp-field-case-style"@)) by {
        assert(flatc_flag_tokens()[32] == "--cpp-field-case-style"@);
    }
    assert(forall|l: Language| #[trigger] lang_flag(l) != "--cpp-field-case-style"@);
    lemma_langs_contrib_zero(o.languages@, "--cpp-field-case-style"@);
    lemma_flatc_lists_zero(o, "--cpp-field-case-style"@);
    lemma_flatc_count(o, "--cpp-field-case-style"@);
}

/// The occurrence count of this option's flag.
#[verifier::rlimit(100)]
proof fn lemma_flatc_tot_no_cpp_direct_copy(o: FlatCOptions)
    requires
        flatc_values_flag_free(o),
    ensures
        tok_count(flatc_opts_args(o), "--no-cpp-direct-copy"@) == (if o.no_cpp_direct_copy {
            1nat
        } else {
            0nat
        }),
{
    lemma_flatc_token_lens_a();
    lemma_flatc_token_lens_b();
    lemma_flatc_token_lens_c();
    lemma_flatc_token_chars_a();
    lemma_flatc_token_chars_b();
    lemma_flatc_token_indexes();
    assert(flatc_flag_tokens().contains("--no-cpp-direct-copy"@)) by {
        assert(flatc_flag_tokens()[33] == "--no-cpp-direct-copy"@);
    }
    assert(forall|l: Language| #[trigger] lang_flag(l) != "--no-cpp-direct-copy"@);
    lemma_langs_contrib_zero(o.languages@, "--no-cpp-direct-copy"@);
    lemma_flatc_lists_zero(o, "--no-cpp-direct-copy"@);
    lemma_flatc_count(o, "--no-cpp-direct-copy"@);
}

/// The occurrence count of this option's flag.
#[verifier::rlimit(100)]
proof fn lemma_flatc_tot_cpp_std(o: FlatCOptions)
    requires
        flatc_values_flag_free(o),
    ensures
        tok_count(flatc_opts_args(o), "--cpp-std"@) == (if o.cpp_std is Some {
            1nat
        } else {
            0nat
        }),
{
    lemma_flatc_token_lens_a();
    lemma_flatc_token_lens_b();
    lemma_flatc_token_lens_c();
    lemma_flatc_token_chars_a();
    lemma_flatc_token_chars_b();
    lemma_flatc_token_indexes();
    assert(flatc_flag_tokens().contains("--cpp-std"@)) by {
        assert(flatc_flag_tokens()[34] == "--cpp-std"@);
    }
    assert(forall|l: Language| #[trigger] lang_flag(l) != "--cpp-std"@);
    lemma_langs_contrib_zero(o.languages@, "--cpp-std"@);
    lemma_flatc_lists_zero(o, "--cpp-std"@);
    lemma_flatc_count(o, "--cpp-std"@);
}

/// The occurrence count of this option's flag.
#[verifier::rlimit(100)]
proof fn lemma_flatc_tot_cpp_static_reflection(o: FlatCOptions)
    requires
        flatc_values_flag_free(o),
    ensures
        tok_count(flatc_opts_args(o), "--cpp-static-reflection"@) == (if o.cpp_static_reflection {
            1nat
        } else {
            0nat
        }),
{
    lemma_flatc_token_lens_a();
    lemma_flatc_token_lens_b();
    lemma_flatc_token_lens_c();
    lemma_flatc_token_chars_a();
    lemma_flatc_token_chars_b();
    lemma_flatc_token_indexes();
    assert(flatc_flag_tokens().contains("--cpp-static-reflection"@)) by {
        assert(flatc_flag_tokens()[35] == "--cpp-static-reflection"@);
    }
    assert(forall|l: Language| #[trigger] lang_flag(l) != "--cpp-static-reflection"@);
    lemma_langs_contrib_zero(o.languages@, "--cpp-static-reflection"@);
    lemma_flatc_lists_zero(o, "--cpp-static-reflection"@);
    lemma_flatc_count(o, "--cpp-static-reflection"@);
}

/// The occurrence count of this option's flag.
#[verifier::rlimit(100)]
proof fn lemma_flatc_tot_object_prefix(o: FlatCOptions)
    requires
        flatc_values_flag_free(o),
    ensures
        tok_count(flatc_opts_args(o), "--object-prefix"@) == (if o.object_prefix is Some {
            1nat
        } else {
            0nat
        }),
{
    lemma_flatc_token_lens_a();
    lemma_flatc_token_lens_b();
    lemma_flatc_token_lens_c();
    lemma_flatc_token_chars_a();
    lemma_flatc_token_chars_b();
    lemma_flatc_token_indexes();
    assert(flatc_flag_tokens().contains("--object-prefix"@)) by {
        assert(flatc_flag_tokens()[36] == "--object-prefix"@);
    }
    assert(forall|l: Language| #[trigger] lang_flag(l) != "--object-prefix"@);
    lemma_langs_contrib_zero(o.languages@, "--object-prefix"@);
    lemma_flatc_lists_zero(o, "--object-prefix"@);
    lemma_flatc_count(o, "--object-prefix"@);
}

/// The occurrence count of this option's flag.
#[verifier::rlimit(100)]
proof fn lemma_flatc_tot_object_suffix(o: FlatCOptions)
    requires
        flatc_values_flag_free(o),
    ensures
        tok_count(flatc_opts_args(o), "--object-suffix"@) == (if o.object_suffix is Some {
            1nat
        } else {
            0nat
        }),
{
    lemma_flatc_token_lens_a();
    lemma_flatc_token_lens_b();
    lemma_flatc_token_lens_c();
    lemma_flatc_token_chars_a();
    lemma_flatc_token_chars_b();
    lemma_flatc_token_indexes();
    assert(flatc_flag_tokens().contains("--object-suffix"@)) by {
        assert(flatc_flag_tokens()[37] == "--object-suffix"@);
    }
    assert(forall|l: Language| #[trigger] lang_flag(l) != "--object-suffix"@);
    lemma_langs_contrib_zero(o.languages@, "--object-suffix"@);
    lemma_flatc_lists_zero(o, "--object-suffix"@);
    lemma_flatc_count(o, "--object-suffix"@);
}

/// Flag-mapping totality for the C++ options: each flag occurs in the
/// option part of the argument list exactly as often as its field calls for
/// — as long as no populated value spells an option flag token.
pub proof fn lemma_flatc_cpp_flag_totality(o: FlatCOptions)
    requires
        flatc_values_flag_free(o),
    ensures
        tok_count(flatc_opts_args(o), "--cpp-include"@) == o.cpp_include@.len(),
        tok_count(flatc_opts_args(o), "--cpp-ptr-type"@) == (if o.cpp_ptr_type is Some {
            1nat
        } else {
            0nat
        }),
        tok_count(flatc_opts_args(o), "--cpp-str-type"@) == (if o.cpp_str_type is Some {
            1nat
        } else {
            0nat
        }),
        tok_count(flatc_opts_args(o), "--cpp-str-flex-ctor"@) == (if o.cpp_str_flex_ctor {
            1nat
        } else {
            0nat
        }),
        tok_count(flatc_opts_args(o), "--cpp-field-case-style"@) == (if o.cpp_field_case_style is Some {
            1nat
        } else {
            0nat
        }),
        tok_count(flatc_opts_args(o), "--no-cpp-direct-copy"@) == (if o.no_cpp_direct_copy {
            1nat
        } else {
            0nat
        }),
        tok_count(flatc_opts_args(o), "--cpp-std"@) == (if o.cpp_std is Some {
            1nat
        } else {
            0nat
        }),
        tok_count(flatc_opts_args(o), "--cpp-static-reflection"@) == (if o.cpp_static_reflection {
            1nat
        } else {
            0nat
        }),
        tok_count(flatc_opts_args(o), "--object-prefix"@) == (if o.object_prefix is Some {
            1nat
        } else {
            0nat
        }),
        tok_count(flatc_opts_args(o), "--object-suffix"@) == (if o.object_suffix is Some {
            1nat
        } else {
            0nat
        }),
{
    lemma_flatc_tot_cpp_include(o);
    lemma_flatc_tot_cpp_ptr_type(o);
    lemma_flatc_tot_cpp_str_type(o);
    lemma_flatc_tot_cpp_str_flex_ctor(o);
    lemma_flatc_tot_cpp_field_case_style(o);
    lemma_flatc_tot_no_cpp_direct_copy(o);
    lemma_flatc_tot_cpp_std(o);
    lemma_flatc_tot_cpp_static_reflection(o);
    lemma_flatc_tot_object_prefix(o);
    lemma_flatc_tot_object_suffix(o);
}

/// The occurrence count of this option's flag.
#[verifier::rlimit(100)]
proof fn lemma_flatc_tot_go_namespace(o: FlatCOptions)
    requires
        flatc_values_flag_free(o),
    ensures
        tok_count(flatc_opts_args(o), "--go-namespace"@) == (if o.go_namespace is Some {
            1nat
        } else {
            0nat
        }),
{
    lemma_flatc_token_lens_a();
    lemma_flatc_token_lens_b();
    lemma_flatc_token_lens_c();
    lemma_flatc_token_chars_a();
    lemma_flatc_token_chars_b();
    lemma_flatc_token_indexes();
    assert(flatc_flag_tokens().contains("--go-namespace"@)) by {
        assert(flatc_flag_tokens()[38] == "--go-namespace"@);
    }
    assert(forall|l: Language| #[trigger] lang_flag(l) != "--go-namespace"@);
    lemma_langs_contrib_zero(o.languages@, "--go-namespace"@);
    lemma_flatc_lists_zero(o, "--go-namespace"@);
    lemma_flatc_count(o, "--go-namespace"@);
}

/// The occurrence count of this option's flag.
#[verifier::rlimit(100)]
proof fn lemma_flatc_tot_go_import(o: FlatCOptions)
    requires
        flatc_values_flag_free(o),
    ensures
        tok_count(flatc_opts_args(o), "--go-import"@) == (if o.go_import is Some {
            1nat
        } else {
            0nat
        }),
{
    lemma_flatc_token_lens_a();
    lemma_flatc_token_lens_b();
    lemma_flatc_token_lens_c();
    lemma_flatc_token_chars_a();
    lemma_flatc_token_chars_b();
    lemma_flatc_token_indexes();
    assert(flatc_flag_tokens().contains("--go-import"@)) by {
        assert(flatc_flag_tokens()[39] == "--go-import"@);
    }
    assert(forall|l: Language| #[trigger] lang_flag(l) != "--go-import"@);
    lemma_langs_contrib_zero(o.languages@, "--go-import"@);
    lemma_flatc_lists_zero(o, "--go-import"@);
    lemma_flatc_count(o, "--go-import"@);
}

/// The occurrence count of this option's flag.
#[verifier::rlimit(100)]
proof fn lemma_flatc_tot_go_module_name(o: FlatCOptions)
    requires
        flatc_values_flag_free(o),
    ensures
        tok_count(flatc_opts_args(o), "--go-module-name"@) == (if o.go_module_name is Some {
            1nat
        } else {
            0nat
        }),
{
    lemma_flatc_token_lens_a();
    lemma_flatc_token_lens_b();
    lemma_flatc_token_lens_c();
    lemma_flatc_token_chars_a();
    lemma_flatc_token_chars_b();
    lemma_flatc_token_indexes();
    assert(flatc_flag_tokens().contains("--go-module-name"@)) by {
        assert(flatc_flag_tokens()[40] == "--go-module-name"@);
    }
    assert(forall|l: Language| #[trigger] lang_flag(l) != "--go-module-name"@);
    lemma_langs_contrib_zero(o.languages@, "--go-module-name"@);
    lemma_flatc_lists_zero(o, "--go-module-name"@);
    lemma_flatc_count(o, "--go-module-name"@);
}

/// The occurrence count of this option's flag.
#[verifier::rlimit(100)]
proof fn lemma_flatc_tot_raw_binary(o: FlatCOptions)
    requires
        flatc_values_flag_free(o),
    ensures
        tok_count(flatc_opts_args(o), "--raw-binary"@) == (if o.raw_binary {
            1nat
        } else {
            0nat
        }),
{
    lemma_flatc_token_lens_a();
    lemma_flatc_token_lens_b();
    lemma_flatc_token_lens_c();
    lemma_flatc_token_chars_a();
    lemma_flatc_token_chars_b();
    lemma_flatc_token_indexes();
    assert(flatc_flag_tokens().contains("--raw-binary"@)) by {
        assert(flatc_flag_tokens()[41] == "--raw-binary"@);
    }
    assert(forall|l: Language| #[trigger] lang_flag(l) != "--raw-binary"@);
    lemma_langs_contrib_zero(o.languages@, "--raw-binary"@);
    lemma_flatc_lists_zero(o, "--raw-binary"@);
    lemma_flatc_count(o, "--raw-binary"@);
}

/// The occurrence count of this option's flag.
#[verifier::rlimit(100)]
proof fn lemma_flatc_tot_size_prefixed(o: FlatCOptions)
    requires
        flatc_values_flag_free(o),
    ensures
        tok_count(flatc_opts_args(o), "--size-prefixed"@) == (if o.size_prefixed {
            1nat
        } else {
            0nat
        }),
{
    lemma_flatc_token_lens_a();
    lemma_flatc_token_lens_b();
    lemma_flatc_token_lens_c();
    lemma_flatc_token_chars_a();
    lemma_flatc_token_chars_b();
    lemma_flatc_token_indexes();
    assert(flatc_flag_tokens().contains("--size-prefixed"@)) by {
        assert(flatc_flag_tokens()[42] == "--size-prefixed"@);
    }
    assert(forall|l: Language| #[trigger] lang_flag(l) != "--size-prefixed"@);
    lemma_langs_contrib_zero(o.languages@, "--size-prefixed"@);
    lemma_flatc_lists_zero(o, "--size-prefixed"@);
    lemma_flatc_count(o, "--size-prefixed"@);
}

/// The occurrence count of this option's flag.
#[verifier::rlimit(100)]
proof fn lemma_flatc_tot_proto(o: FlatCOptions)
    requires
        flatc_values_flag_free(o),
    ensures
        tok_count(flatc_opts_args(o), "--proto"@) == (if o.proto {
            1nat
        } else {
            0nat
        }),
{
    lemma_flatc_token_lens_a();
    lemma_flatc_token_lens_b();
    lemma_flatc_token_lens_c();
    lemma_flatc_token_chars_a();
    lemma_flatc_token_chars_b();
    lemma_flatc_token_indexes();
    assert(flatc_flag_tokens().contains("--proto"@)) by {
        assert(flatc_flag_tokens()[43] == "--proto"@);
    }
    assert(forall|l: Language| #[trigger] lang_flag(l) != "--proto"@);
    lemma_langs_contrib_zero(o.languages@, "--proto"@);
    lemma_flatc_lists_zero(o, "--proto"@);
    lemma_flatc_count(o, "--proto"@);
}

/// The occurrence count of this option's flag.
#[verifier::rlimit(100)]
proof fn lemma_flatc_tot_proto_namespace_suffix(o: FlatCOptions)
    requires
        flatc_values_flag_free(o),
    ensures
        tok_count(flatc_opts_args(o), "--proto-namespace-suffix"@) == (if o.proto_namespace_suffix is Some {
            1nat
        } else {
            0nat
        }),
{
    lemma_flatc_token_lens_a();
    lemma_flatc_token_lens_b();
    lemma_flatc_token_lens_c();
    lemma_flatc_token_chars_a();
    lemma_flatc_token_chars_b();
    lemma_flatc_token_indexes();
    assert(flatc_flag_tokens().contains("--proto-namespace-suffix"@)) by {
        assert(flatc_flag_tokens()[44] == "--proto-namespace-suffix"@);
    }
    assert(forall|l: Language| #[trigger] lang_flag(l) != "--proto-namespace-suffix"@);
    lemma_langs_contrib_zero(o.languages@, "--proto-namespace-suffix"@);
    lemma_flatc_lists_zero(o, "--proto-namespace-suffix"@);
    lemma_flatc_count(o, "--proto-namespace-suffix"@);
}

/// The occurrence count of this option's flag.
#[verifier::rlimit(100)]
proof fn lemma_flatc_tot_oneof_union(o: FlatCOptions)
    requires
        flatc_values_flag_free(o),
    ensures
        tok_count(flatc_opts_args(o), "--oneof-union"@) == (if o.oneof_union {
            1nat
        } else {
            0nat
        }),
{
    lemma_flatc_token_lens_a();
    lemma_flatc_token_lens_b();
    lemma_flatc_token_lens_c();
    lemma_flatc_token_chars_a();
    lemma_flatc_token_chars_b();
    lemma_flatc_token_indexes();
    assert(flatc_flag_tokens().contains("--oneof-union"@)) by {
        assert(flatc_flag_tokens()[45] == "--oneof-union"@);
    }
    assert(forall|l: Language| #[trigger] lang_flag(l) != "--oneof-union"@);
    lemma_langs_contrib_zero(o.languages@, "--oneof-union"@);
    lemma_flatc_lists_zero(o, "--oneof-union"@);
    lemma_flatc_count(o, "--oneof-union"@);
}

/// The occurrence count of this option's flag.
#[verifier::rlimit(100)]
proof fn lemma_flatc_tot_keep_proto_id(o: FlatCOptions)
    requires
        flatc_values_flag_free(o),
    ensures
        tok_count(flatc_opts_args(o), "--keep-proto-id"@) == (if o.keep_proto_id {
            1nat
        } else {
            0nat
        }),
{
    lemma_flatc_token_lens_a();
    lemma_flatc_token_lens_b();
    lemma_flatc_token_lens_c();
    lemma_flatc_token_chars_a();
    lemma_flatc_token_chars_b();
    lemma_flatc_token_indexes();
    assert(flatc_flag_tokens().contains("--keep-proto-id"@)) by {
        assert(flatc_flag_tokens()[46] == "--keep-proto-id"@);
    }
    assert(forall|l: Language| #[trigger] lang_flag(l) != "--keep-proto-id"@);
    lemma_langs_contrib_zero(o.languages@, "--keep-proto-id"@);
    lemma_flatc_lists_zero(o, "--keep-proto-id"@);
    lemma_flatc_count(o, "--keep-proto-id"@);
}

/// The occurrence count of this option's flag.
#[verifier::rlimit(100)]
proof fn lemma_flatc_tot_proto_id_gap(o: FlatCOptions)
    requires
        flatc_values_flag_free(o),
    ensures
        tok_count(flatc_opts_args(o), "--proto-id-gap"@) == (if o.proto_id_gap is Some {
            1nat
        } else {
            0nat
        }),
{
    lemma_flatc_token_lens_a();
    lemma_flatc_token_lens_b();
    lemma_flatc_token_lens_c();
    lemma_flatc_token_chars_a();
    lemma_flatc_token_chars_b();
    lemma_flatc_token_indexes();
    assert(flatc_flag_tokens().contains("--proto-id-gap"@)) by {
        assert(flatc_flag_tokens()[47] == "--proto-id-gap"@);
    }
    assert(forall|l: Language| #[trigger] lang_flag(l) != "--proto-id-gap"@);
    lemma_langs_contrib_zero(o.languages@, "--proto-id-gap"@);
    lemma_flatc_lists_zero(o, "--proto-id-gap"@);
    lemma_flatc_count(o, "--proto-id-gap"@);
}

/// The occurrence count of this option's flag.
#[verifier::rlimit(100)]
proof fn lemma_flatc_tot_schema(o: FlatCOptions)
    requires
        flatc_values_flag_free(o),
    ensures
        tok_count(flatc_opts_args(o), "--schema"@) == (if o.schema {
            1nat
        } else {
            0nat
        }),
{
    lemma_flatc_token_lens_a();
    lemma_flatc_token_lens_b();
    lemma_flatc_token_lens_c();
    lemma_flatc_token_chars_a();
    lemma_flatc_token_chars_b();
    lemma_flatc_token_indexes();
    assert(flatc_flag_tokens().contains("--schema"@)) by {
        assert(flatc_flag_tokens()[48] == "--schema"@);
    }
    assert(forall|l: Language| #[trigger] lang_flag(l) != "--schema"@);
    lemma_langs_contrib_zero(o.languages@, "--schema"@);
    lemma_flatc_lists_zero(o, "--schema"@);
    lemma_flatc_count(o, "--schema"@);
}

/// Flag-mapping totality for the Go and Protobuf options: each flag occurs in the
/// option part of the argument list exactly as often as its field calls for
/// — as long as no populated value spells an option flag token.
pub proof fn lemma_flatc_go_proto_flag_totality(o: FlatCOptions)
    requires
        flatc_values_flag_free(o),
    ensures
        tok_count(flatc_opts_args(o), "--go-namespace"@) == (if o.go_namespace is Some {
            1nat
        } else {
            0nat
        }),
        tok_count(flatc_opts_args(o), "--go-import"@) == (if o.go_import is Some {
            1nat
        } else {
            0nat
        }),
        tok_count(flatc_opts_args(o), "--go-module-name"@) == (if o.go_module_name is Some {
            1nat
        } else {
            0nat
        }),
        tok_count(flatc_opts_args(o), "--raw-binary"@) == (if o.raw_binary {
            1nat
        } else {
            0nat
        }),
        tok_count(flatc_opts_args(o), "--size-prefixed"@) == (if o.size_prefixed {
            1nat
        } else {
            0nat
        }),
        tok_count(flatc_opts_args(o), "--proto"@) == (if o.proto {
            1nat
        } else {
            0nat
        }),
        tok_count(flatc_opts_args(o), "--proto-namespace-suffix"@) == (if o.proto_namespace_suffix is Some {
            1nat
        } else {
            0nat
        }),
        tok_count(flatc_opts_args(o), "--oneof-union"@) == (if o.oneof_union {
            1nat
        } else {
            0nat
        }),
        tok_count(flatc_opts_args(o), "--keep-proto-id"@) == (if o.keep_proto_id {
            1nat
        } else {
            0nat
        }),
        tok_count(flatc_opts_args(o), "--proto-id-gap"@) == (if o.proto_id_gap is Some {
            1nat
        } else {
            0nat
        }),
        tok_count(flatc_opts_args(o), "--schema"@) == (if o.schema {
            1nat
        } else {
            0nat
        }),
{
    lemma_flatc_tot_go_namespace(o);
    lemma_flatc_tot_go_import(o);
    lemma_flatc_tot_go_module_name(o);
    lemma_flatc_tot_raw_binary(o);
    lemma_flatc_tot_size_prefixed(o);
    lemma_flatc_tot_proto(o);
    lemma_flatc_tot_proto_namespace_suffix(o);
    lemma_flatc_tot_oneof_union(o);
    lemma_flatc_tot_keep_proto_id(o);
    lemma_flatc_tot_proto_id_gap(o);
    lemma_flatc_tot_schema(o);
}

/// The occurrence count of this option's flag.
#[verifier::rlimit(100)]
proof fn lemma_flatc_tot_bfbs_filenames(o: FlatCOptions)
    requires
        flatc_values_flag_free(o),
    ensures
        tok_count(flatc_opts_args(o), "--bfbs-filenames"@) == (if o.bfbs_filenames is Some {
            1nat
        } else {
            0nat
        }),
{
    lemma_flatc_token_lens_a();
    lemma_flatc_token_lens_b();
    lemma_flatc_token_lens_c();
    lemma_flatc_token_chars_a();
    lemma_flatc_token_chars_b();
    lemma_flatc_token_indexes();
    assert(flatc_flag_tokens().contains("--bfbs-filenames"@)) by {
        assert(flatc_flag_tokens()[49] == "--bfbs-filenames"@);
    }
    assert(forall|l: Language| #[trigger] lang_flag(l) != "--bfbs-filenames"@);
    lemma_langs_contrib_zero(o.languages@, "--bfbs-filenames"@);
    lemma_flatc_lists_zero(o, "--bfbs-filenames"@);
    lemma_flatc_count(o, "--bfbs-filenames"@);
}

/// The occurrence count of this option's flag.
#[verifier::rlimit(100)]
proof fn lemma_flatc_tot_bfbs_absolute_paths(o: FlatCOptions)
    requires
        flatc_values_flag_free(o),
    ensures
        tok_count(flatc_opts_args(o), "--bfbs-absolute-paths"@) == (if o.bfbs_absolute_paths {
            1nat
        } else {
            0nat
        }),
{
    lemma_flatc_token_lens_a();
    lemma_flatc_token_lens_b();
    lemma_flatc_token_lens_c();
    lemma_flatc_token_chars_a();
    lemma_flatc_token_chars_b();
    lemma_flatc_token_indexes();
    assert(flatc_flag_tokens().contains("--bfbs-absolute-paths"@)) by {
        assert(flatc_flag_tokens()[50] == "--bfbs-absolute-paths"@);
    }
    assert(forall|l: Language| #[trigger] lang_flag(l) != "--bfbs-absolute-paths"@);
    lemma_langs_contrib_zero(o.languages@, "--bfbs-absolute-paths"@);
    lemma_flatc_lists_zero(o, "--bfbs-absolute-paths"@);
    lemma_flatc_count(o, "--bfbs-absolute-paths"@);
}

/// The occurrence count of this option's flag.
#[verifier::rlimit(100)]
proof fn lemma_flatc_tot_bfbs_comments(o: FlatCOptions)
    requires
        flatc_values_flag_free(o),
    ensures
        tok_count(flatc_opts_args(o), "--bfbs-comments"@) == (if o.bfbs_comments {
            1nat
        } else {
            0nat
        }),
{
    lemma_flatc_token_lens_a();
    lemma_flatc_token_lens_b();
    lemma_flatc_token_lens_c();
    lemma_flatc_token_chars_a();
    lemma_flatc_token_chars_b();
    lemma_flatc_token_indexes();
    assert(flatc_flag_tokens().contains("--bfbs-comments"@)) by {
        assert(flatc_flag_tokens()[51] == "--bfbs-comments"@);
    }
    assert(forall|l: Language| #[trigger] lang_flag(l) != "--bfbs-comments"@);
    lemma_langs_contrib_zero(o.languages@, "--bfbs-comments"@);
    lemma_flatc_lists_zero(o, "--bfbs-comments"@);
    lemma_flatc_count(o, "--bfbs-comments"@);
}

/// The occurrence count of this option's flag.
#[verifier::rlimit(100)]
proof fn lemma_flatc_tot_bfbs_builtins(o: FlatCOptions)
    requires
        flatc_values_flag_free(o),
    ensures
        tok_count(flatc_opts_args(o), "--bfbs-builtins"@) == (if o.bfbs_builtins {
            1nat
        } else {
            0nat
        }),
{
    lemma_flatc_token_lens_a();
    lemma_flatc_token_lens_b();
    lemma_flatc_token_lens_c();
    lemma_flatc_token_chars_a();
    lemma_flatc_token_chars_b();
    lemma_flatc_token_indexes();
    assert(flatc_flag_tokens().contains("--bfbs-builtins"@)) by {
        assert(flatc_flag_tokens()[52] == "--bfbs-builtins"@);
    }
    assert(forall|l: Language| #[trigger] lang_flag(l) != "--bfbs-builtins"@);
    lemma_langs_contrib_zero(o.languages@, "--bfbs-builtins"@);
    lemma_flatc_lists_zero(o, "--bfbs-builtins"@);
    lemma_flatc_count(o, "--bfbs-builtins"@);
}

/// The occurrence count of this option's flag.
#[verifier::rlimit(100)]
proof fn lemma_flatc_tot_bfbs_gen_embed(o: FlatCOptions)
    requires
        flatc_values_flag_free(o),
    ensures
        tok_count(flatc_opts_args(o), "--bfbs-gen-embed"@) == (if o.bfbs_gen_embed {
            1nat
        } else {
            0nat
        }),
{
    lemma_flatc_token_lens_a();
    lemma_flatc_token_lens_b();
    lemma_flatc_token_lens_c();
    lemma_flatc_token_chars_a();
    lemma_flatc_token_chars_b();
    lemma_flatc_token_indexes();
    assert(flatc_flag_tokens().contains("--bfbs-gen-embed"@)) by {
        assert(flatc_flag_tokens()[53] == "--bfbs-gen-embed"@);
    }
    assert(forall|l: Language| #[trigger] lang_flag(l) != "--bfbs-gen-embed"@);
    lemma_langs_contrib_zero(o.languages@, "--bfbs-gen-embed"@);
    lemma_flatc_lists_zero(o, "--bfbs-gen-embed"@);
    lemma_flatc_count(o, "--bfbs-gen-embed"@);
}

/// The occurrence count of this option's flag.
#[verifier::rlimit(100)]
proof fn lemma_flatc_tot_conform(o: FlatCOptions)
    requires
        flatc_values_flag_free(o),
    ensures
        tok_count(flatc_opts_args(o), "--conform"@) == (if o.conform is Some {
            1nat
        } else {
            0nat
        }),
{
    lemma_flatc_token_lens_a();
    lemma_flatc_token_lens_b();
    lemma_flatc_token_lens_c();
    lemma_flatc_token_chars_a();
    lemma_flatc_token_chars_b();
    lemma_flatc_token_indexes();
    assert(flatc_flag_tokens().contains("--conform"@)) by {
        assert(flatc_flag_tokens()[54] == "--conform"@);
    }
    assert(forall|l: Language| #[trigger] lang_flag(l) != "--conform"@);
    lemma_langs_contrib_zero(o.languages@, "--conform"@);
    lemma_flatc_lists_zero(o, "--conform"@);
    lemma_flatc_count(o, "--conform"@);
}

/// The occurrence count of this option's flag.
#[verifier::rlimit(100)]
proof fn lemma_flatc_tot_conform_includes(o: FlatCOptions)
    requires
        flatc_values_flag_free(o),
    ensures
        tok_count(flatc_opts_args(o), "--conform-includes"@) == o.conform_includes@.len(),
{
    lemma_flatc_token_lens_a();
    lemma_flatc_token_lens_b();
    lemma_flatc_token_lens_c();
    lemma_flatc_token_chars_a();
    lemma_flatc_token_chars_b();
    lemma_flatc_token_indexes();
    assert(flatc_flag_tokens().contains("--conform-includes"@)) by {
        assert(flatc_flag_tokens()[55] == "--conform-includes"@);
    }
    assert(forall|l: Language| #[trigger] lang_flag(l) != "--conform-includes"@);
    lemma_langs_contrib_zero(o.languages@, "--conform-includes"@);
    lemma_flatc_lists_zero(o, "--conform-includes"@);
    lemma_flatc_count(o, "--conform-includes"@);
}

/// The occurrence count of this option's flag.
#[verifier::rlimit(100)]
proof fn lemma_flatc_tot_filename_suffix(o: FlatCOptions)
    requires
        flatc_values_flag_free(o),
    ensures
        tok_count(flatc_opts_args(o), "--filename-suffix"@) == (if o.filename_suffix is Some {
            1nat
        } else {
            0nat
        }),
{
    lemma_flatc_token_lens_a();
    lemma_flatc_token_lens_b();
    lemma_flatc_token_lens_c();
    lemma_flatc_token_chars_a();
    lemma_flatc_token_chars_b();
    lemma_flatc_token_indexes();
    assert(flatc_flag_tokens().contains("--filename-suffix"@)) by {
        assert(flatc_flag_tokens()[56] == "--filename-suffix"@);
    }
    assert(forall|l: Language| #[trigger] lang_flag(l) != "--filename-suffix"@);
    lemma_langs_contrib_zero(o.languages@, "--filename-suffix"@);
    lemma_flatc_lists_zero(o, "--filename-suffix"@);
    lemma_flatc_count(o, "--filename-suffix"@);
}

/// The occurrence count of this option's flag.
#[verifier::rlimit(100)]
proof fn lemma_flatc_tot_filename_ext(o: FlatCOptions)
    requires
        flatc_values_flag_free(o),
    ensures
        tok_count(flatc_opts_args(o), "--filename-ext"@) == (if o.filename_ext is Some {
            1nat
        } else {
            0nat
        }),
{
    lemma_flatc_token_lens_a();
    lemma_flatc_token_lens_b();
    lemma_flatc_token_lens_c();
    lemma_flatc_token_chars_a();
    lemma_flatc_token_chars_b();
    lemma_flatc_token_indexes();
    assert(flatc_flag_tokens().contains("--filename-ext"@)) by {
        assert(flatc_flag_tokens()[57] == "--filename-ext"@);
    }
    assert(forall|l: Language| #[trigger] lang_flag(l) != "--filename-ext"@);
    lemma_langs_contrib_zero(o.languages@, "--filename-ext"@);
    lemma_flatc_lists_zero(o, "--filename-ext"@);
    lemma_flatc_count(o, "--filename-ext"@);
}

/// The occurrence count of this option's flag.
#[verifier::rlimit(100)]
proof fn lemma_flatc_tot_include_prefix(o: FlatCOptions)
    requires
        flatc_values_flag_free(o),
    ensures
        tok_count(flatc_opts_args(o), "--include-prefix"@) == (if o.include_prefix is Some {
            1nat
        } else {
            0nat
        }),
{
    lemma_flatc_token_lens_a();
    lemma_flatc_token_lens_b();
    lemma_flatc_token_lens_c();
    lemma_flatc_token_chars_a();
    lemma_flatc_token_chars_b();
    lemma_flatc_token_indexes();
    assert(flatc_flag_tokens().contains("--include-prefix"@)) by {
        assert(flatc_flag_tokens()[58] == "--include-prefix"@);
    }
    assert(forall|l: Language| #[trigger] lang_flag(l) != "--include-prefix"@);
    lemma_langs_contrib_zero(o.languages@, "--include-prefix"@);
    lemma_flatc_lists_zero(o, "--include-prefix"@);
    lemma_flatc_count(o, "--include-prefix"@);
}

/// The occurrence count of this option's flag.
#[verifier::rlimit(100)]
proof fn lemma_flatc_tot_keep_prefix(o: FlatCOptions)
    requires
        flatc_values_flag_free(o),
    ensures
        tok_count(flatc_opts_args(o), "--keep-prefix"@) == (if o.keep_prefix {
            1nat
        } else {
            0nat
        }),
{
    lemma_flatc_token_lens_a();
    lemma_flatc_token_lens_b();
    lemma_flatc_token_lens_c();
    lemma_flatc_token_chars_a();
    lemma_flatc_token_chars_b();
    lemma_flatc_token_indexes();
    assert(flatc_flag_tokens().contains("--keep-prefix"@)) by {
        assert(flatc_flag_tokens()[59] == "--keep-prefix"@);
    }
    assert(forall|l: Language| #[trigger] lang_flag(l) != "--keep-prefix"@);
    lemma_langs_contrib_zero(o.languages@, "--keep-prefix"@);
    lemma_flatc_lists_zero(o, "--keep-prefix"@);
    lemma_flatc_count(o, "--keep-prefix"@);
}

/// Flag-mapping totality for the binary-schema and conformance options: each flag occurs in the
/// option part of the argument list exactly as often as its field calls for
/// — as long as no populated value spells an option flag token.
pub proof fn lemma_flatc_bfbs_flag_totality(o: FlatCOptions)
    requires
        flatc_values_flag_free(o),
    ensures
        tok_count(flatc_opts_args(o), "--bfbs-filenames"@) == (if o.bfbs_filenames is Some {
            1nat
        } else {
            0nat
        }),
        tok_count(flatc_opts_args(o), "--bfbs-absolute-paths"@) == (if o.bfbs_absolute_paths {
            1nat
        } else {
            0nat
        }),
        tok_count(flatc_opts_args(o), "--bfbs-comments"@) == (if o.bfbs_comments {
            1nat
        } else {
            0nat
        }),
        tok_count(flatc_opts_args(o), "--bfbs-builtins"@) == (if o.bfbs_builtins {
            1nat
        } else {
            0nat
        }),
        tok_count(flatc_opts_args(o), "--bfbs-gen-embed"@) == (if o.bfbs_gen_embed {
            1nat
        } else {
            0nat
        }),
        tok_count(flatc_opts_args(o), "--conform"@) == (if o.conform is Some {
            1nat
        } else {
            0nat
        }),
        tok_count(flatc_opts_args(o), "--conform-includes"@) == o.conform_includes@.len(),
        tok_count(flatc_opts_args(o), "--filename-suffix"@) == (if o.filename_suffix is Some {
            1nat
        } else {
            0nat
        }),
        tok_count(flatc_opts_args(o), "--filename-ext"@) == (if o.filename_ext is Some {
            1nat
        } else {
            0nat
        }),
        tok_count(flatc_opts_args(o), "--include-prefix"@) == (if o.include_prefix is Some {
            1nat
        } else {
            0nat
        }),
        tok_count(flatc_opts_args(o), "--keep-prefix"@) == (if o.keep_prefix {
            1nat
        } else {
            0nat
        }),
{
    lemma_flatc_tot_bfbs_filenames(o);
    lemma_flatc_tot_bfbs_absolute_paths(o);
    lemma_flatc_tot_bfbs_comments(o);
    lemma_flatc_tot_bfbs_builtins(o);
    lemma_flatc_tot_bfbs_gen_embed(o);
    lemma_flatc_tot_conform(o);
    lemma_flatc_tot_conform_includes(o);
    lemma_flatc_tot_filename_suffix(o);
    lemma_flatc_tot_filename_ext(o);
    lemma_flatc_tot_include_prefix(o);
    lemma_flatc_tot_keep_prefix(o);
}

/// The occurrence count of this option's flag.
#[verifier::rlimit(100)]
proof fn lemma_flatc_tot_reflect_types(o: FlatCOptions)
    requires
        flatc_values_flag_free(o),
    ensures
        tok_count(flatc_opts_args(o), "--reflect-types"@) == (if o.reflect_types {
            1nat
        } else {
            0nat
        }),
{
    lemma_flatc_token_lens_a();
    lemma_flatc_token_lens_b();
    lemma_flatc_token_lens_c();
    lemma_flatc_token_chars_a();
    lemma_flatc_token_chars_b();
    lemma_flatc_token_indexes();
    assert(flatc_flag_tokens().contains("--reflect-types"@)) by {
        assert(flatc_flag_tokens()[60] == "--reflect-types"@);
    }
    assert(forall|l: Language| #[trigger] lang_flag(l) != "--reflect-types"@);
    lemma_langs_contrib_zero(o.languages@, "--reflect-types"@);
    lemma_flatc_lists_zero(o, "--reflect-types"@);
    lemma_flatc_count(o, "--reflect-types"@);
}

/// The occurrence count of this option's flag.
#[verifier::rlimit(100)]
proof fn lemma_flatc_tot_reflect_names(o: FlatCOptions)
    requires
        flatc_values_flag_free(o),
    ensures
        tok_count(flatc_opts_args(o), "--reflect-names"@) == (if o.reflect_names {
            1nat
        } else {
            0nat
        }),
{
    lemma_flatc_token_lens_a();
    lemma_flatc_token_lens_b();
    lemma_flatc_token_lens_c();
    lemma_flatc_token_chars_a();
    lemma_flatc_token_chars_b();
    lemma_flatc_token_indexes();
    assert(flatc_flag_tokens().contains("--reflect-names"@)) by {
        assert(flatc_flag_tokens()[61] == "--reflect-names"@);
    }
    assert(forall|l: Language| #[trigger] lang_flag(l) != "--reflect-names"@);
    lemma_langs_contrib_zero(o.languages@, "--reflect-names"@);
    lemma_flatc_lists_zero(o, "--reflect-names"@);
    lemma_flatc_count(o, "--reflect-names"@);
}

/// The occurrence count of this option's flag.
#[verifier::rlimit(100)]
proof fn lemma_flatc_tot_rust_serialize(o: FlatCOptions)
    requires
        flatc_values_flag_free(o),
    ensures
        tok_count(flatc_opts_args(o), "--rust-serialize"@) == (if o.rust_serialize {
            1nat
        } else {
            0nat
        }),
{
    lemma_flatc_token_lens_a();
    lemma_flatc_token_lens_b();
    lemma_flatc_token_lens_c();
    lemma_flatc_token_chars_a();
    lemma_flatc_token_chars_b();
    lemma_flatc_token_indexes();
    assert(flatc_flag_tokens().contains("--rust-serialize"@)) by {
        assert(flatc_flag_tokens()[62] == "--rust-serialize"@);
    }
    assert(forall|l: Language| #[trigger] lang_flag(l) != "--rust-serialize"@);
    lemma_langs_contrib_zero(o.languages@, "--rust-serialize"@);
    lemma_flatc_lists_zero(o, "--rust-serialize"@);
    lemma_flatc_count(o, "--rust-serialize"@);
}

/// The occurrence count of this option's flag.
#[verifier::rlimit(100)]
proof fn lemma_flatc_tot_rust_module_root_file(o: FlatCOptions)
    requires
        flatc_values_flag_free(o),
    ensures
        tok_count(flatc_opts_args(o), "--rust-module-root-file"@) == (if o.rust_module_root_file {
            1nat
        } else {
            0nat
        }),
{
    lemma_flatc_token_lens_a();
    lemma_flatc_token_lens_b();
    lemma_flatc_token_lens_c();
    lemma_flatc_token_chars_a();
    lemma_flatc_token_chars_b();
    lemma_flatc_token_indexes();
    assert(flatc_flag_tokens().contains("--rust-module-root-file"@)) by {
        assert(flatc_flag_tokens()[63] == "--rust-module-root-file"@);
    }
    assert(forall|l: Language| #[trigger] lang_flag(l) != "--rust-module-root-file"@);
    lemma_langs_contrib_zero(o.languages@, "--rust-module-root-file"@);
    lemma_flatc_lists_zero(o, "--rust-module-root-file"@);
    lemma_flatc_count(o, "--rust-module-root-file"@);
}

/// The occurrence count of this option's flag.
#[verifier::rlimit(100)]
proof fn lemma_flatc_tot_root_type(o: FlatCOptions)
    requires
        flatc_values_flag_free(o),
    ensures
        tok_count(flatc_opts_args(o), "--root-type"@) == (if o.root_type is Some {
            1nat
        } else {
            0nat
        }),
{
    lemma_flatc_token_lens_a();
    lemma_flatc_token_lens_b();
    lemma_flatc_token_lens_c();
    lemma_flatc_token_chars_a();
    lemma_flatc_token_chars_b();
    lemma_flatc_token_indexes();
    assert(flatc_flag_tokens().contains("--root-type"@)) by {
        assert(flatc_flag_tokens()[64] == "--root-type"@);
    }
    assert(forall|l: Language| #[trigger] lang_flag(l) != "--root-type"@);
    lemma_langs_contrib_zero(o.languages@, "--root-type"@);
    lemma_flatc_lists_zero(o, "--root-type"@);
    lemma_flatc_count(o, "--root-type"@);
}

/// The occurrence count of this option's flag.
#[verifier::rlimit(100)]
proof fn lemma_flatc_tot_require_explicit_ids(o: FlatCOptions)
    requires
        flatc_values_flag_free(o),
    ensures
        tok_count(flatc_opts_args(o), "--require-explicit-ids"@) == (if o.require_explicit_ids {
            1nat
        } else {
            0nat
        }),
{
    lemma_flatc_token_lens_a();
    lemma_flatc_token_lens_b();
    lemma_flatc_token_lens_c();
    lemma_flatc_token_chars_a();
    lemma_flatc_token_chars_b();
    lemma_flatc_token_indexes();
    assert(flatc_flag_tokens().contains("--require-explicit-ids"@)) by {
        assert(flatc_flag_tokens()[65] == "--require-explicit-ids"@);
    }
    assert(forall|l: Language| #[trigger] lang_flag(l) != "--require-explicit-ids"@);
    lemma_langs_contrib_zero(o.languages@, "--require-explicit-ids"@);
    lemma_flatc_lists_zero(o, "--require-explicit-ids"@);
    lemma_flatc_count(o, "--require-explicit-ids"@);
}

/// The occurrence count of this option's flag.
#[verifier::rlimit(100)]
proof fn lemma_flatc_tot_force_defaults(o: FlatCOptions)
    requires
        flatc_values_flag_free(o),
    ensures
        tok_count(flatc_opts_args(o), "--force-defaults"@) == (if o.force_defaults {
            1nat
        } else {
            0nat
        }),
{
    lemma_flatc_token_lens_a();
    lemma_flatc_token_lens_b();
    lemma_flatc_token_lens_c();
    lemma_flatc_token_chars_a();
    lemma_flatc_token_chars_b();
    lemma_flatc_token_indexes();
    assert(flatc_flag_tokens().contains("--force-defaults"@)) by {
        assert(flatc_flag_tokens()[66] == "--force-defaults"@);
    }
    assert(forall|l: Language| #[trigger] lang_flag(l) != "--force-defaults"@);
    lemma_langs_contrib_zero(o.languages@, "--force-defaults"@);
    lemma_flatc_lists_zero(o, "--force-defaults"@);
    lemma_flatc_count(o, "--force-defaults"@);
}

/// The occurrence count of this option's flag.
#[verifier::rlimit(100)]
proof fn lemma_flatc_tot_force_empty(o: FlatCOptions)
    requires
        flatc_values_flag_free(o),
    ensures
        tok_count(flatc_opts_args(o), "--force-empty"@) == (if o.force_empty {
            1nat
        } else {
            0nat
        }),
{
    lemma_flatc_token_lens_a();
    lemma_flatc_token_lens_b();
    lemma_flatc_token_lens_c();
    lemma_flatc_token_chars_a();
    lemma_flatc_token_chars_b();
    lemma_flatc_token_indexes();
    assert(flatc_flag_tokens().contains("--force-empty"@)) by {
        assert(flatc_flag_tokens()[67] == "--force-empty"@);
    }
    assert(forall|l: Language| #[trigger] lang_flag(l) != "--force-empty"@);
    lemma_langs_contrib_zero(o.languages@, "--force-empty"@);
    lemma_flatc_lists_zero(o, "--force-empty"@);
    lemma_flatc_count(o, "--force-empty"@);
}

/// The occurrence count of this option's flag.
#[verifier::rlimit(100)]
proof fn lemma_flatc_tot_force_empty_vectors(o: FlatCOptions)
    requires
        flatc_values_flag_free(o),
    ensures
        tok_count(flatc_opts_args(o), "--force-empty-vectors"@) == (if o.force_empty_vectors {
            1nat
        } else {
            0nat
        }),
{
    lemma_flatc_token_lens_a();
    lemma_flatc_token_lens_b();
    lemma_flatc_token_lens_c();
    lemma_flatc_token_chars_a();
    lemma_flatc_token_chars_b();
    lemma_flatc_token_indexes();
    assert(flatc_flag_tokens().contains("--force-empty-vectors"@)) by {
        assert(flatc_flag_tokens()[68] == "--force-empty-vectors"@);
    }
    assert(forall|l: Language| #[trigger] lang_flag(l) != "--force-empty-vectors"@);
    lemma_langs_contrib_zero(o.languages@, "--force-empty-vectors"@);
    lemma_flatc_lists_zero(o, "--force-empty-vectors"@);
    lemma_flatc_count(o, "--force-empty-vectors"@);
}

/// The occurrence count of this option's flag.
#[verifier::rlimit(100)]
proof fn lemma_flatc_tot_flexbuffers(o: FlatCOptions)
    requires
        flatc_values_flag_free(o),
    ensures
        tok_count(flatc_opts_args(o), "--flexbuffers"@) == (if o.flexbuffers {
            1nat
        } else {
            0nat
        }),
{
    lemma_flatc_token_lens_a();
    lemma_flatc_token_lens_b();
    lemma_flatc_token_lens_c();
    lemma_flatc_token_chars_a();
    lemma_flatc_token_chars_b();
    lemma_flatc_token_indexes();
    assert(flatc_flag_tokens().contains("--flexbuffers"@)) by {
        assert(flatc_flag_tokens()[69] == "--flexbuffers"@);
    }
    assert(forall|l: Language| #[trigger] lang_flag(l) != "--flexbuffers"@);
    lemma_langs_contrib_zero(o.languages@, "--flexbuffers"@);
    lemma_flatc_lists_zero(o, "--flexbuffers"@);
    lemma_flatc_count(o, "--flexbuffers"@);
}

/// The occurrence count of this option's flag.
#[verifier::rlimit(100)]
proof fn lemma_flatc_tot_no_warnings(o: FlatCOptions)
    requires
        flatc_values_flag_free(o),
    ensures
        tok_count(flatc_opts_args(o), "--no-warnings"@) == (if o.no_warnings {
            1nat
        } else {
            0nat
        }),
{
    lemma_flatc_token_lens_a();
    lemma_flatc_token_lens_b();
    lemma_flatc_token_lens_c();
    lemma_flatc_token_chars_a();
    lemma_flatc_token_chars_b();
    lemma_flatc_token_indexes();
    assert(flatc_flag_tokens().contains("--no-warnings"@)) by {
        assert(flatc_flag_tokens()[70] == "--no-warnings"@);
    }
    assert(forall|l: Language| #[trigger] lang_flag(l) != "--no-warnings"@);
    lemma_langs_contrib_zero(o.languages@, "--no-warnings"@);
    lemma_flatc_lists_zero(o, "--no-warnings"@);
    lemma_flatc_count(o, "--no-warnings"@);
}

/// The occurrence count of this option's flag.
#[verifier::rlimit(100)]
proof fn lemma_flatc_tot_warnings_as_errors(o: FlatCOptions)
    requires
        flatc_values_flag_free(o),
    ensures
        tok_count(flatc_opts_args(o), "--warnings-as-errors"@) == (if o.warnings_as_errors {
            1nat
        } else {
            0nat
        }),
{
    lemma_flatc_token_lens_a();
    lemma_flatc_token_lens_b();
    lemma_flatc_token_lens_c();
    lemma_flatc_token_chars_a();
    lemma_flatc_token_chars_b();
    lemma_flatc_token_indexes();
    assert(flatc_flag_tokens().contains("--warnings-as-errors"@)) by {
        assert(flatc_flag_tokens()[71] == "--warnings-as-errors"@);
    }
    assert(forall|l: Language| #[trigger] lang_flag(l) != "--warnings-as-errors"@);
    lemma_langs_contrib_zero(o.languages@, "--warnings-as-errors"@);
    lemma_flatc_lists_zero(o, "--warnings-as-errors"@);
    lemma_flatc_count(o, "--warnings-as-errors"@);
}

/// Flag-mapping totality for the reflection, Rust and strictness options: each flag occurs in the
/// option part of the argument list exactly as often as its field calls for
/// — as long as no populated value spells an option flag token.
pub proof fn lemma_flatc_strict_flag_totality(o: FlatCOptions)
    requires
        flatc_values_flag_free(o),
    ensures
        tok_count(flatc_opts_args(o), "--reflect-types"@) == (if o.reflect_types {
            1nat
        } else {
            0nat
        }),
        tok_count(flatc_opts_args(o), "--reflect-names"@) == (if o.reflect_names {
            1nat
        } else {
            0nat
        }),
        tok_count(flatc_opts_args(o), "--rust-serialize"@) == (if o.rust_serialize {
            1nat
        } else {
            0nat
        }),
        tok_count(flatc_opts_args(o), "--rust-module-root-file"@) == (if o.rust_module_root_file {
            1nat
        } else {
            0nat
        }),
        tok_count(flatc_opts_args(o), "--root-type"@) == (if o.root_type is Some {
            1nat
        } else {
            0nat
        }),
        tok_count(flatc_opts_args(o), "--require-explicit-ids"@) == (if o.require_explicit_ids {
            1nat
        } else {
            0nat
        }),
        tok_count(flatc_opts_args(o), "--force-defaults"@) == (if o.force_defaults {
            1nat
        } else {
            0nat
        }),
        tok_count(flatc_opts_args(o), "--force-empty"@) == (if o.force_empty {
            1nat
        } else {
            0nat
        }),
        tok_count(flatc_opts_args(o), "--force-empty-vectors"@) == (if o.force_empty_vectors {
            1nat
        } else {
            0nat
        }),
        tok_count(flatc_opts_args(o), "--flexbuffers"@) == (if o.flexbuffers {
            1nat
        } else {
            0nat
        }),
        tok_count(flatc_opts_args(o), "--no-warnings"@) == (if o.no_warnings {
            1nat
        } else {
            0nat
        }),
        tok_count(flatc_opts_args(o), "--warnings-as-errors"@) == (if o.warnings_as_errors {
            1nat
        } else {
            0nat
        }),
{
    lemma_flatc_tot_reflect_types(o);
    lemma_flatc_tot_reflect_names(o);
    lemma_flatc_tot_rust_serialize(o);
    lemma_flatc_tot_rust_module_root_file(o);
    lemma_flatc_tot_root_type(o);
    lemma_flatc_tot_require_explicit_ids(o);
    lemma_flatc_tot_force_defaults(o);
    lemma_flatc_tot_force_empty(o);
    lemma_flatc_tot_force_empty_vectors(o);
    lemma_flatc_tot_flexbuffers(o);
    lemma_flatc_tot_no_warnings(o);
    lemma_flatc_tot_warnings_as_errors(o);
}

/// The occurrence count of this option's flag.
#[verifier::rlimit(100)]
proof fn lemma_flatc_tot_cs_global_alias(o: FlatCOptions)
    requires
        flatc_values_flag_free(o),
    ensures
        tok_count(flatc_opts_args(o), "--cs-global-alias"@) == (if o.cs_global_alias {
            1nat
        } else {
            0nat
        }),
{
    lemma_flatc_token_lens_a();
    lemma_flatc_token_lens_b();
    lemma_flatc_token_lens_c();
    lemma_flatc_token_chars_a();
    lemma_flatc_token_chars_b();
    lemma_flatc_token_indexes();
    assert(flatc_flag_tokens().contains("--cs-global-alias"@)) by {
        assert(flatc_flag_tokens()[72] == "--cs-global-alias"@);
    }
    assert(forall|l: Language| #[trigger] lang_flag(l) != "--cs-global-alias"@);
    lemma_langs_contrib_zero(o.languages@, "--cs-global-alias"@);
    lemma_flatc_lists_zero(o, "--cs-global-alias"@);
    lemma_flatc_count(o, "--cs-global-alias"@);
}

/// The occurrence count of this option's flag.
#[verifier::rlimit(100)]
proof fn lemma_flatc_tot_cs_gen_json_serializer(o: FlatCOptions)
    requires
        flatc_values_flag_free(o),
    ensures
        tok_count(flatc_opts_args(o), "--cs-gen-json-serializer"@) == (if o.cs_gen_json_serializer {
            1nat
        } else {
            0nat
        }),
{
    lemma_flatc_token_lens_a();
    lemma_flatc_token_lens_b();
    lemma_flatc_token_lens_c();
    lemma_flatc_token_chars_a();
    lemma_flatc_token_chars_b();
    lemma_flatc_token_indexes();
    assert(flatc_flag_tokens().contains("--cs-gen-json-serializer"@)) by {
        assert(flatc_flag_tokens()[73] == "--cs-gen-json-serializer"@);
    }
    assert(forall|l: Language| #[trigger] lang_flag(l) != "--cs-gen-json-serializer"@);
    lemma_langs_contrib_zero(o.languages@, "--cs-gen-json-serializer"@);
    lemma_flatc_lists_zero(o, "--cs-gen-json-serializer"@);
    lemma_flatc_count(o, "--cs-gen-json-serializer"@);
}

/// The occurrence count of this option's flag.
#[verifier::rlimit(100)]
proof fn lemma_flatc_tot_json_nested_bytes(o: FlatCOptions)
    requires
        flatc_values_flag_free(o),
    ensures
        tok_count(flatc_opts_args(o), "--json-nested-bytes"@) == (if o.json_nested_bytes {
            1nat
        } else {
            0nat
        }),
{
    lemma_flatc_token_lens_a();
    lemma_flatc_token_lens_b();
    lemma_flatc_token_lens_c();
    lemma_flatc_token_chars_a();
    lemma_flatc_token_chars_b();
    lemma_flatc_token_indexes();
    assert(flatc_flag_tokens().contains("--json-nested-bytes"@)) by {
        assert(flatc_flag_tokens()[74] == "--json-nested-bytes"@);
    }
    assert(forall|l: Language| #[trigger] lang_flag(l) != "--json-nested-bytes"@);
    lemma_langs_contrib_zero(o.languages@, "--json-nested-bytes"@);
    lemma_flatc_lists_zero(o, "--json-nested-bytes"@);
    lemma_flatc_count(o, "--json-nested-bytes"@);
}

/// The occurrence count of this option's flag.
#[verifier::rlimit(100)]
proof fn lemma_flatc_tot_ts_flat_files(o: FlatCOptions)
    requires
        flatc_values_flag_free(o),
    ensures
        tok_count(flatc_opts_args(o), "--ts-flat-files"@) == (if o.ts_flat_files {
            1nat
        } else {
            0nat
        }),
{
    lemma_flatc_token_lens_a();
    lemma_flatc_token_lens_b();
    lemma_flatc_token_lens_c();
    lemma_flatc_token_chars_a();
    lemma_flatc_token_chars_b();
    lemma_flatc_token_indexes();
    assert(flatc_flag_tokens().contains("--ts-flat-files"@)) by {
        assert(flatc_flag_tokens()[75] == "--ts-flat-files"@);
    }
    assert(forall|l: Language| #[trigger] lang_flag(l) != "--ts-flat-files"@);
    lemma_langs_contrib_zero(o.languages@, "--ts-flat-files"@);
    lemma_flatc_lists_zero(o, "--ts-flat-files"@);
    lemma_flatc_count(o, "--ts-flat-files"@);
}

/// The occurrence count of this option's flag.
#[verifier::rlimit(100)]
proof fn lemma_flatc_tot_ts_entry_points(o: FlatCOptions)
    requires
        flatc_values_flag_free(o),
    ensures
        tok_count(flatc_opts_args(o), "--ts-entry-points"@) == (if o.ts_entry_points {
            1nat
        } else {
            0nat
        }),
{
    lemma_flatc_token_lens_a();
    lemma_flatc_token_lens_b();
    lemma_flatc_token_lens_c();
    lemma_flatc_token_chars_a();
    lemma_flatc_token_chars_b();
    lemma_flatc_token_indexes();
    assert(flatc_flag_tokens().contains("--ts-entry-points"@)) by {
        assert(flatc_flag_tokens()[76] == "--ts-entry-points"@);
    }
    assert(forall|l: Language| #[trigger] lang_flag(l) != "--ts-entry-points"@);
    lemma_langs_contrib_zero(o.languages@, "--ts-entry-points"@);
    lemma_flatc_lists_zero(o, "--ts-entry-points"@);
    lemma_flatc_count(o, "--ts-entry-points"@);
}

/// The occurrence count of this option's flag.
#[verifier::rlimit(100)]
proof fn lemma_flatc_tot_annotate_sparse_vectors(o: FlatCOptions)
    requires
        flatc_values_flag_free(o),
    ensures
        tok_count(flatc_opts_args(o), "--annotate-sparse-vectors"@) == (if o.annotate_sparse_vectors {
            1nat
        } else {
            0nat
        }),
{
    lemma_flatc_token_lens_a();
    lemma_flatc_token_lens_b();
    lemma_flatc_token_lens_c();
    lemma_flatc_token_chars_a();
    lemma_flatc_token_chars_b();
    lemma_flatc_token_indexes();
    assert(flatc_flag_tokens().contains("--annotate-sparse-vectors"@)) by {
        assert(flatc_flag_tokens()[77] == "--annotate-sparse-vectors"@);
    }
    assert(forall|l: Language| #[trigger] lang_flag(l) != "--annotate-sparse-vectors"@);
    lemma_langs_contrib_zero(o.languages@, "--annotate-sparse-vectors"@);
    lemma_flatc_lists_zero(o, "--annotate-sparse-vectors"@);
    lemma_flatc_count(o, "--annotate-sparse-vectors"@);
}

/// The occurrence count of this option's flag.
#[verifier::rlimit(100)]
proof fn lemma_flatc_tot_annotate(o: FlatCOptions)
    requires
        flatc_values_flag_free(o),
    ensures
        tok_count(flatc_opts_args(o), "--annotate"@) == (if o.annotate is Some {
            1nat
        } else {
            0nat
        }),
{
    lemma_flatc_token_lens_a();
    lemma_flatc_token_lens_b();
    lemma_flatc_token_lens_c();
    lemma_flatc_token_chars_a();
    lemma_flatc_token_chars_b();
    lemma_flatc_token_indexes();
    assert(flatc_flag_tokens().contains("--annotate"@)) by {
        assert(flatc_flag_tokens()[78] == "--annotate"@);
    }
    assert(forall|l: Language| #[trigger] lang_flag(l) != "--annotate"@);
    lemma_langs_contrib_zero(o.languages@, "--annotate"@);
    lemma_flatc_lists_zero(o, "--annotate"@);
    lemma_flatc_count(o, "--annotate"@);
}

/// The occurrence count of this option's flag.
#[verifier::rlimit(100)]
proof fn lemma_flatc_tot_no_leak_private_annotation(o: FlatCOptions)
    requires
        flatc_values_flag_free(o),
    ensures
        tok_count(flatc_opts_args(o), "--no-leak-private-annotation"@) == (if o.no_leak_private_annotation {
            1nat
        } else {
            0nat
        }),
{
    lemma_flatc_token_lens_a();
    lemma_flatc_token_lens_b();
    lemma_flatc_token_lens_c();
    lemma_flatc_token_chars_a();
    lemma_flatc_token_chars_b();
    lemma_flatc_token_indexes();
    assert(flatc_flag_tokens().contains("--no-leak-private-annotation"@)) by {
        assert(flatc_flag_tokens()[79] == "--no-leak-private-annotation"@);
    }
    assert(forall|l: Language| #[trigger] lang_flag(l) != "--no-leak-private-annotation"@);
    lemma_langs_contrib_zero(o.languages@, "--no-leak-private-annotation"@);
    lemma_flatc_lists_zero(o, "--no-leak-private-annotation"@);
    lemma_flatc_count(o, "--no-leak-private-annotation"@);
}

/// The occurrence count of this option's flag.
#[verifier::rlimit(100)]
proof fn lemma_flatc_tot_python_no_type_prefix_suffix(o: FlatCOptions)
    requires
        flatc_values_flag_free(o),
    ensures
        tok_count(flatc_opts_args(o), "--python-no-type-prefix-suffix"@) == (if o.python_no_type_prefix_suffix {
            1nat
        } else {
            0nat
        }),
{
    lemma_flatc_token_lens_a();
    lemma_flatc_token_lens_b();
    lemma_flatc_token_lens_c();
    lemma_flatc_token_chars_a();
    lemma_flatc_token_chars_b();
    lemma_flatc_token_indexes();
    assert(flatc_flag_tokens().contains("--python-no-type-prefix-suffix"@)) by {
        assert(flatc_flag_tokens()[80] == "--python-no-type-prefix-suffix"@);
    }
    assert(forall|l: Language| #[trigger] lang_flag(l) != "--python-no-type-prefix-suffix"@);
    lemma_langs_contrib_zero(o.languages@, "--python-no-type-prefix-suffix"@);
    lemma_flatc_lists_zero(o, "--python-no-type-prefix-suffix"@);
    lemma_flatc_count(o, "--python-no-type-prefix-suffix"@);
}

/// The occurrence count of this option's flag.
#[verifier::rlimit(100)]
proof fn lemma_flatc_tot_python_typing(o: FlatCOptions)
    requires
        flatc_values_flag_free(o),
    ensures
        tok_count(flatc_opts_args(o), "--python-typing"@) == (if o.python_typing {
            1nat
        } else {
            0nat
        }),
{
    lemma_flatc_token_lens_a();
    lemma_flatc_token_lens_b();
    lemma_flatc_token_lens_c();
    lemma_flatc_token_chars_a();
    lemma_flatc_token_chars_b();
    lemma_flatc_token_indexes();
    assert(flatc_flag_tokens().contains("--python-typing"@)) by {
        assert(flatc_flag_tokens()[81] == "--python-typing"@);
    }
    assert(forall|l: Language| #[trigger] lang_flag(l) != "--python-typing"@);
    lemma_langs_contrib_zero(o.languages@, "--python-typing"@);
    lemma_flatc_lists_zero(o, "--python-typing"@);
    lemma_flatc_count(o, "--python-typing"@);
}

/// The occurrence count of this option's flag.
#[verifier::rlimit(100)]
proof fn lemma_flatc_tot_python_version(o: FlatCOptions)
    requires
        flatc_values_flag_free(o),
    ensures
        tok_count(flatc_opts_args(o), "--python-version"@) == (if o.python_version is Some {
            1nat
        } else {
            0nat
        }),
{
    lemma_flatc_token_lens_a();
    lemma_flatc_token_lens_b();
    lemma_flatc_token_lens_c();
    lemma_flatc_token_chars_a();
    lemma_flatc_token_chars_b();
    lemma_flatc_token_indexes();
    assert(flatc_flag_tokens().contains("--python-version"@)) by {
        assert(flatc_flag_tokens()[82] == "--python-version"@);
    }
    assert(forall|l: Language| #[trigger] lang_flag(l) != "--python-version"@);
    lemma_langs_contrib_zero(o.languages@, "--python-version"@);
    lemma_flatc_lists_zero(o, "--python-version"@);
    lemma_flatc_count(o, "--python-version"@);
}

/// The occurrence count of this option's flag.
#[verifier::rlimit(100)]
proof fn lemma_flatc_tot_python_gen_numpy(o: FlatCOptions)
    requires
        flatc_values_flag_free(o),
    ensures
        tok_count(flatc_opts_args(o), "--python-gen-numpy"@) == (if o.python_gen_numpy {
            1nat
        } else {
            0nat
        }),
{
    lemma_flatc_token_lens_a();
    lemma_flatc_token_lens_b();
    lemma_flatc_token_lens_c();
    lemma_flatc_token_chars_a();
    lemma_flatc_token_chars_b();
    lemma_flatc_token_indexes();
    assert(flatc_flag_tokens().contains("--python-gen-numpy"@)) by {
        assert(flatc_flag_tokens()[83] == "--python-gen-numpy"@);
    }
    assert(forall|l: Language| #[trigger] lang_flag(l) != "--python-gen-numpy"@);
    lemma_langs_contrib_zero(o.languages@, "--python-gen-numpy"@);
    lemma_flatc_lists_zero(o, "--python-gen-numpy"@);
    lemma_flatc_count(o, "--python-gen-numpy"@);
}

/// The occurrence count of this option's flag.
#[verifier::rlimit(100)]
proof fn lemma_flatc_tot_ts_omit_entrypoint(o: FlatCOptions)
    requires
        flatc_values_flag_free(o),
    ensures
        tok_count(flatc_opts_args(o), "--ts-omit-entrypoint"@) == (if o.ts_omit_entrypoint {
            1nat
        } else {
            0nat
        }),
{
    lemma_flatc_token_lens_a();
    lemma_flatc_token_lens_b();
    lemma_flatc_token_lens_c();
    lemma_flatc_token_chars_a();
    lemma_flatc_token_chars_b();
    lemma_flatc_token_indexes();
    assert(flatc_flag_tokens().contains("--ts-omit-entrypoint"@)) by {
        assert(flatc_flag_tokens()[84] == "--ts-omit-entrypoint"@);
    }
    assert(forall|l: Language| #[trigger] lang_flag(l) != "--ts-omit-entrypoint"@);
    lemma_langs_contrib_zero(o.languages@, "--ts-omit-entrypoint"@);
    lemma_flatc_lists_zero(o, "--ts-omit-entrypoint"@);
    lemma_flatc_count(o, "--ts-omit-entrypoint"@);
}

/// The occurrence count of this option's flag.
#[verifier::rlimit(100)]
proof fn lemma_flatc_tot_file_names_only(o: FlatCOptions)
    requires
        flatc_values_flag_free(o),
    ensures
        tok_count(flatc_opts_args(o), "--file-names-only"@) == (if o.file_names_only {
            1nat
        } else {
            0nat
        }),
{
    lemma_flatc_token_lens_a();
    lemma_flatc_token_lens_b();
    lemma_flatc_token_lens_c();
    lemma_flatc_token_chars_a();
    lemma_flatc_token_chars_b();
    lemma_flatc_token_indexes();
    assert(flatc_flag_tokens().contains("--file-names-only"@)) by {
        assert(flatc_flag_tokens()[85] == "--file-names-only"@);
    }
    assert(forall|l: Language| #[trigger] lang_flag(l) != "--file-names-only"@);
    lemma_langs_contrib_zero(o.languages@, "--file-names-only"@);
    lemma_flatc_lists_zero(o, "--file-names-only"@);
    lemma_flatc_count(o, "--file-names-only"@);
}

/// Flag-mapping totality for the C#, TypeScript, annotation and Python options: each flag occurs in the
/// option part of the argument list exactly as often as its field calls for
/// — as long as no populated value spells an option flag token.
pub proof fn lemma_flatc_misc_flag_totality(o: FlatCOptions)
    requires
        flatc_values_flag_free(o),
    ensures
        tok_count(flatc_opts_args(o), "--cs-global-alias"@) == (if o.cs_global_alias {
            1nat
        } else {
            0nat
        }),
        tok_count(flatc_opts_args(o), "--cs-gen-json-serializer"@) == (if o.cs_gen_json_serializer {
            1nat
        } else {
            0nat
        }),
        tok_count(flatc_opts_args(o), "--json-nested-bytes"@) == (if o.json_nested_bytes {
            1nat
        } else {
            0nat
        }),
        tok_count(flatc_opts_args(o), "--ts-flat-files"@) == (if o.ts_flat_files {
            1nat
        } else {
            0nat
        }),
        tok_count(flatc_opts_args(o), "--ts-entry-points"@) == (if o.ts_entry_points {
            1nat
        } else {
            0nat
        }),
        tok_count(flatc_opts_args(o), "--annotate-sparse-vectors"@) == (if o.annotate_sparse_vectors {
            1nat
        } else {
            0nat
        }),
        tok_count(flatc_opts_args(o), "--annotate"@) == (if o.annotate is Some {
            1nat
        } else {
            0nat
        }),
        tok_count(flatc_opts_args(o), "--no-leak-private-annotation"@) == (if o.no_leak_private_annotation {
            1nat
        } else {
            0nat
        }),
        tok_count(flatc_opts_args(o), "--python-no-type-prefix-suffix"@) == (if o.python_no_type_prefix_suffix {
            1nat
        } else {
            0nat
        }),
        tok_count(flatc_opts_args(o), "--python-typing"@) == (if o.python_typing {
            1nat
        } else {
            0nat
        }),
        tok_count(flatc_opts_args(o), "--python-version"@) == (if o.python_version is Some {
            1nat
        } else {
            0nat
        }),
        tok_count(flatc_opts_args(o), "--python-gen-numpy"@) == (if o.python_gen_numpy {
            1nat
        } else {
            0nat
        }),
        tok_count(flatc_opts_args(o), "--ts-omit-entrypoint"@) == (if o.ts_omit_entrypoint {
            1nat
        } else {
            0nat
        }),
        tok_count(flatc_opts_args(o), "--file-names-only"@) == (if o.file_names_only {
            1nat
        } else {
            0nat
        }),
{
    lemma_flatc_tot_cs_global_alias(o);
    lemma_flatc_tot_cs_gen_json_serializer(o);
    lemma_flatc_tot_json_nested_bytes(o);
    lemma_flatc_tot_ts_flat_files(o);
    lemma_flatc_tot_ts_entry_points(o);
    lemma_flatc_tot_annotate_sparse_vectors(o);
    lemma_flatc_tot_annotate(o);
    lemma_flatc_tot_no_leak_private_annotation(o);
    lemma_flatc_tot_python_no_type_prefix_suffix(o);
    lemma_flatc_tot_python_typing(o);
    lemma_flatc_tot_python_version(o);
    lemma_flatc_tot_python_gen_numpy(o);
    lemma_flatc_tot_ts_omit_entrypoint(o);
    lemma_flatc_tot_file_names_only(o);
}

/// The occurrence count of this option's flag.
#[verifier::rlimit(100)]
proof fn lemma_flatc_tot_grpc_filename_suffix(o: FlatCOptions)
    requires
        flatc_values_flag_free(o),
    ensures
        tok_count(flatc_opts_args(o), "--grpc-filename-suffix"@) == (if o.grpc_filename_suffix is Some {
            1nat
        } else {
            0nat
        }),
{
    lemma_flatc_token_lens_a();
    lemma_flatc_token_lens_b();
    lemma_flatc_token_lens_c();
    lemma_flatc_token_chars_a();
    lemma_flatc_token_chars_b();
    lemma_flatc_token_indexes();
    assert(flatc_flag_tokens().contains("--grpc-filename-suffix"@)) by {
        assert(flatc_flag_tokens()[86] == "--grpc-filename-suffix"@);
    }
    assert(forall|l: Language| #[trigger] lang_flag(l) != "--grpc-filename-suffix"@);
    lemma_langs_contrib_zero(o.languages@, "--grpc-filename-suffix"@);
    lemma_flatc_lists_zero(o, "--grpc-filename-suffix"@);
    lemma_flatc_count(o, "--grpc-filename-suffix"@);
}

/// The occurrence count of this option's flag.
#[verifier::rlimit(100)]
proof fn lemma_flatc_tot_grpc_additional_header(o: FlatCOptions)
    requires
        flatc_values_flag_free(o),
    ensures
        tok_count(flatc_opts_args(o), "--grpc-additional-header"@) == o.grpc_additional_header@.len(),
{
    lemma_flatc_token_lens_a();
    lemma_flatc_token_lens_b();
    lemma_flatc_token_lens_c();
    lemma_flatc_token_chars_a();
    lemma_flatc_token_chars_b();
    lemma_flatc_token_indexes();
    assert(flatc_flag_tokens().contains("--grpc-additional-header"@)) by {
        assert(flatc_flag_tokens()[87] == "--grpc-additional-header"@);
    }
    assert(forall|l: Language| #[trigger] lang_flag(l) != "--grpc-additional-header"@);
    lemma_langs_contrib_zero(o.languages@, "--grpc-additional-header"@);
    lemma_flatc_lists_zero(o, "--grpc-additional-header"@);
    lemma_flatc_count(o, "--grpc-additional-header"@);
}

/// The occurrence count of this option's flag.
#[verifier::rlimit(100)]
proof fn lemma_flatc_tot_grpc_search_path(o: FlatCOptions)
    requires
        flatc_values_flag_free(o),
    ensures
        tok_count(flatc_opts_args(o), "--grpc-search-path"@) == (if o.grpc_search_path is Some {
            1nat
        } else {
            0nat
        }),
{
    lemma_flatc_token_lens_a();
    lemma_flatc_token_lens_b();
    lemma_flatc_token_lens_c();
    lemma_flatc_token_chars_a();
    lemma_flatc_token_chars_b();
    lemma_flatc_token_indexes();
    assert(flatc_flag_tokens().contains("--grpc-search-path"@)) by {
        assert(flatc_flag_tokens()[88] == "--grpc-search-path"@);
    }
    assert(forall|l: Language| #[trigger] lang_flag(l) != "--grpc-search-path"@);
    lemma_langs_contrib_zero(o.languages@, "--grpc-search-path"@);
    lemma_flatc_lists_zero(o, "--grpc-search-path"@);
    lemma_flatc_count(o, "--grpc-search-path"@);
}

/// The occurrence count of this option's flag.
#[verifier::rlimit(100)]
proof fn lemma_flatc_tot_grpc_use_system_headers(o: FlatCOptions)
    requires
        flatc_values_flag_free(o),
    ensures
        tok_count(flatc_opts_args(o), "--grpc-use-system-headers"@) == (if o.grpc_use_system_headers {
            1nat
        } else {
            0nat
        }),
{
    lemma_flatc_token_lens_a();
    lemma_flatc_token_lens_b();
    lemma_flatc_token_lens_c();
    lemma_flatc_token_chars_a();
    lemma_flatc_token_chars_b();
    lemma_flatc_token_indexes();
    assert(flatc_flag_tokens().contains("--grpc-use-system-headers"@)) by {
        assert(flatc_flag_tokens()[89] == "--grpc-use-system-headers"@);
    }
    assert(forall|l: Language| #[trigger] lang_flag(l) != "--grpc-use-system-headers"@);
    lemma_langs_contrib_zero(o.languages@, "--grpc-use-system-headers"@);
    lemma_flatc_lists_zero(o, "--grpc-use-system-headers"@);
    lemma_flatc_count(o, "--grpc-use-system-headers"@);
}

/// The occurrence count of this option's flag.
#[verifier::rlimit(100)]
proof fn lemma_flatc_tot_grpc_python_typed_handlers(o: FlatCOptions)
    requires
        flatc_values_flag_free(o),
    ensures
        tok_count(flatc_opts_args(o), "--grpc-python-typed-handlers"@) == (if o.grpc_python_typed_handlers {
            1nat
        } else {
            0nat
        }),
{
    lemma_flatc_token_lens_a();
    lemma_flatc_token_lens_b();
    lemma_flatc_token_lens_c();
    lemma_flatc_token_chars_a();
    lemma_flatc_token_chars_b();
    lemma_flatc_token_indexes();
    assert(flatc_flag_tokens().contains("--grpc-python-typed-handlers"@)) by {
        assert(flatc_flag_tokens()[90] == "--grpc-python-typed-handlers"@);
    }
    assert(forall|l: Language| #[trigger] lang_flag(l) != "--grpc-python-typed-handlers"@);
    lemma_langs_contrib_zero(o.languages@, "--grpc-python-typed-handlers"@);
    lemma_flatc_lists_zero(o, "--grpc-python-typed-handlers"@);
    lemma_flatc_count(o, "--grpc-python-typed-handlers"@);
}

/// Flag-mapping totality for the gRPC options: each flag occurs in the
/// option part of the argument list exactly as often as its field calls for
/// — as long as no populated value spells an option flag token.
pub proof fn lemma_flatc_grpc_flag_totality(o: FlatCOptions)
    requires
        flatc_values_flag_free(o),
    ensures
        tok_count(flatc_opts_args(o), "--grpc-filename-suffix"@) == (if o.grpc_filename_suffix is Some {
            1nat
        } else {
            0nat
        }),
        tok_count(flatc_opts_args(o), "--grpc-additional-header"@) == o.grpc_additional_header@.len(),
        tok_count(flatc_opts_args(o), "--grpc-search-path"@) == (if o.grpc_search_path is Some {
            1nat
        } else {
            0nat
        }),
        tok_count(flatc_opts_args(o), "--grpc-use-system-headers"@) == (if o.grpc_use_system_headers {
            1nat
        } else {
            0nat
        }),
        tok_count(flatc_opts_args(o), "--grpc-python-typed-handlers"@) == (if o.grpc_python_typed_handlers {
            1nat
        } else {
            0nat
        }),
{
    lemma_flatc_tot_grpc_filename_suffix(o);
    lemma_flatc_tot_grpc_additional_header(o);
    lemma_flatc_tot_grpc_search_path(o);
    lemma_flatc_tot_grpc_use_system_headers(o);
    lemma_flatc_tot_grpc_python_typed_handlers(o);
}

/// Every field outside the language/output/include group at its default.
pub open spec fn flatc_non_io_default(o: FlatCOptions) -> bool {
    &&& o.strict_json == false
    &&& o.allow_non_utf8 == false
    &&& o.natural_utf8 == false
    &&& o.defaults_json == false
    &&& o.unknown_json == false
    &&& o.no_prefix == false
    &&& o.scoped_enums == false
    &&& o.no_emit_min_max_enum_values == false
    &&& o.swift_implementation_only == false
    &&& o.no_includes == false
    &&& o.gen_mutable == false
    &&& o.gen_onefile == false
    &&& o.gen_name_strings == false
    &&& o.gen_object_api == false
    &&& o.gen_compare == false
    &&& o.gen_nullable == false
    &&& o.java_package_prefix is None
    &&& o.java_checkerframework == false
    &&& o.gen_generated == false
    &&& o.gen_jvmstatic == false
    &&& o.gen_all == false
    &&& o.gen_json_emit == false
    &&& o.cpp_include@ == Seq::<String>::empty()
    &&& o.cpp_ptr_type is None
    &&& o.cpp_str_type is None
    &&& o.cpp_str_flex_ctor == false
    &&& o.cpp_field_case_style is None
    &&& o.no_cpp_direct_copy == false
    &&& o.cpp_std is None
    &&& o.cpp_static_reflection == false
    &&& o.object_prefix is None
    &&& o.object_suffix is None
    &&& o.go_namespace is None
    &&& o.go_import is None
    &&& o.go_module_name is None
    &&& o.raw_binary == false
    &&& o.size_prefixed == false
    &&& o.proto == false
    &&& o.proto_namespace_suffix is None
    &&& o.oneof_union == false
    &&& o.keep_proto_id == false
    &&& o.proto_id_gap is None
    &&& o.schema == false
    &&& o.bfbs_filenames is None
    &&& o.bfbs_absolute_paths == false
    &&& o.bfbs_comments == false
    &&& o.bfbs_builtins == false
    &&& o.bfbs_gen_embed == false
    &&& o.conform is None
    &&& o.conform_includes@ == Seq::<String>::empty()
    &&& o.filename_suffix is None
    &&& o.filename_ext is None
    &&& o.include_prefix is None
    &&& o.keep_prefix == false
    &&& o.reflect_types == false
    &&& o.reflect_names == false
    &&& o.rust_serialize == false
    &&& o.rust_module_root_file == false
    &&& o.root_type is None
    &&& o.require_explicit_ids == false
    &&& o.force_defaults == false
    &&& o.force_empty == false
    &&& o.force_empty_vectors == false
    &&& o.flexbuffers == false
    &&& o.no_warnings == false
    &&& o.warnings_as_errors == false
    &&& o.cs_global_alias == false
    &&& o.cs_gen_json_serializer == false
    &&& o.json_nested_bytes == false
    &&& o.ts_flat_files == false
    &&& o.ts_entry_points == false
    &&& o.annotate_sparse_vectors == false
    &&& o.annotate is None
    &&& o.no_leak_private_annotation == false
    &&& o.python_no_type_prefix_suffix == false
    &&& o.python_typing == false
    &&& o.python_version is None
    &&& o.python_gen_numpy == false
    &&& o.ts_omit_entrypoint == false
    &&& o.file_names_only == false
    &&& o.grpc_filename_suffix is None
    &&& o.grpc_additional_header@ == Seq::<String>::empty()
    &&& o.grpc_search_path is None
    &&& o.grpc_use_system_headers == false
    &&& o.grpc_python_typed_handlers == false
}

/// With every non-io option at its default, only the io group can emit flags.
pub proof fn lemma_flatc_non_io_empty(o: FlatCOptions)
    requires
        flatc_non_io_default(o),
    ensures
        flatc_opts_args(o) == flatc_args_io(o),
{
    assert(args_view(o.cpp_include@) =~= Seq::<Seq<char>>::empty());
    assert(args_view(o.conform_includes@) =~= Seq::<Seq<char>>::empty());
    assert(args_view(o.grpc_additional_header@) =~= Seq::<Seq<char>>::empty());
    assert(flatc_args_json(o) =~= Seq::<Seq<char>>::empty());
    assert(flatc_args_gen(o) =~= Seq::<Seq<char>>::empty());
    assert(flatc_args_cpp(o) =~= Seq::<Seq<char>>::empty());
    assert(flatc_args_go_proto(o) =~= Seq::<Seq<char>>::empty());
    assert(flatc_args_bfbs(o) =~= Seq::<Seq<char>>::empty());
    assert(flatc_args_strict(o) =~= Seq::<Seq<char>>::empty());
    assert(flatc_args_misc(o) =~= Seq::<Seq<char>>::empty());
    assert(flatc_args_grpc(o) =~= Seq::<Seq<char>>::empty());
    assert(flatc_opts_args(o) =~= flatc_args_io(o));
}

impl FlatC {
    /// Binds the compiler to its binary; `binary_present` reports whether the
    /// path exists, which the caller checks on the filesystem.
    pub fn new(binary: String, binary_present: bool) -> (r: Result<Self, Error>)
        ensures
            binary_present ==> (r matches Ok(c) && c@ == binary@),
            !binary_present ==> r == Result::<Self, Error>::Err(Error::BinaryNotFound(binary)),
    {
        if !binary_present {
            return Result::Err(Error::BinaryNotFound(binary));
        }
        Result::Ok(FlatC { binary })
    }

    /// The path this compiler was bound to.
    pub fn binary(&self) -> (r: &String)
        ensures
            r@ == self@,
    {
        &self.binary
    }

    /// Maps an option set and the input files to the invocation to spawn:
    /// the bound binary and exactly the arguments `flatc_args_spec` lists.
    pub fn compile(
        &self,
        options: &FlatCOptions,
        files: &Vec<String>,
        binary_files: &Vec<String>,
    ) -> (inv: Invocation)
        ensures
            inv.program@ == self@,
            args_view(inv.args@) == flatc_args_spec(
                *options,
                args_view(files@),
                args_view(binary_files@),
            ),
    {
        let mut args = flatc_io_args(options);
        let mut g = flatc_json_args(options);
        proof {
            lemma_args_view_concat(args@, g@);
        }
        args.append(&mut g);
        let mut g = flatc_gen_args(options);
        proof {
            lemma_args_view_concat(args@, g@);
        }
        args.append(&mut g);
        let mut g = flatc_cpp_args(options);
        proof {
            lemma_args_view_concat(args@, g@);
        }
        args.append(&mut g);
        let mut g = flatc_go_proto_args(options);
        proof {
            lemma_args_view_concat(args@, g@);
        }
        args.append(&mut g);
        let mut g = flatc_bfbs_args(options);
        proof {
            lemma_args_view_concat(args@, g@);
        }
        args.append(&mut g);
        let mut g = flatc_strict_args(options);
        proof {
            lemma_args_view_concat(args@, g@);
        }
        args.append(&mut g);
        let mut g = flatc_misc_args(options);
        proof {
            lemma_args_view_concat(args@, g@);
        }
        args.append(&mut g);
        let mut g = flatc_grpc_args(options);
        proof {
            lemma_args_view_concat(args@, g@);
        }
        args.append(&mut g);
        assert(args_view(args@) == flatc_opts_args(*options));
        push_all(&mut args, files);
        if binary_files.len() > 0 {
            push_arg(&mut args, "--");
            push_all(&mut args, binary_files);
            proof {
                assert(args_view(args@) =~= flatc_opts_args(*options) + args_view(files@)
                    + bin_files_seg(args_view(binary_files@)));
            }
        } else {
            proof {
                assert(args_view(binary_files@) =~= Seq::<Seq<char>>::empty());
                assert(args_view(args@) =~= flatc_opts_args(*options) + args_view(files@)
                    + bin_files_seg(args_view(binary_files@)));
            }
        }
        Invocation { program: self.binary.clone(), args }
    }

    /// Compiles schema files for one target language into `output_path`:
    /// only the language flag, the output pair and the schema files appear.
    pub fn compile_schema(
        &self,
        schema_files: &Vec<String>,
        language: Language,
        output_path: String,
    ) -> (inv: Invocation)
        ensures
            inv.program@ == self@,
            args_view(inv.args@) == seq![lang_flag(language), "-o"@, output_path@] + args_view(
                schema_files@,
            ),
    {
        let ghost out = output_path@;
        let mut options = FlatCOptions::default();
        let mut langs: Vec<Language> = Vec::new();
        langs.push(language);
        options.languages = langs;
        options.output_path = Option::Some(output_path);
        let empty_files: Vec<String> = Vec::new();
        let inv = self.compile(&options, schema_files, &empty_files);
        proof {
            lemma_flatc_non_io_empty(options);
            assert(options.languages@ =~= seq![language]);
            assert(options.languages@.drop_first() =~= Seq::<Language>::empty());
            assert(langs_seg(Seq::<Language>::empty()) =~= Seq::<Seq<char>>::empty());
            assert(langs_seg(options.languages@) =~= seq![lang_flag(language)]);
            assert(args_view(options.include_paths@) =~= Seq::<Seq<char>>::empty());
            assert(flatc_args_io(options) =~= seq![lang_flag(language), "-o"@, out]);
            assert(args_view(empty_files@) =~= Seq::<Seq<char>>::empty());
            assert(args_view(inv.args@) =~= seq![lang_flag(language), "-o"@, out] + args_view(
                schema_files@,
            ));
        }
        inv
    }

    /// Converts a JSON file to a binary FlatBuffer under the given schema:
    /// only any output pair, `--binary`, and the two files appear.
    pub fn json_to_binary(
        &self,
        schema_file: String,
        json_file: String,
        output_path: Option<String>,
    ) -> (inv: Invocation)
        ensures
            inv.program@ == self@,
            args_view(inv.args@) == opt_seg("-o"@, output_path) + seq!["--binary"@] + seq![
                schema_file@,
                json_file@,
            ],
    {
        let ghost outseg = opt_seg("-o"@, output_path);
        let ghost sf = schema_file@;
        let ghost jf = json_file@;
        let mut options = FlatCOptions::default();
        options.binary = true;
        options.output_path = output_path;
        let mut files: Vec<String> = Vec::new();
        files.push(schema_file);
        files.push(json_file);
        let empty_files: Vec<String> = Vec::new();
        let inv = self.compile(&options, &files, &empty_files);
        proof {
            lemma_flatc_non_io_empty(options);
            assert(langs_seg(options.languages@) =~= Seq::<Seq<char>>::empty());
            assert(args_view(options.include_paths@) =~= Seq::<Seq<char>>::empty());
            assert(flatc_args_io(options) =~= outseg + seq!["--binary"@]);
            assert(args_view(files@) =~= seq![sf, jf]);
            assert(args_view(empty_files@) =~= Seq::<Seq<char>>::empty());
            assert(args_view(inv.args@) =~= outseg + seq!["--binary"@] + seq![sf, jf]);
        }
        inv
    }

    /// Converts a binary FlatBuffer back to JSON under the given schema:
    /// only any output pair, `--json`, and the two files appear.
    pub fn binary_to_json(
        &self,
        schema_file: String,
        binary_file: String,
        output_path: Option<String>,
    ) -> (inv: Invocation)
        ensures
            inv.program@ == self@,
            args_view(inv.args@) == opt_seg("-o"@, output_path) + seq!["--json"@] + seq![
                schema_file@,
                binary_file@,
            ],
    {
        let ghost outseg = opt_seg("-o"@, output_path);
        let ghost sf = schema_file@;
        let ghost bf = binary_file@;
        let mut options = FlatCOptions::default();
        options.json = true;
        options.output_path = output_path;
        let mut files: Vec<String> = Vec::new();
        files.push(schema_file);
        files.push(binary_file);
        let empty_files: Vec<String> = Vec::new();
        let inv = self.compile(&options, &files, &empty_files);
        proof {
            lemma_flatc_non_io_empty(options);
            assert(langs_seg(options.languages@) =~= Seq::<Seq<char>>::empty());
            assert(args_view(options.include_paths@) =~= Seq::<Seq<char>>::empty());
            assert(flatc_args_io(options) =~= outseg + seq!["--json"@]);
            assert(args_view(files@) =~= seq![sf, bf]);
            assert(args_view(empty_files@) =~= Seq::<Seq<char>>::empty());
            assert(args_view(inv.args@) =~= outseg + seq!["--json"@] + seq![sf, bf]);
        }
        inv
    }
}

} // verus!
