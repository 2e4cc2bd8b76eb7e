//! The IL2CPP metadata dumper: its option set and the exact command line
//! each option set maps to.

use vstd::prelude::*;
use crate::Error;
use crate::wrappers::command::{
    Invocation, args_view, flag_contrib, flag_seg, lemma_args_view_concat,
    lemma_tok_count_concat, lemma_tok_count_flag_seg, lemma_tok_count_opt_seg,
    lemma_tok_count_pair, opt_contrib, opt_seg, push_arg, push_arg_string, push_flag, push_opt,
    tok_count,
};

verus! {

/// A dumper bound to a binary that was present when it was constructed.
pub struct Il2CppDumper {
    binary: String,
}

impl View for Il2CppDumper {
    type V = Seq<char>;

    /// A dumper is characterised by the binary path it is bound to.
    closed spec fn view(&self) -> Seq<char> {
        self.binary@
    }
}

/// Everything the dumper can be told. `url` and `binary_name` configure
/// fetching and extraction; the rest become command-line flags.
#[derive(Debug)]
pub struct Il2CppDumperOptions {
    pub url: Option<String>,
    pub binary_name: Option<String>,
    pub il2cpp: String,
    pub metadata: Option<String>,
    pub output: Option<String>,
    pub unity_version: Option<String>,
    pub compiler_type: Option<String>,
    pub output_csharp_stub: bool,
    pub layout: Option<String>,
    pub flatten_hierarchy: bool,
    pub output_disassembler_metadata: bool,
    pub disassembler: Option<String>,
    pub output_cpp_scaffolding: bool,
    pub sorting_mode: Option<String>,
    pub suppress_metadata: bool,
    pub compilable: bool,
    pub separate_assembly_attributes: bool,
    pub output_dummy_dlls: bool,
    pub output_vs_solution: bool,
    pub unity_path: Option<String>,
    pub unity_assemblies_path: Option<String>,
    pub extract_il2cpp_files: bool,
}

/// Every field at its built-in default: unset, false or empty.
pub open spec fn il2cpp_defaults(o: Il2CppDumperOptions) -> bool {
    &&& o.url is None
    &&& o.binary_name is None
    &&& o.il2cpp@ == Seq::<char>::empty()
    &&& o.metadata is None
    &&& o.output is None
    &&& o.unity_version is None
    &&& o.compiler_type is None
    &&& o.output_csharp_stub == false
    &&& o.layout is None
    &&& o.flatten_hierarchy == false
    &&& o.output_disassembler_metadata == false
    &&& o.disassembler is None
    &&& o.output_cpp_scaffolding == false
    &&& o.sorting_mode is None
    &&& o.suppress_metadata == false
    &&& o.compilable == false
    &&& o.separate_assembly_attributes == false
    &&& o.output_dummy_dlls == false
    &&& o.output_vs_solution == false
    &&& o.unity_path is None
    &&& o.unity_assemblies_path is None
    &&& o.extract_il2cpp_files == false
}

impl Default for Il2CppDumperOptions {
    /// All options unset: no flag is emitted for any of them.
    fn default() -> (r: Self)
        ensures
            il2cpp_defaults(r),
    {
        Il2CppDumperOptions {
            url: Option::None,
            binary_name: Option::None,
            il2cpp: String::new(),
            metadata: Option::None,
            output: Option::None,
            unity_version: Option::None,
            compiler_type: Option::None,
            output_csharp_stub: false,
            layout: Option::None,
            flatten_hierarchy: false,
            output_disassembler_metadata: false,
            disassembler: Option::None,
            output_cpp_scaffolding: false,
            sorting_mode: Option::None,
            suppress_metadata: false,
            compilable: false,
            separate_assembly_attributes: false,
            output_dummy_dlls: false,
            output_vs_solution: false,
            unity_path: Option::None,
            unity_assemblies_path: Option::None,
            extract_il2cpp_files: false,
        }
    }
}

/// The mandatory IL2CPP binary path and the metadata/output/Unity options.
pub open spec fn il2cpp_args_head(o: Il2CppDumperOptions) -> Seq<Seq<char>> {
    seq!["--il2cpp"@, o.il2cpp@] + opt_seg("--metadata"@, o.metadata) + opt_seg(
        "--output"@,
        o.output,
    ) + opt_seg("--unity-version"@, o.unity_version) + opt_seg("--compiler-type"@, o.compiler_type)
        + flag_seg("--output-csharp-stub"@, o.output_csharp_stub) + opt_seg("--layout"@, o.layout)
}

/// The layout/disassembler options.
pub open spec fn il2cpp_args_mid(o: Il2CppDumperOptions) -> Seq<Seq<char>> {
    flag_seg("--flatten-hierarchy"@, o.flatten_hierarchy) + flag_seg(
        "--output-disassembler-metadata"@,
        o.output_disassembler_metadata,
    ) + opt_seg("--disassembler"@, o.disassembler) + flag_seg(
        "--output-cpp-scaffolding"@,
        o.output_cpp_scaffolding,
    ) + opt_seg("--sorting-mode"@, o.sorting_mode) + flag_seg(
        "--suppress-metadata"@,
        o.suppress_metadata,
    ) + flag_seg("--compilable"@, o.compilable)
}

/// The assembly-output and Unity-path options.
pub open spec fn il2cpp_args_tail(o: Il2CppDumperOptions) -> Seq<Seq<char>> {
    flag_seg("--separate-assembly-attributes"@, o.separate_assembly_attributes) + flag_seg(
        "--output-dummy-dlls"@,
        o.output_dummy_dlls,
    ) + flag_seg("--output-vs-solution"@, o.output_vs_solution) + opt_seg(
        "--unity-path"@,
        o.unity_path,
    ) + opt_seg("--unity-assemblies-path"@, o.unity_assemblies_path) + flag_seg(
        "--extract-il2-cpp-files"@,
        o.extract_il2cpp_files,
    )
}

/// The full argument list for one option set: the mandatory IL2CPP binary
/// path, then every populated option, each exactly once, in a fixed order.
pub open spec fn il2cpp_args_spec(o: Il2CppDumperOptions) -> Seq<Seq<char>> {
    il2cpp_args_head(o) + il2cpp_args_mid(o) + il2cpp_args_tail(o)
}


/// The twenty flag tokens the dumper's command line is built from.
pub open spec fn il2cpp_flag_tokens() -> Seq<Seq<char>> {
    seq![
        "--il2cpp"@,
        "--metadata"@,
        "--output"@,
        "--unity-version"@,
        "--compiler-type"@,
        "--output-csharp-stub"@,
        "--layout"@,
        "--flatten-hierarchy"@,
        "--output-disassembler-metadata"@,
        "--disassembler"@,
        "--output-cpp-scaffolding"@,
        "--sorting-mode"@,
        "--suppress-metadata"@,
        "--compilable"@,
        "--separate-assembly-attributes"@,
        "--output-dummy-dlls"@,
        "--output-vs-solution"@,
        "--unity-path"@,
        "--unity-assemblies-path"@,
        "--extract-il2-cpp-files"@,
    ]
}

/// No populated value is itself the exact text of a flag token; on such
/// inputs occurrence counts would conflate a value with a flag.
pub open spec fn il2cpp_values_flag_free(o: Il2CppDumperOptions) -> bool {
    &&& !il2cpp_flag_tokens().contains(o.il2cpp@)
    &&& (o.metadata matches Some(s) ==> !il2cpp_flag_tokens().contains(s@))
    &&& (o.output matches Some(s) ==> !il2cpp_flag_tokens().contains(s@))
    &&& (o.unity_version matches Some(s) ==> !il2cpp_flag_tokens().contains(s@))
    &&& (o.compiler_type matches Some(s) ==> !il2cpp_flag_tokens().contains(s@))
    &&& (o.layout matches Some(s) ==> !il2cpp_flag_tokens().contains(s@))
    &&& (o.disassembler matches Some(s) ==> !il2cpp_flag_tokens().contains(s@))
    &&& (o.sorting_mode matches Some(s) ==> !il2cpp_flag_tokens().contains(s@))
    &&& (o.unity_path matches Some(s) ==> !il2cpp_flag_tokens().contains(s@))
    &&& (o.unity_assemblies_path matches Some(s) ==> !il2cpp_flag_tokens().contains(s@))
}

/// The token count of this group of the argument list.
proof fn lemma_il2cpp_count_head(o: Il2CppDumperOptions, t: Seq<char>)
    ensures
        tok_count(il2cpp_args_head(o), t) as int == (if "--il2cpp"@ == t {
            1int
        } else {
            0int
        }) + (if o.il2cpp@ == t {
            1int
        } else {
            0int
        }) + opt_contrib("--metadata"@, o.metadata, t) + opt_contrib("--output"@, o.output, t) + opt_contrib("--unity-version"@, o.unity_version, t) + opt_contrib("--compiler-type"@, o.compiler_type, t) + flag_contrib("--output-csharp-stub"@, o.output_csharp_stub, t) + opt_contrib("--layout"@, o.layout, t),
{
    let s0 = seq!["--il2cpp"@, o.il2cpp@];
    let s1 = opt_seg("--metadata"@, o.metadata);
    let s2 = opt_seg("--output"@, o.output);
    let s3 = opt_seg("--unity-version"@, o.unity_version);
    let s4 = opt_seg("--compiler-type"@, o.compiler_type);
    let s5 = flag_seg("--output-csharp-stub"@, o.output_csharp_stub);
    let s6 = opt_seg("--layout"@, o.layout);
    assert(il2cpp_args_head(o) == s0 + s1 + s2 + s3 + s4 + s5 + s6);
    lemma_tok_count_concat(s0, s1, t);
    lemma_tok_count_concat(s0 + s1, s2, t);
    lemma_tok_count_concat(s0 + s1 + s2, s3, t);
    lemma_tok_count_concat(s0 + s1 + s2 + s3, s4, t);
    lemma_tok_count_concat(s0 + s1 + s2 + s3 + s4, s5, t);
    lemma_tok_count_concat(s0 + s1 + s2 + s3 + s4 + s5, s6, t);
    lemma_tok_count_pair("--il2cpp"@, o.il2cpp@, t);
    lemma_tok_count_opt_seg("--metadata"@, o.metadata, t);
    lemma_tok_count_opt_seg("--output"@, o.output, t);
    lemma_tok_count_opt_seg("--unity-version"@, o.unity_version, t);
    lemma_tok_count_opt_seg("--compiler-type"@, o.compiler_type, t);
    lemma_tok_count_flag_seg("--output-csharp-stub"@, o.output_csharp_stub, t);
    lemma_tok_count_opt_seg("--layout"@, o.layout, t);
}

/// The token count of this group of the argument list.
proof fn lemma_il2cpp_count_mid(o: Il2CppDumperOptions, t: Seq<char>)
    ensures
        tok_count(il2cpp_args_mid(o), t) as int == flag_contrib("--flatten-hierarchy"@, o.flatten_hierarchy, t) + flag_contrib("--output-disassembler-metadata"@, o.output_disassembler_metadata, t) + opt_contrib("--disassembler"@, o.disassembler, t) + flag_contrib("--output-cpp-scaffolding"@, o.output_cpp_scaffolding, t) + opt_contrib("--sorting-mode"@, o.sorting_mode, t) + flag_contrib("--suppress-metadata"@, o.suppress_metadata, t) + flag_contrib("--compilable"@, o.compilable, t),
{
    let s0 = flag_seg("--flatten-hierarchy"@, o.flatten_hierarchy);
    let s1 = flag_seg("--output-disassembler-metadata"@, o.output_disassembler_metadata);
    let s2 = opt_seg("--disassembler"@, o.disassembler);
    let s3 = flag_seg("--output-cpp-scaffolding"@, o.output_cpp_scaffolding);
    let s4 = opt_seg("--sorting-mode"@, o.sorting_mode);
    let s5 = flag_seg("--suppress-metadata"@, o.suppress_metadata);
    let s6 = flag_seg("--compilable"@, o.compilable);
    assert(il2cpp_args_mid(o) == s0 + s1 + s2 + s3 + s4 + s5 + s6);
    lemma_tok_count_concat(s0, s1, t);
    lemma_tok_count_concat(s0 + s1, s2, t);
    lemma_tok_count_concat(s0 + s1 + s2, s3, t);
    lemma_tok_count_concat(s0 + s1 + s2 + s3, s4, t);
    lemma_tok_count_concat(s0 + s1 + s2 + s3 + s4, s5, t);
    lemma_tok_count_concat(s0 + s1 + s2 + s3 + s4 + s5, s6, t);
    lemma_tok_count_flag_seg("--flatten-hierarchy"@, o.flatten_hierarchy, t);
    lemma_tok_count_flag_seg("--output-disassembler-metadata"@, o.output_disassembler_metadata, t);
    lemma_tok_count_opt_seg("--disassembler"@, o.disassembler, t);
    lemma_tok_count_flag_seg("--output-cpp-scaffolding"@, o.output_cpp_scaffolding, t);
    lemma_tok_count_opt_seg("--sorting-mode"@, o.sorting_mode, t);
    lemma_tok_count_flag_seg("--suppress-metadata"@, o.suppress_metadata, t);
    lemma_tok_count_flag_seg("--compilable"@, o.compilable, t);
}

/// The token count of this group of the argument list.
proof fn lemma_il2cpp_count_tail(o: Il2CppDumperOptions, t: Seq<char>)
    ensures
        tok_count(il2cpp_args_tail(o), t) as int == flag_contrib("--separate-assembly-attributes"@, o.separate_assembly_attributes, t) + flag_contrib("--output-dummy-dlls"@, o.output_dummy_dlls, t) + flag_contrib("--output-vs-solution"@, o.output_vs_solution, t) + opt_contrib("--unity-path"@, o.unity_path, t) + opt_contrib("--unity-assemblies-path"@, o.unity_assemblies_path, t) + flag_contrib("--extract-il2-cpp-files"@, o.extract_il2cpp_files, t),
{
    let s0 = flag_seg("--separate-assembly-attributes"@, o.separate_assembly_attributes);
    let s1 = flag_seg("--output-dummy-dlls"@, o.output_dummy_dlls);
    let s2 = flag_seg("--output-vs-solution"@, o.output_vs_solution);
    let s3 = opt_seg("--unity-path"@, o.unity_path);
    let s4 = opt_seg("--unity-assemblies-path"@, o.unity_assemblies_path);
    let s5 = flag_seg("--extract-il2-cpp-files"@, o.extract_il2cpp_files);
    assert(il2cpp_args_tail(o) == s0 + s1 + s2 + s3 + s4 + s5);
    lemma_tok_count_concat(s0, s1, t);
    lemma_tok_count_concat(s0 + s1, s2, t);
    lemma_tok_count_concat(s0 + s1 + s2, s3, t);
    lemma_tok_count_concat(s0 + s1 + s2 + s3, s4, t);
    lemma_tok_count_concat(s0 + s1 + s2 + s3 + s4, s5, t);
    lemma_tok_count_flag_seg("--separate-assembly-attributes"@, o.separate_assembly_attributes, t);
    lemma_tok_count_flag_seg("--output-dummy-dlls"@, o.output_dummy_dlls, t);
    lemma_tok_count_flag_seg("--output-vs-solution"@, o.output_vs_solution, t);
    lemma_tok_count_opt_seg("--unity-path"@, o.unity_path, t);
    lemma_tok_count_opt_seg("--unity-assemblies-path"@, o.unity_assemblies_path, t);
    lemma_tok_count_flag_seg("--extract-il2-cpp-files"@, o.extract_il2cpp_files, t);
}

/// How often a token occurs in the dumper's argument list: once as the
/// mandatory flag or its value, plus each option's contribution.
proof fn lemma_il2cpp_count(o: Il2CppDumperOptions, t: Seq<char>)
    ensures
        tok_count(il2cpp_args_spec(o), t) as int == (if "--il2cpp"@ == t {
            1int
        } else {
            0int
        }) + (if o.il2cpp@ == t {
            1int
        } else {
            0int
        }) + opt_contrib("--metadata"@, o.metadata, t) + opt_contrib("--output"@, o.output, t) + opt_contrib("--unity-version"@, o.unity_version, t) + opt_contrib("--compiler-type"@, o.compiler_type, t) + flag_contrib("--output-csharp-stub"@, o.output_csharp_stub, t) + opt_contrib("--layout"@, o.layout, t) + flag_contrib("--flatten-hierarchy"@, o.flatten_hierarchy, t) + flag_contrib("--output-disassembler-metadata"@, o.output_disassembler_metadata, t) + opt_contrib("--disassembler"@, o.disassembler, t) + flag_contrib("--output-cpp-scaffolding"@, o.output_cpp_scaffolding, t) + opt_contrib("--sorting-mode"@, o.sorting_mode, t) + flag_contrib("--suppress-metadata"@, o.suppress_metadata, t) + flag_contrib("--compilable"@, o.compilable, t) + flag_contrib("--separate-assembly-attributes"@, o.separate_assembly_attributes, t) + flag_contrib("--output-dummy-dlls"@, o.output_dummy_dlls, t) + flag_contrib("--output-vs-solution"@, o.output_vs_solution, t) + opt_contrib("--unity-path"@, o.unity_path, t) + opt_contrib("--unity-assemblies-path"@, o.unity_assemblies_path, t) + flag_contrib("--extract-il2-cpp-files"@, o.extract_il2cpp_files, t),
{
    lemma_tok_count_concat(il2cpp_args_head(o), il2cpp_args_mid(o), t);
    lemma_tok_count_concat(il2cpp_args_head(o) + il2cpp_args_mid(o), il2cpp_args_tail(o), t);
    lemma_il2cpp_count_head(o, t);
    lemma_il2cpp_count_mid(o, t);
    lemma_il2cpp_count_tail(o, t);
}

/// Flag-mapping totality: in the generated argument list, every populated
/// option's flag occurs exactly once, every unset option's flag occurs not
/// at all, and a boolean's bare flag occurs exactly when it is set — as long
/// as no populated value spells a flag token.
pub proof fn lemma_il2cpp_flag_totality(o: Il2CppDumperOptions)
    requires
        il2cpp_values_flag_free(o),
    ensures
        tok_count(il2cpp_args_spec(o), "--il2cpp"@) == 1,
        tok_count(il2cpp_args_spec(o), "--metadata"@) == (if o.metadata is Some {
            1nat
        } else {
            0nat
        }),
        tok_count(il2cpp_args_spec(o), "--output"@) == (if o.output is Some {
            1nat
        } else {
            0nat
        }),
        tok_count(il2cpp_args_spec(o), "--unity-version"@) == (if o.unity_version is Some {
            1nat
        } else {
            0nat
        }),
        tok_count(il2cpp_args_spec(o), "--compiler-type"@) == (if o.compiler_type is Some {
            1nat
        } else {
            0nat
        }),
        tok_count(il2cpp_args_spec(o), "--output-csharp-stub"@) == (if o.output_csharp_stub {
            1nat
        } else {
            0nat
        }),
        tok_count(il2cpp_args_spec(o), "--layout"@) == (if o.layout is Some {
            1nat
        } else {
            0nat
        }),
        tok_count(il2cpp_args_spec(o), "--flatten-hierarchy"@) == (if o.flatten_hierarchy {
            1nat
        } else {
            0nat
        }),
        tok_count(il2cpp_args_spec(o), "--output-disassembler-metadata"@) == (if o.output_disassembler_metadata {
            1nat
        } else {
            0nat
        }),
        tok_count(il2cpp_args_spec(o), "--disassembler"@) == (if o.disassembler is Some {
            1nat
        } else {
            0nat
        }),
        tok_count(il2cpp_args_spec(o), "--output-cpp-scaffolding"@) == (if o.output_cpp_scaffolding {
            1nat
        } else {
            0nat
        }),
        tok_count(il2cpp_args_spec(o), "--sorting-mode"@) == (if o.sorting_mode is Some {
            1nat
        } else {
            0nat
        }),
        tok_count(il2cpp_args_spec(o), "--suppress-metadata"@) == (if o.suppress_metadata {
            1nat
        } else {
            0nat
        }),
        tok_count(il2cpp_args_spec(o), "--compilable"@) == (if o.compilable {
            1nat
        } else {
            0nat
        }),
        tok_count(il2cpp_args_spec(o), "--separate-assembly-attributes"@) == (if o.separate_assembly_attributes {
            1nat
        } else {
            0nat
        }),
        tok_count(il2cpp_args_spec(o), "--output-dummy-dlls"@) == (if o.output_dummy_dlls {
            1nat
        } else {
            0nat
        }),
        tok_count(il2cpp_args_spec(o), "--output-vs-solution"@) == (if o.output_vs_solution {
            1nat
        } else {
            0nat
        }),
        tok_count(il2cpp_args_spec(o), "--unity-path"@) == (if o.unity_path is Some {
            1nat
        } else {
            0nat
        }),
        tok_count(il2cpp_args_spec(o), "--unity-assemblies-path"@) == (if o.unity_assemblies_path is Some {
            1nat
        } else {
            0nat
        }),
        tok_count(il2cpp_args_spec(o), "--extract-il2-cpp-files"@) == (if o.extract_il2cpp_files {
            1nat
        } else {
            0nat
        }),
{
    reveal_strlit("--il2cpp");
    reveal_strlit("--metadata");
    reveal_strlit("--output");
    reveal_strlit("--unity-version");
    reveal_strlit("--compiler-type");
    reveal_strlit("--output-csharp-stub");
    reveal_strlit("--layout");
    reveal_strlit("--flatten-hierarchy");
    reveal_strlit("--output-disassembler-metadata");
    reveal_strlit("--disassembler");
    reveal_strlit("--output-cpp-scaffolding");
    reveal_strlit("--sorting-mode");
    reveal_strlit("--suppress-metadata");
    reveal_strlit("--compilable");
    reveal_strlit("--separate-assembly-attributes");
    reveal_strlit("--output-dummy-dlls");
    reveal_strlit("--output-vs-solution");
    reveal_strlit("--unity-path");
    reveal_strlit("--unity-assemblies-path");
    reveal_strlit("--extract-il2-cpp-files");
    assert("--il2cpp"@.len() == 8);
    assert("--metadata"@.len() == 10);
    assert("--output"@.len() == 8);
    assert("--unity-version"@.len() == 15);
    assert("--compiler-type"@.len() == 15);
    assert("--output-csharp-stub"@.len() == 20);
    assert("--layout"@.len() == 8);
    assert("--flatten-hierarchy"@.len() == 19);
    assert("--output-disassembler-metadata"@.len() == 30);
    assert("--disassembler"@.len() == 14);
    assert("--output-cpp-scaffolding"@.len() == 24);
    assert("--sorting-mode"@.len() == 14);
    assert("--suppress-metadata"@.len() == 19);
    assert("--compilable"@.len() == 12);
    assert("--separate-assembly-attributes"@.len() == 30);
    assert("--output-dummy-dlls"@.len() == 19);
    assert("--output-vs-solution"@.len() == 20);
    assert("--unity-path"@.len() == 12);
    assert("--unity-assemblies-path"@.len() == 23);
    assert("--extract-il2-cpp-files"@.len() == 23);
    assert("--il2cpp"@[2] == 'i');
    assert("--output"@[2] == 'o');
    assert("--layout"@[2] == 'l');
    assert("--unity-version"@[2] == 'u');
    assert("--compiler-type"@[2] == 'c');
    assert("--output-csharp-stub"@[2] == 'o');
    assert("--output-vs-solution"@[2] == 'o');
    assert("--output-csharp-stub"@[9] == 'c');
    assert("--output-vs-solution"@[9] == 'v');
    assert("--flatten-hierarchy"@[2] == 'f');
    assert("--suppress-metadata"@[2] == 's');
    assert("--output-dummy-dlls"@[2] == 'o');
    assert("--output-disassembler-metadata"@[2] == 'o');
    assert("--separate-assembly-attributes"@[2] == 's');
    assert("--disassembler"@[2] == 'd');
    assert("--sorting-mode"@[2] == 's');
    assert("--compilable"@[2] == 'c');
    assert("--unity-path"@[2] == 'u');
    assert("--unity-assemblies-path"@[2] == 'u');
    assert("--extract-il2-cpp-files"@[2] == 'e');
    assert(il2cpp_flag_tokens()[0] == "--il2cpp"@);
    assert(il2cpp_flag_tokens()[1] == "--metadata"@);
    assert(il2cpp_flag_tokens()[2] == "--output"@);
    assert(il2cpp_flag_tokens()[3] == "--unity-version"@);
    assert(il2cpp_flag_tokens()[4] == "--compiler-type"@);
    assert(il2cpp_flag_tokens()[5] == "--output-csharp-stub"@);
    assert(il2cpp_flag_tokens()[6] == "--layout"@);
    assert(il2cpp_flag_tokens()[7] == "--flatten-hierarchy"@);
    assert(il2cpp_flag_tokens()[8] == "--output-disassembler-metadata"@);
    assert(il2cpp_flag_tokens()[9] == "--disassembler"@);
    assert(il2cpp_flag_tokens()[10] == "--output-cpp-scaffolding"@);
    assert(il2cpp_flag_tokens()[11] == "--sorting-mode"@);
    assert(il2cpp_flag_tokens()[12] == "--suppress-metadata"@);
    assert(il2cpp_flag_tokens()[13] == "--compilable"@);
    assert(il2cpp_flag_tokens()[14] == "--separate-assembly-attributes"@);
    assert(il2cpp_flag_tokens()[15] == "--output-dummy-dlls"@);
    assert(il2cpp_flag_tokens()[16] == "--output-vs-solution"@);
    assert(il2cpp_flag_tokens()[17] == "--unity-path"@);
    assert(il2cpp_flag_tokens()[18] == "--unity-assemblies-path"@);
    assert(il2cpp_flag_tokens()[19] == "--extract-il2-cpp-files"@);
    lemma_il2cpp_count(o, "--il2cpp"@);
    lemma_il2cpp_count(o, "--metadata"@);
    lemma_il2cpp_count(o, "--output"@);
    lemma_il2cpp_count(o, "--unity-version"@);
    lemma_il2cpp_count(o, "--compiler-type"@);
    lemma_il2cpp_count(o, "--output-csharp-stub"@);
    lemma_il2cpp_count(o, "--layout"@);
    lemma_il2cpp_count(o, "--flatten-hierarchy"@);
    lemma_il2cpp_count(o, "--output-disassembler-metadata"@);
    lemma_il2cpp_count(o, "--disassembler"@);
    lemma_il2cpp_count(o, "--output-cpp-scaffolding"@);
    lemma_il2cpp_count(o, "--sorting-mode"@);
    lemma_il2cpp_count(o, "--suppress-metadata"@);
    lemma_il2cpp_count(o, "--compilable"@);
    lemma_il2cpp_count(o, "--separate-assembly-attributes"@);
    lemma_il2cpp_count(o, "--output-dummy-dlls"@);
    lemma_il2cpp_count(o, "--output-vs-solution"@);
    lemma_il2cpp_count(o, "--unity-path"@);
    lemma_il2cpp_count(o, "--unity-assemblies-path"@);
    lemma_il2cpp_count(o, "--extract-il2-cpp-files"@);
}

impl Il2CppDumper {
    /// Binds the dumper to its binary; `binary_present` reports whether the
    /// path exists, which the caller checks on the filesystem.
    pub fn new(binary: String, binary_present: bool) -> (r: Result<Self, Error>)
        ensures
            binary_present ==> (r matches Ok(d) && d@ == binary@),
            !binary_present ==> r == Result::<Self, Error>::Err(Error::BinaryNotFound(binary)),
    {
        if !binary_present {
            return Result::Err(Error::BinaryNotFound(binary));
        }
        Result::Ok(Il2CppDumper { binary })
    }

    /// The path this dumper was bound to.
    pub fn binary(&self) -> (r: &String)
        ensures
            r@ == self@,
    {
        &self.binary
    }

    /// Maps an option set to the invocation to spawn: the bound binary and
    /// exactly the flags `il2cpp_args_spec` lists.
    pub fn command(&self, options: &Il2CppDumperOptions) -> (inv: Invocation)
        ensures
            inv.program@ == self@,
            args_view(inv.args@) == il2cpp_args_spec(*options),
    {
        let mut args = il2cpp_head_args(options);
        let mut mid = il2cpp_mid_args(options);
        let mut tail = il2cpp_tail_args(options);
        proof {
            lemma_args_view_concat(args@, mid@);
        }
        args.append(&mut mid);
        proof {
            lemma_args_view_concat(args@, tail@);
        }
        args.append(&mut tail);
        Invocation { program: self.binary.clone(), args }
    }
}

/// Builds the head group of the argument list.
fn il2cpp_head_args(options: &Il2CppDumperOptions) -> (v: Vec<String>)
    ensures
        args_view(v@) == il2cpp_args_head(*options),
{
    let mut args: Vec<String> = Vec::new();
    push_arg(&mut args, "--il2cpp");
    push_arg_string(&mut args, options.il2cpp.clone());
    push_opt(&mut args, &options.metadata, "--metadata");
    push_opt(&mut args, &options.output, "--output");
    push_opt(&mut args, &options.unity_version, "--unity-version");
    push_opt(&mut args, &options.compiler_type, "--compiler-type");
    push_flag(&mut args, options.output_csharp_stub, "--output-csharp-stub");
    push_opt(&mut args, &options.layout, "--layout");
    proof {
        assert(args_view(args@) =~= il2cpp_args_head(*options));
    }
    args
}

/// Builds the middle group of the argument list.
fn il2cpp_mid_args(options: &Il2CppDumperOptions) -> (v: Vec<String>)
    ensures
        args_view(v@) == il2cpp_args_mid(*options),
{
    let mut args: Vec<String> = Vec::new();
    push_flag(&mut args, options.flatten_hierarchy, "--flatten-hierarchy");
    push_flag(&mut args, options.output_disassembler_metadata, "--output-disassembler-metadata");
    push_opt(&mut args, &options.disassembler, "--disassembler");
    push_flag(&mut args, options.output_cpp_scaffolding, "--output-cpp-scaffolding");
    push_opt(&mut args, &options.sorting_mode, "--sorting-mode");
    push_flag(&mut args, options.suppress_metadata, "--suppress-metadata");
    push_flag(&mut args, options.compilable, "--compilable");
    proof {
        assert(args_view(args@) =~= il2cpp_args_mid(*options));
    }
    args
}

/// Builds the tail group of the argument list.
fn il2cpp_tail_args(options: &Il2CppDumperOptions) -> (v: Vec<String>)
    ensures
        args_view(v@) == il2cpp_args_tail(*options),
{
    let mut args: Vec<String> = Vec::new();
    push_flag(&mut args, options.separate_assembly_attributes, "--separate-assembly-attributes");
    push_flag(&mut args, options.output_dummy_dlls, "--output-dummy-dlls");
    push_flag(&mut args, options.output_vs_solution, "--output-vs-solution");
    push_opt(&mut args, &options.unity_path, "--unity-path");
    push_opt(&mut args, &options.unity_assemblies_path, "--unity-assemblies-path");
    push_flag(&mut args, options.extract_il2cpp_files, "--extract-il2-cpp-files");
    proof {
        assert(args_view(args@) =~= il2cpp_args_tail(*options));
    }
    args
}

} // verus!
