//! The loaded configuration: one option set per tool, and the merge that
//! lets a configuration file override each tool's defaults.

use vstd::prelude::*;
use crate::Error;
use crate::helpers::config::DEFAULT_CONFIG_FILE;
use crate::text::{clone_opt_string, clone_vec_string};
use crate::wrappers::fbs_dumper::{FbsDumperOptions, fbs_defaults};
use crate::wrappers::flatc::{FlatCOptions, clone_vec_lang, flatc_defaults};
use crate::wrappers::il2cpp_dumper::{Il2CppDumperOptions, il2cpp_defaults};

verus! {

/// The settings a configuration file can carry: one section per tool.
#[derive(Debug)]
pub struct Config {
    pub fbs_dumper: FbsDumperOptions,
    pub flatc: FlatCOptions,
    pub il2cpp_dumper: Il2CppDumperOptions,
}

impl Default for Config {
    /// The configuration used when no file is present: every tool at its
    /// built-in defaults.
    fn default() -> (r: Self)
        ensures
            fbs_defaults(r.fbs_dumper),
            flatc_defaults(r.flatc),
            il2cpp_defaults(r.il2cpp_dumper),
    {
        Config {
            fbs_dumper: FbsDumperOptions::default(),
            flatc: FlatCOptions::default(),
            il2cpp_dumper: Il2CppDumperOptions::default(),
        }
    }
}

/// How one tool's file-loaded options rewrite a pre-populated option set:
/// a value that differs from the tool's default wins, every other field
/// keeps what the caller put there; `url` and `binary_name` are never
/// merged, they are read directly where a tool is fetched or extracted.
pub open spec fn fbs_merged(file: FbsDumperOptions, before: FbsDumperOptions, after: FbsDumperOptions) -> bool {
    &&& after.url == before.url
    &&& after.binary_name == before.binary_name
    &&& after.dummy_dll@ == (if file.dummy_dll@.len() > 0 { file.dummy_dll@ } else { before.dummy_dll@ })
    &&& after.game_assembly == (if file.game_assembly is Some { file.game_assembly } else { before.game_assembly })
    &&& after.output_file == (if file.output_file is Some { file.output_file } else { before.output_file })
    &&& after.namespace == (if file.namespace is Some { file.namespace } else { before.namespace })
    &&& after.force_snake_case == (file.force_snake_case || before.force_snake_case)
    &&& after.namespace_to_look_for == (if file.namespace_to_look_for is Some { file.namespace_to_look_for } else { before.namespace_to_look_for })
    &&& after.force == (file.force || before.force)
    &&& after.verbose == (file.verbose || before.verbose)
    &&& after.suppress_warnings == (file.suppress_warnings || before.suppress_warnings)
}

/// How one tool's file-loaded options rewrite a pre-populated option set:
/// a value that differs from the tool's default wins, every other field
/// keeps what the caller put there; `url` and `binary_name` are never
/// merged, they are read directly where a tool is fetched or extracted.
pub open spec fn il2cpp_merged(file: Il2CppDumperOptions, before: Il2CppDumperOptions, after: Il2CppDumperOptions) -> bool {
    &&& after.url == before.url
    &&& after.binary_name == before.binary_name
    &&& after.il2cpp@ == (if file.il2cpp@.len() > 0 { file.il2cpp@ } else { before.il2cpp@ })
    &&& after.metadata == (if file.metadata is Some { file.metadata } else { before.metadata })
    &&& after.output == (if file.output is Some { file.output } else { before.output })
    &&& after.unity_version == (if file.unity_version is Some { file.unity_version } else { before.unity_version })
    &&& after.compiler_type == (if file.compiler_type is Some { file.compiler_type } else { before.compiler_type })
    &&& after.output_csharp_stub == (file.output_csharp_stub || before.output_csharp_stub)
    &&& after.layout == (if file.layout is Some { file.layout } else { before.layout })
    &&& after.flatten_hierarchy == (file.flatten_hierarchy || before.flatten_hierarchy)
    &&& after.output_disassembler_metadata == (file.output_disassembler_metadata || before.output_disassembler_metadata)
    &&& after.disassembler == (if file.disassembler is Some { file.disassembler } else { before.disassembler })
    &&& after.output_cpp_scaffolding == (file.output_cpp_scaffolding || before.output_cpp_scaffolding)
    &&& after.sorting_mode == (if file.sorting_mode is Some { file.sorting_mode } else { before.sorting_mode })
    &&& after.suppress_metadata == (file.suppress_metadata || before.suppress_metadata)
    &&& after.compilable == (file.compilable || before.compilable)
    &&& after.separate_assembly_attributes == (file.separate_assembly_attributes || before.separate_assembly_attributes)
    &&& after.output_dummy_dlls == (file.output_dummy_dlls || before.output_dummy_dlls)
    &&& after.output_vs_solution == (file.output_vs_solution || before.output_vs_solution)
    &&& after.unity_path == (if file.unity_path is Some { file.unity_path } else { before.unity_path })
    &&& after.unity_assemblies_path == (if file.unity_assemblies_path is Some { file.unity_assemblies_path } else { before.unity_assemblies_path })
    &&& after.extract_il2cpp_files == (file.extract_il2cpp_files || before.extract_il2cpp_files)
}

/// How one tool's file-loaded options rewrite a pre-populated option set:
/// a value that differs from the tool's default wins, every other field
/// keeps what the caller put there; `url` and `binary_name` are never
/// merged, they are read directly where a tool is fetched or extracted.
pub open spec fn flatc_merged(file: FlatCOptions, before: FlatCOptions, after: FlatCOptions) -> bool {
    &&& after.url == before.url
    &&& after.binary_name == before.binary_name
    &&& after.languages@ == (if file.languages@.len() > 0 { file.languages@ } else { before.languages@ })
    &&& after.grpc == (file.grpc || before.grpc)
    &&& after.output_path == (if file.output_path is Some { file.output_path } else { before.output_path })
    &&& after.include_paths@ == (if file.include_paths@.len() > 0 { file.include_paths@ } else { before.include_paths@ })
    &&& after.binary == (file.binary || before.binary)
    &&& after.json == (file.json || before.json)
    &&& after.jsonschema == (file.jsonschema || before.jsonschema)
    &&& after.strict_json == (file.strict_json || before.strict_json)
    &&& after.allow_non_utf8 == (file.allow_non_utf8 || before.allow_non_utf8)
    &&& after.natural_utf8 == (file.natural_utf8 || before.natural_utf8)
    &&& after.defaults_json == (file.defaults_json || before.defaults_json)
    &&& after.unknown_json == (file.unknown_json || before.unknown_json)
    &&& after.no_prefix == (file.no_prefix || before.no_prefix)
    &&& after.scoped_enums == (file.scoped_enums || before.scoped_enums)
    &&& after.no_emit_min_max_enum_values == (file.no_emit_min_max_enum_values || before.no_emit_min_max_enum_values)
    &&& after.swift_implementation_only == (file.swift_implementation_only || before.swift_implementation_only)
    &&& after.no_includes == (file.no_includes || before.no_includes)
    &&& after.gen_mutable == (file.gen_mutable || before.gen_mutable)
    &&& after.gen_onefile == (file.gen_onefile || before.gen_onefile)
    &&& after.gen_name_strings == (file.gen_name_strings || before.gen_name_strings)
    &&& after.gen_object_api == (file.gen_object_api || before.gen_object_api)
    &&& after.gen_compare == (file.gen_compare || before.gen_compare)
    &&& after.gen_nullable == (file.gen_nullable || before.gen_nullable)
    &&& after.java_package_prefix == (if file.java_package_prefix is Some { file.java_package_prefix } else { before.java_package_prefix })
    &&& after.java_checkerframework == (file.java_checkerframework || before.java_checkerframework)
    &&& after.gen_generated == (file.gen_generated || before.gen_generated)
    &&& after.gen_jvmstatic == (file.gen_jvmstatic || before.gen_jvmstatic)
    &&& after.gen_all == (file.gen_all || before.gen_all)
    &&& after.gen_json_emit == (file.gen_json_emit || before.gen_json_emit)
    &&& after.cpp_include@ == (if file.cpp_include@.len() > 0 { file.cpp_include@ } else { before.cpp_include@ })
    &&& after.cpp_ptr_type == (if file.cpp_ptr_type is Some { file.cpp_ptr_type } else { before.cpp_ptr_type })
    &&& after.cpp_str_type == (if file.cpp_str_type is Some { file.cpp_str_type } else { before.cpp_str_type })
    &&& after.cpp_str_flex_ctor == (file.cpp_str_flex_ctor || before.cpp_str_flex_ctor)
    &&& after.cpp_field_case_style == (if file.cpp_field_case_style is Some { file.cpp_field_case_style } else { before.cpp_field_case_style })
    &&& after.no_cpp_direct_copy == (file.no_cpp_direct_copy || before.no_cpp_direct_copy)
    &&& after.cpp_std == (if file.cpp_std is Some { file.cpp_std } else { before.cpp_std })
    &&& after.cpp_static_reflection == (file.cpp_static_reflection || before.cpp_static_reflection)
    &&& after.object_prefix == (if file.object_prefix is Some { file.object_prefix } else { before.object_prefix })
    &&& after.object_suffix == (if file.object_suffix is Some { file.object_suffix } else { before.object_suffix })
    &&& after.go_namespace == (if file.go_namespace is Some { file.go_namespace } else { before.go_namespace })
    &&& after.go_import == (if file.go_import is Some { file.go_import } else { before.go_import })
    &&& after.go_module_name == (if file.go_module_name is Some { file.go_module_name } else { before.go_module_name })
    &&& after.raw_binary == (file.raw_binary || before.raw_binary)
    &&& after.size_prefixed == (file.size_prefixed || before.size_prefixed)
    &&& after.proto == (file.proto || before.proto)
    &&& after.proto_namespace_suffix == (if file.proto_namespace_suffix is Some { file.proto_namespace_suffix } else { before.proto_namespace_suffix })
    &&& after.oneof_union == (file.oneof_union || before.oneof_union)
    &&& after.keep_proto_id == (file.keep_proto_id || before.keep_proto_id)
    &&& after.proto_id_gap == (if file.proto_id_gap is Some { file.proto_id_gap } else { before.proto_id_gap })
    &&& after.schema == (file.schema || before.schema)
    &&& after.bfbs_filenames == (if file.bfbs_filenames is Some { file.bfbs_filenames } else { before.bfbs_filenames })
    &&& after.bfbs_absolute_paths == (file.bfbs_absolute_paths || before.bfbs_absolute_paths)
    &&& after.bfbs_comments == (file.bfbs_comments || before.bfbs_comments)
    &&& after.bfbs_builtins == (file.bfbs_builtins || before.bfbs_builtins)
    &&& after.bfbs_gen_embed == (file.bfbs_gen_embed || before.bfbs_gen_embed)
    &&& after.conform == (if file.conform is Some { file.conform } else { before.conform })
    &&& after.conform_includes@ == (if file.conform_includes@.len() > 0 { file.conform_includes@ } else { before.conform_includes@ })
    &&& after.filename_suffix == (if file.filename_suffix is Some { file.filename_suffix } else { before.filename_suffix })
    &&& after.filename_ext == (if file.filename_ext is Some { file.filename_ext } else { before.filename_ext })
    &&& after.include_prefix == (if file.include_prefix is Some { file.include_prefix } else { before.include_prefix })
    &&& after.keep_prefix == (file.keep_prefix || before.keep_prefix)
    &&& after.reflect_types == (file.reflect_types || before.reflect_types)
    &&& after.reflect_names == (file.reflect_names || before.reflect_names)
    &&& after.rust_serialize == (file.rust_serialize || before.rust_serialize)
    &&& after.rust_module_root_file == (file.rust_module_root_file || before.rust_module_root_file)
    &&& after.root_type == (if file.root_type is Some { file.root_type } else { before.root_type })
    &&& after.require_explicit_ids == (file.require_explicit_ids || before.require_explicit_ids)
    &&& after.force_defaults == (file.force_defaults || before.force_defaults)
    &&& after.force_empty == (file.force_empty || before.force_empty)
    &&& after.force_empty_vectors == (file.force_empty_vectors || before.force_empty_vectors)
    &&& after.flexbuffers == (file.flexbuffers || before.flexbuffers)
    &&& after.no_warnings == (file.no_warnings || before.no_warnings)
    &&& after.warnings_as_errors == (file.warnings_as_errors || before.warnings_as_errors)
    &&& after.cs_global_alias == (file.cs_global_alias || before.cs_global_alias)
    &&& after.cs_gen_json_serializer == (file.cs_gen_json_serializer || before.cs_gen_json_serializer)
    &&& after.json_nested_bytes == (file.json_nested_bytes || before.json_nested_bytes)
    &&& after.ts_flat_files == (file.ts_flat_files || before.ts_flat_files)
    &&& after.ts_entry_points == (file.ts_entry_points || before.ts_entry_points)
    &&& after.annotate_sparse_vectors == (file.annotate_sparse_vectors || before.annotate_sparse_vectors)
    &&& after.annotate == (if file.annotate is Some { file.annotate } else { before.annotate })
    &&& after.no_leak_private_annotation == (file.no_leak_private_annotation || before.no_leak_private_annotation)
    &&& after.python_no_type_prefix_suffix == (file.python_no_type_prefix_suffix || before.python_no_type_prefix_suffix)
    &&& after.python_typing == (file.python_typing || before.python_typing)
    &&& after.python_version == (if file.python_version is Some { file.python_version } else { before.python_version })
    &&& after.python_gen_numpy == (file.python_gen_numpy || before.python_gen_numpy)
    &&& after.ts_omit_entrypoint == (file.ts_omit_entrypoint || before.ts_omit_entrypoint)
    &&& after.file_names_only == (file.file_names_only || before.file_names_only)
    &&& after.grpc_filename_suffix == (if file.grpc_filename_suffix is Some { file.grpc_filename_suffix } else { before.grpc_filename_suffix })
    &&& after.grpc_additional_header@ == (if file.grpc_additional_header@.len() > 0 { file.grpc_additional_header@ } else { before.grpc_additional_header@ })
    &&& after.grpc_search_path == (if file.grpc_search_path is Some { file.grpc_search_path } else { before.grpc_search_path })
    &&& after.grpc_use_system_headers == (file.grpc_use_system_headers || before.grpc_use_system_headers)
    &&& after.grpc_python_typed_handlers == (file.grpc_python_typed_handlers || before.grpc_python_typed_handlers)
}

impl Config {
    /// Decides which configuration file a run reads. An explicitly named file
    /// must exist; without one, the conventional file is used when present,
    /// and the built-in defaults otherwise.
    pub fn resolve_config_path(
        custom: &Option<String>,
        custom_exists: bool,
        default_exists: bool,
    ) -> (r: Result<Option<String>, Error>)
        ensures
            custom matches Some(p) ==> (if custom_exists {
                r matches Ok(o) && o matches Some(q) && q@ == p@
            } else {
                r matches Err(e) && e matches Error::ConfigNotFound(q) && q@ == p@
            }),
            (custom is None && default_exists) ==> (r matches Ok(o) && o matches Some(q) && q@
                == DEFAULT_CONFIG_FILE@),
            (custom is None && !default_exists) ==> (r matches Ok(o) && o is None),
    {
        match custom {
            Option::Some(p) => {
                if !custom_exists {
                    Result::Err(Error::ConfigNotFound(p.clone()))
                } else {
                    Result::Ok(Option::Some(p.clone()))
                }
            },
            Option::None => {
                if default_exists {
                    Result::Ok(Option::Some(DEFAULT_CONFIG_FILE.to_owned()))
                } else {
                    Result::Ok(Option::None)
                }
            },
        }
    }

    /// Overwrites every option that the loaded file sets away from the
    /// tool's default; all other fields keep their current values.
    pub fn merge_fbs_dumper_config(&self, options: &mut FbsDumperOptions)
        ensures
            fbs_merged(self.fbs_dumper, *old(options), *final(options)),
    {
        let merged = FbsDumperOptions {
            url: clone_opt_string(&options.url),
            binary_name: clone_opt_string(&options.binary_name),
            dummy_dll: if !self.fbs_dumper.dummy_dll.as_str().is_empty() {
                self.fbs_dumper.dummy_dll.clone()
            } else {
                options.dummy_dll.clone()
            },
            game_assembly: if self.fbs_dumper.game_assembly.is_some() {
                clone_opt_string(&self.fbs_dumper.game_assembly)
            } else {
                clone_opt_string(&options.game_assembly)
            },
            output_file: if self.fbs_dumper.output_file.is_some() {
                clone_opt_string(&self.fbs_dumper.output_file)
            } else {
                clone_opt_string(&options.output_file)
            },
            namespace: if self.fbs_dumper.namespace.is_some() {
                clone_opt_string(&self.fbs_dumper.namespace)
            } else {
                clone_opt_string(&options.namespace)
            },
            force_snake_case: self.fbs_dumper.force_snake_case || options.force_snake_case,
            namespace_to_look_for: if self.fbs_dumper.namespace_to_look_for.is_some() {
                clone_opt_string(&self.fbs_dumper.namespace_to_look_for)
            } else {
                clone_opt_string(&options.namespace_to_look_for)
            },
            force: self.fbs_dumper.force || options.force,
            verbose: self.fbs_dumper.verbose || options.verbose,
            suppress_warnings: self.fbs_dumper.suppress_warnings || options.suppress_warnings,
        };
        *options = merged;
    }

    /// Overwrites every option that the loaded file sets away from the
    /// tool's default; all other fields keep their current values.
    #[verifier::rlimit(100)]
    pub fn merge_flatc_config(&self, options: &mut FlatCOptions)
        ensures
            flatc_merged(self.flatc, *old(options), *final(options)),
    {
        let merged = FlatCOptions {
            url: clone_opt_string(&options.url),
            binary_name: clone_opt_string(&options.binary_name),
            languages: if self.flatc.languages.len() > 0 {
                clone_vec_lang(&self.flatc.languages)
            } else {
                clone_vec_lang(&options.languages)
            },
            grpc: self.flatc.grpc || options.grpc,
            output_path: if self.flatc.output_path.is_some() {
                clone_opt_string(&self.flatc.output_path)
            } else {
                clone_opt_string(&options.output_path)
            },
            include_paths: if self.flatc.include_paths.len() > 0 {
                clone_vec_string(&self.flatc.include_paths)
            } else {
                clone_vec_string(&options.include_paths)
            },
            binary: self.flatc.binary || options.binary,
            json: self.flatc.json || options.json,
            jsonschema: self.flatc.jsonschema || options.jsonschema,
            strict_json: self.flatc.strict_json || options.strict_json,
            allow_non_utf8: self.flatc.allow_non_utf8 || options.allow_non_utf8,
            natural_utf8: self.flatc.natural_utf8 || options.natural_utf8,
            defaults_json: self.flatc.defaults_json || options.defaults_json,
            unknown_json: self.flatc.unknown_json || options.unknown_json,
            no_prefix: self.flatc.no_prefix || options.no_prefix,
            scoped_enums: self.flatc.scoped_enums || options.scoped_enums,
            no_emit_min_max_enum_values: self.flatc.no_emit_min_max_enum_values || options.no_emit_min_max_enum_values,
            swift_implementation_only: self.flatc.swift_implementation_only || options.swift_implementation_only,
            no_includes: self.flatc.no_includes || options.no_includes,
            gen_mutable: self.flatc.gen_mutable || options.gen_mutable,
            gen_onefile: self.flatc.gen_onefile || options.gen_onefile,
            gen_name_strings: self.flatc.gen_name_strings || options.gen_name_strings,
            gen_object_api: self.flatc.gen_object_api || options.gen_object_api,
            gen_compare: self.flatc.gen_compare || options.gen_compare,
            gen_nullable: self.flatc.gen_nullable || options.gen_nullable,
            java_package_prefix: if self.flatc.java_package_prefix.is_some() {
                clone_opt_string(&self.flatc.java_package_prefix)
            } else {
                clone_opt_string(&options.java_package_prefix)
            },
            java_checkerframework: self.flatc.java_checkerframework || options.java_checkerframework,
            gen_generated: self.flatc.gen_generated || options.gen_generated,
            gen_jvmstatic: self.flatc.gen_jvmstatic || options.gen_jvmstatic,
            gen_all: self.flatc.gen_all || options.gen_all,
            gen_json_emit: self.flatc.gen_json_emit || options.gen_json_emit,
            cpp_include: if self.flatc.cpp_include.len() > 0 {
                clone_vec_string(&self.flatc.cpp_include)
            } else {
                clone_vec_string(&options.cpp_include)
            },
            cpp_ptr_type: if self.flatc.cpp_ptr_type.is_some() {
                clone_opt_string(&self.flatc.cpp_ptr_type)
            } else {
                clone_opt_string(&options.cpp_ptr_type)
            },
            cpp_str_type: if self.flatc.cpp_str_type.is_some() {
                clone_opt_string(&self.flatc.cpp_str_type)
            } else {
                clone_opt_string(&options.cpp_str_type)
            },
            cpp_str_flex_ctor: self.flatc.cpp_str_flex_ctor || options.cpp_str_flex_ctor,
            cpp_field_case_style: if self.flatc.cpp_field_case_style.is_some() {
                clone_opt_string(&self.flatc.cpp_field_case_style)
            } else {
                clone_opt_string(&options.cpp_field_case_style)
            },
            no_cpp_direct_copy: self.flatc.no_cpp_direct_copy || options.no_cpp_direct_copy,
            cpp_std: if self.flatc.cpp_std.is_some() {
                self.flatc.cpp_std
            } else {
                options.cpp_std
            },
            cpp_static_reflection: self.flatc.cpp_static_reflection || options.cpp_static_reflection,
            object_prefix: if self.flatc.object_prefix.is_some() {
                clone_opt_string(&self.flatc.object_prefix)
            } else {
                clone_opt_string(&options.object_prefix)
            },
            object_suffix: if self.flatc.object_suffix.is_some() {
                clone_opt_string(&self.flatc.object_suffix)
            } else {
                clone_opt_string(&options.object_suffix)
            },
            go_namespace: if self.flatc.go_namespace.is_some() {
                clone_opt_string(&self.flatc.go_namespace)
            } else {
                clone_opt_string(&options.go_namespace)
            },
            go_import: if self.flatc.go_import.is_some() {
                clone_opt_string(&self.flatc.go_import)
            } else {
                clone_opt_string(&options.go_import)
            },
            go_module_name: if self.flatc.go_module_name.is_some() {
                clone_opt_string(&self.flatc.go_module_name)
            } else {
                clone_opt_string(&options.go_module_name)
            },
            raw_binary: self.flatc.raw_binary || options.raw_binary,
            size_prefixed: self.flatc.size_prefixed || options.size_prefixed,
            proto: self.flatc.proto || options.proto,
            proto_namespace_suffix: if self.flatc.proto_namespace_suffix.is_some() {
                clone_opt_string(&self.flatc.proto_namespace_suffix)
            } else {
                clone_opt_string(&options.proto_namespace_suffix)
            },
            oneof_union: self.flatc.oneof_union || options.oneof_union,
            keep_proto_id: self.flatc.keep_proto_id || options.keep_proto_id,
            proto_id_gap: if self.flatc.proto_id_gap.is_some() {
                clone_opt_string(&self.flatc.proto_id_gap)
            } else {
                clone_opt_string(&options.proto_id_gap)
            },
            schema: self.flatc.schema || options.schema,
            bfbs_filenames: if self.flatc.bfbs_filenames.is_some() {
                clone_opt_string(&self.flatc.bfbs_filenames)
            } else {
                clone_opt_string(&options.bfbs_filenames)
            },
            bfbs_absolute_paths: self.flatc.bfbs_absolute_paths || options.bfbs_absolute_paths,
            bfbs_comments: self.flatc.bfbs_comments || options.bfbs_comments,
            bfbs_builtins: self.flatc.bfbs_builtins || options.bfbs_builtins,
            bfbs_gen_embed: self.flatc.bfbs_gen_embed || options.bfbs_gen_embed,
            conform: if self.flatc.conform.is_some() {
                clone_opt_string(&self.flatc.conform)
            } else {
                clone_opt_string(&options.conform)
            },
            conform_includes: if self.flatc.conform_includes.len() > 0 {
                clone_vec_string(&self.flatc.conform_includes)
            } else {
                clone_vec_string(&options.conform_includes)
            },
            filename_suffix: if self.flatc.filename_suffix.is_some() {
                clone_opt_string(&self.flatc.filename_suffix)
            } else {
                clone_opt_string(&options.filename_suffix)
            },
            filename_ext: if self.flatc.filename_ext.is_some() {
                clone_opt_string(&self.flatc.filename_ext)
            } else {
                clone_opt_string(&options.filename_ext)
            },
            include_prefix: if self.flatc.include_prefix.is_some() {
                clone_opt_string(&self.flatc.include_prefix)
            } else {
                clone_opt_string(&options.include_prefix)
            },
            keep_prefix: self.flatc.keep_prefix || options.keep_prefix,
            reflect_types: self.flatc.reflect_types || options.reflect_types,
            reflect_names: self.flatc.reflect_names || options.reflect_names,
            rust_serialize: self.flatc.rust_serialize || options.rust_serialize,
            rust_module_root_file: self.flatc.rust_module_root_file || options.rust_module_root_file,
            root_type: if self.flatc.root_type.is_some() {
                clone_opt_string(&self.flatc.root_type)
            } else {
                clone_opt_string(&options.root_type)
            },
            require_explicit_ids: self.flatc.require_explicit_ids || options.require_explicit_ids,
            force_defaults: self.flatc.force_defaults || options.force_defaults,
            force_empty: self.flatc.force_empty || options.force_empty,
            force_empty_vectors: self.flatc.force_empty_vectors || options.force_empty_vectors,
            flexbuffers: self.flatc.flexbuffers || options.flexbuffers,
            no_warnings: self.flatc.no_warnings || options.no_warnings,
            warnings_as_errors: self.flatc.warnings_as_errors || options.warnings_as_errors,
            cs_global_alias: self.flatc.cs_global_alias || options.cs_global_alias,
            cs_gen_json_serializer: self.flatc.cs_gen_json_serializer || options.cs_gen_json_serializer,
            json_nested_bytes: self.flatc.json_nested_bytes || options.json_nested_bytes,
            ts_flat_files: self.flatc.ts_flat_files || options.ts_flat_files,
            ts_entry_points: self.flatc.ts_entry_points || options.ts_entry_points,
            annotate_sparse_vectors: self.flatc.annotate_sparse_vectors || options.annotate_sparse_vectors,
            annotate: if self.flatc.annotate.is_some() {
                clone_opt_string(&self.flatc.annotate)
            } else {
                clone_opt_string(&options.annotate)
            },
            no_leak_private_annotation: self.flatc.no_leak_private_annotation || options.no_leak_private_annotation,
            python_no_type_prefix_suffix: self.flatc.python_no_type_prefix_suffix || options.python_no_type_prefix_suffix,
            python_typing: self.flatc.python_typing || options.python_typing,
            python_version: if self.flatc.python_version.is_some() {
                clone_opt_string(&self.flatc.python_version)
            } else {
                clone_opt_string(&options.python_version)
            },
            python_gen_numpy: self.flatc.python_gen_numpy || options.python_gen_numpy,
            ts_omit_entrypoint: self.flatc.ts_omit_entrypoint || options.ts_omit_entrypoint,
            file_names_only: self.flatc.file_names_only || options.file_names_only,
            grpc_filename_suffix: if self.flatc.grpc_filename_suffix.is_some() {
                clone_opt_string(&self.flatc.grpc_filename_suffix)
            } else {
                clone_opt_string(&options.grpc_filename_suffix)
            },
            grpc_additional_header: if self.flatc.grpc_additional_header.len() > 0 {
                clone_vec_string(&self.flatc.grpc_additional_header)
            } else {
                clone_vec_string(&options.grpc_additional_header)
            },
            grpc_search_path: if self.flatc.grpc_search_path.is_some() {
                clone_opt_string(&self.flatc.grpc_search_path)
            } else {
                clone_opt_string(&options.grpc_search_path)
            },
            grpc_use_system_headers: self.flatc.grpc_use_system_headers || options.grpc_use_system_headers,
            grpc_python_typed_handlers: self.flatc.grpc_python_typed_handlers || options.grpc_python_typed_handlers,
        };
        *options = merged;
    }

    /// Overwrites every option that the loaded file sets away from the
    /// tool's default; all other fields keep their current values.
    pub fn merge_il2cpp_dumper_config(&self, options: &mut Il2CppDumperOptions)
        ensures
            il2cpp_merged(self.il2cpp_dumper, *old(options), *final(options)),
    {
        let merged = Il2CppDumperOptions {
            url: clone_opt_string(&options.url),
            binary_name: clone_opt_string(&options.binary_name),
            il2cpp: if !self.il2cpp_dumper.il2cpp.as_str().is_empty() {
                self.il2cpp_dumper.il2cpp.clone()
            } else {
                options.il2cpp.clone()
            },
            metadata: if self.il2cpp_dumper.metadata.is_some() {
                clone_opt_string(&self.il2cpp_dumper.metadata)
            } else {
                clone_opt_string(&options.metadata)
            },
            output: if self.il2cpp_dumper.output.is_some() {
                clone_opt_string(&self.il2cpp_dumper.output)
            } else {
                clone_opt_string(&options.output)
            },
            unity_version: if self.il2cpp_dumper.unity_version.is_some() {
                clone_opt_string(&self.il2cpp_dumper.unity_version)
            } else {
                clone_opt_string(&options.unity_version)
            },
            compiler_type: if self.il2cpp_dumper.compiler_type.is_some() {
                clone_opt_string(&self.il2cpp_dumper.compiler_type)
            } else {
                clone_opt_string(&options.compiler_type)
            },
            output_csharp_stub: self.il2cpp_dumper.output_csharp_stub || options.output_csharp_stub,
            layout: if self.il2cpp_dumper.layout.is_some() {
                clone_opt_string(&self.il2cpp_dumper.layout)
            } else {
                clone_opt_string(&options.layout)
            },
            flatten_hierarchy: self.il2cpp_dumper.flatten_hierarchy || options.flatten_hierarchy,
            output_disassembler_metadata: self.il2cpp_dumper.output_disassembler_metadata || options.output_disassembler_metadata,
            disassembler: if self.il2cpp_dumper.disassembler.is_some() {
                clone_opt_string(&self.il2cpp_dumper.disassembler)
            } else {
                clone_opt_string(&options.disassembler)
            },
            output_cpp_scaffolding: self.il2cpp_dumper.output_cpp_scaffolding || options.output_cpp_scaffolding,
            sorting_mode: if self.il2cpp_dumper.sorting_mode.is_some() {
                clone_opt_string(&self.il2cpp_dumper.sorting_mode)
            } else {
                clone_opt_string(&options.sorting_mode)
            },
            suppress_metadata: self.il2cpp_dumper.suppress_metadata || options.suppress_metadata,
            compilable: self.il2cpp_dumper.compilable || options.compilable,
            separate_assembly_attributes: self.il2cpp_dumper.separate_assembly_attributes || options.separate_assembly_attributes,
            output_dummy_dlls: self.il2cpp_dumper.output_dummy_dlls || options.output_dummy_dlls,
            output_vs_solution: self.il2cpp_dumper.output_vs_solution || options.output_vs_solution,
            unity_path: if self.il2cpp_dumper.unity_path.is_some() {
                clone_opt_string(&self.il2cpp_dumper.unity_path)
            } else {
                clone_opt_string(&options.unity_path)
            },
            unity_assemblies_path: if self.il2cpp_dumper.unity_assemblies_path.is_some() {
                clone_opt_string(&self.il2cpp_dumper.unity_assemblies_path)
            } else {
                clone_opt_string(&options.unity_assemblies_path)
            },
            extract_il2cpp_files: self.il2cpp_dumper.extract_il2cpp_files || options.extract_il2cpp_files,
        };
        *options = merged;
    }
}

/// A field set in the loaded file away from the tool's default always wins
/// over whatever the option set already held, while `url` and `binary_name`
/// are left untouched by a merge.
pub proof fn lemma_fbs_merge_precedence(file: FbsDumperOptions, before: FbsDumperOptions, after: FbsDumperOptions)
    requires
        fbs_merged(file, before, after),
    ensures
        after.url == before.url,
        after.binary_name == before.binary_name,
        file.dummy_dll@.len() > 0 ==> after.dummy_dll@ == file.dummy_dll@,
        file.game_assembly is Some ==> after.game_assembly == file.game_assembly,
        file.output_file is Some ==> after.output_file == file.output_file,
        file.namespace is Some ==> after.namespace == file.namespace,
        file.force_snake_case ==> after.force_snake_case,
        file.namespace_to_look_for is Some ==> after.namespace_to_look_for == file.namespace_to_look_for,
        file.force ==> after.force,
        file.verbose ==> after.verbose,
        file.suppress_warnings ==> after.suppress_warnings,
{
}

/// A field set in the loaded file away from the tool's default always wins
/// over whatever the option set already held, while `url` and `binary_name`
/// are left untouched by a merge.
pub proof fn lemma_il2cpp_merge_precedence(file: Il2CppDumperOptions, before: Il2CppDumperOptions, after: Il2CppDumperOptions)
    requires
        il2cpp_merged(file, before, after),
    ensures
        after.url == before.url,
        after.binary_name == before.binary_name,
        file.il2cpp@.len() > 0 ==> after.il2cpp@ == file.il2cpp@,
        file.metadata is Some ==> after.metadata == file.metadata,
        file.output is Some ==> after.output == file.output,
        file.unity_version is Some ==> after.unity_version == file.unity_version,
        file.compiler_type is Some ==> after.compiler_type == file.compiler_type,
        file.output_csharp_stub ==> after.output_csharp_stub,
        file.layout is Some ==> after.layout == file.layout,
        file.flatten_hierarchy ==> after.flatten_hierarchy,
        file.output_disassembler_metadata ==> after.output_disassembler_metadata,
        file.disassembler is Some ==> after.disassembler == file.disassembler,
        file.output_cpp_scaffolding ==> after.output_cpp_scaffolding,
        file.sorting_mode is Some ==> after.sorting_mode == file.sorting_mode,
        file.suppress_metadata ==> after.suppress_metadata,
        file.compilable ==> after.compilable,
        file.separate_assembly_attributes ==> after.separate_assembly_attributes,
        file.output_dummy_dlls ==> after.output_dummy_dlls,
        file.output_vs_solution ==> after.output_vs_solution,
        file.unity_path is Some ==> after.unity_path == file.unity_path,
        file.unity_assemblies_path is Some ==> after.unity_assemblies_path == file.unity_assemblies_path,
        file.extract_il2cpp_files ==> after.extract_il2cpp_files,
{
}

/// A field set in the loaded file away from the tool's default always wins
/// over whatever the option set already held, while `url` and `binary_name`
/// are left untouched by a merge.
pub proof fn lemma_flatc_merge_precedence(file: FlatCOptions, before: FlatCOptions, after: FlatCOptions)
    requires
        flatc_merged(file, before, after),
    ensures
        after.url == before.url,
        after.binary_name == before.binary_name,
        file.languages@.len() > 0 ==> after.languages@ == file.languages@,
        file.grpc ==> after.grpc,
        file.output_path is Some ==> after.output_path == file.output_path,
        file.include_paths@.len() > 0 ==> after.include_paths@ == file.include_paths@,
        file.binary ==> after.binary,
        file.json ==> after.json,
        file.jsonschema ==> after.jsonschema,
        file.strict_json ==> after.strict_json,
        file.allow_non_utf8 ==> after.allow_non_utf8,
        file.natural_utf8 ==> after.natural_utf8,
        file.defaults_json ==> after.defaults_json,
        file.unknown_json ==> after.unknown_json,
        file.no_prefix ==> after.no_prefix,
        file.scoped_enums ==> after.scoped_enums,
        file.no_emit_min_max_enum_values ==> after.no_emit_min_max_enum_values,
        file.swift_implementation_only ==> after.swift_implementation_only,
        file.no_includes ==> after.no_includes,
        file.gen_mutable ==> after.gen_mutable,
        file.gen_onefile ==> after.gen_onefile,
        file.gen_name_strings ==> after.gen_name_strings,
        file.gen_object_api ==> after.gen_object_api,
        file.gen_compare ==> after.gen_compare,
        file.gen_nullable ==> after.gen_nullable,
        file.java_package_prefix is Some ==> after.java_package_prefix == file.java_package_prefix,
        file.java_checkerframework ==> after.java_checkerframework,
        file.gen_generated ==> after.gen_generated,
        file.gen_jvmstatic ==> after.gen_jvmstatic,
        file.gen_all ==> after.gen_all,
        file.gen_json_emit ==> after.gen_json_emit,
        file.cpp_include@.len() > 0 ==> after.cpp_include@ == file.cpp_include@,
        file.cpp_ptr_type is Some ==> after.cpp_ptr_type == file.cpp_ptr_type,
        file.cpp_str_type is Some ==> after.cpp_str_type == file.cpp_str_type,
        file.cpp_str_flex_ctor ==> after.cpp_str_flex_ctor,
        file.cpp_field_case_style is Some ==> after.cpp_field_case_style == file.cpp_field_case_style,
        file.no_cpp_direct_copy ==> after.no_cpp_direct_copy,
        file.cpp_std is Some ==> after.cpp_std == file.cpp_std,
        file.cpp_static_reflection ==> after.cpp_static_reflection,
        file.object_prefix is Some ==> after.object_prefix == file.object_prefix,
        file.object_suffix is Some ==> after.object_suffix == file.object_suffix,
        file.go_namespace is Some ==> after.go_namespace == file.go_namespace,
        file.go_import is Some ==> after.go_import == file.go_import,
        file.go_module_name is Some ==> after.go_module_name == file.go_module_name,
        file.raw_binary ==> after.raw_binary,
        file.size_prefixed ==> after.size_prefixed,
        file.proto ==> after.proto,
        file.proto_namespace_suffix is Some ==> after.proto_namespace_suffix == file.proto_namespace_suffix,
        file.oneof_union ==> after.oneof_union,
        file.keep_proto_id ==> after.keep_proto_id,
        file.proto_id_gap is Some ==> after.proto_id_gap == file.proto_id_gap,
        file.schema ==> after.schema,
        file.bfbs_filenames is Some ==> after.bfbs_filenames == file.bfbs_filenames,
        file.bfbs_absolute_paths ==> after.bfbs_absolute_paths,
        file.bfbs_comments ==> after.bfbs_comments,
        file.bfbs_builtins ==> after.bfbs_builtins,
        file.bfbs_gen_embed ==> after.bfbs_gen_embed,
        file.conform is Some ==> after.conform == file.conform,
        file.conform_includes@.len() > 0 ==> after.conform_includes@ == file.conform_includes@,
        file.filename_suffix is Some ==> after.filename_suffix == file.filename_suffix,
        file.filename_ext is Some ==> after.filename_ext == file.filename_ext,
        file.include_prefix is Some ==> after.include_prefix == file.include_prefix,
        file.keep_prefix ==> after.keep_prefix,
        file.reflect_types ==> after.reflect_types,
        file.reflect_names ==> after.reflect_names,
        file.rust_serialize ==> after.rust_serialize,
        file.rust_module_root_file ==> after.rust_module_root_file,
        file.root_type is Some ==> after.root_type == file.root_type,
        file.require_explicit_ids ==> after.require_explicit_ids,
        file.force_defaults ==> after.force_defaults,
        file.force_empty ==> after.force_empty,
        file.force_empty_vectors ==> after.force_empty_vectors,
        file.flexbuffers ==> after.flexbuffers,
        file.no_warnings ==> after.no_warnings,
        file.warnings_as_errors ==> after.warnings_as_errors,
        file.cs_global_alias ==> after.cs_global_alias,
        file.cs_gen_json_serializer ==> after.cs_gen_json_serializer,
        file.json_nested_bytes ==> after.json_nested_bytes,
        file.ts_flat_files ==> after.ts_flat_files,
        file.ts_entry_points ==> after.ts_entry_points,
        file.annotate_sparse_vectors ==> after.annotate_sparse_vectors,
        file.annotate is Some ==> after.annotate == file.annotate,
        file.no_leak_private_annotation ==> after.no_leak_private_annotation,
        file.python_no_type_prefix_suffix ==> after.python_no_type_prefix_suffix,
        file.python_typing ==> after.python_typing,
        file.python_version is Some ==> after.python_version == file.python_version,
        file.python_gen_numpy ==> after.python_gen_numpy,
        file.ts_omit_entrypoint ==> after.ts_omit_entrypoint,
        file.file_names_only ==> after.file_names_only,
        file.grpc_filename_suffix is Some ==> after.grpc_filename_suffix == file.grpc_filename_suffix,
        file.grpc_additional_header@.len() > 0 ==> after.grpc_additional_header@ == file.grpc_additional_header@,
        file.grpc_search_path is Some ==> after.grpc_search_path == file.grpc_search_path,
        file.grpc_use_system_headers ==> after.grpc_use_system_headers,
        file.grpc_python_typed_handlers ==> after.grpc_python_typed_handlers,
{
}

} // verus!
