//! The command handler: given the parsed arguments, the loaded configuration
//! and a snapshot of the cache, it decides the full sequence of steps a run
//! performs and the exact options each tool is run with. The surrounding
//! process carries the steps out in order and stops at the first failure.

use vstd::prelude::*;
use crate::Error;
use crate::cli::args::{Args, Commands, DumpTarget};
use crate::cli::config::Config;
use crate::text::concat_str;
use crate::wrappers::fbs_dumper::{FbsDumper, FbsDumperOptions};
use crate::wrappers::flatc::{FlatC, FlatCOptions, Language};
use crate::wrappers::il2cpp_dumper::{Il2CppDumper, Il2CppDumperOptions};

verus! {

/// A game-server region with its own APK and binaries.
#[derive(Debug, Clone, Copy, PartialEq, Eq, Structural)]
pub enum Region {
    Global,
    Japan,
}

/// The three external tools the pipeline fetches, extracts and runs.
#[derive(Debug, Clone, Copy, PartialEq, Eq, Structural)]
pub enum Tool {
    Il2CppDumper,
    FbsDumper,
    FlatC,
}

/// What is already on disk when a run starts: the downloaded tool archives,
/// the extracted tool binaries, and each region's game binaries.
#[derive(Debug, Clone, Copy, PartialEq, Eq, Structural)]
pub struct CacheState {
    pub il2cpp_zip: bool,
    pub fbs_zip: bool,
    pub flatc_zip: bool,
    pub il2cpp_bin: bool,
    pub fbs_bin: bool,
    pub flatc_bin: bool,
    pub libil2cpp_global: bool,
    pub metadata_global: bool,
    pub libil2cpp_japan: bool,
    pub metadata_japan: bool,
}

/// One step of a run, in execution order. Fetching is planned only where the
/// archive is missing or an update is forced; extraction carries its own
/// skip-or-extract decision at execution time.
#[derive(Debug, Clone, Copy, PartialEq, Eq, Structural)]
pub enum Step {
    ShowHelp,
    CleanTools,
    FetchApk { region: Region, forced: bool },
    ExtractIl2Cpp { region: Region },
    FetchTool { tool: Tool },
    ExtractTool { tool: Tool, forced: bool },
    RunIl2CppDump { region: Region },
    RunFbsDump { region: Region },
    RunFlatcGen,
}

/// Both of a region's game binaries are already extracted.
pub open spec fn il2cpp_ready(cache: CacheState, region: Region) -> bool {
    match region {
        Region::Global => cache.libil2cpp_global && cache.metadata_global,
        Region::Japan => cache.libil2cpp_japan && cache.metadata_japan,
    }
}

/// The region a dump subcommand names.
pub open spec fn region_of(target: DumpTarget) -> Region {
    match target {
        DumpTarget::Global { .. } => Region::Global,
        DumpTarget::Japan { .. } => Region::Japan,
    }
}

/// A dump: refresh the APK without forcing, extract the game binaries only
/// where one is missing, fetch the two dumpers only where their archives are
/// missing, extract both without forcing, then run them in order.
pub open spec fn dump_steps(region: Region, cache: CacheState) -> Seq<Step> {
    seq![Step::FetchApk { region, forced: false }] + (if !il2cpp_ready(cache, region) {
        seq![Step::ExtractIl2Cpp { region }]
    } else {
        seq![]
    }) + (if !cache.il2cpp_zip {
        seq![Step::FetchTool { tool: Tool::Il2CppDumper }]
    } else {
        seq![]
    }) + (if !cache.fbs_zip {
        seq![Step::FetchTool { tool: Tool::FbsDumper }]
    } else {
        seq![]
    }) + seq![
        Step::ExtractTool { tool: Tool::Il2CppDumper, forced: false },
        Step::ExtractTool { tool: Tool::FbsDumper, forced: false },
        Step::RunIl2CppDump { region },
        Step::RunFbsDump { region },
    ]
}

/// A generation: fetch the compiler only where its archive is missing,
/// extract it without forcing, then run it.
pub open spec fn generate_steps(cache: CacheState) -> Seq<Step> {
    (if !cache.flatc_zip {
        seq![Step::FetchTool { tool: Tool::FlatC }]
    } else {
        seq![]
    }) + seq![Step::ExtractTool { tool: Tool::FlatC, forced: false }, Step::RunFlatcGen]
}

/// A forced update: re-download both regions' APKs, re-download all three
/// tools, and re-extract all three regardless of the cache.
pub open spec fn update_steps() -> Seq<Step> {
    seq![
        Step::FetchApk { region: Region::Japan, forced: true },
        Step::FetchApk { region: Region::Global, forced: true },
        Step::FetchTool { tool: Tool::Il2CppDumper },
        Step::FetchTool { tool: Tool::FbsDumper },
        Step::FetchTool { tool: Tool::FlatC },
        Step::ExtractTool { tool: Tool::Il2CppDumper, forced: true },
        Step::ExtractTool { tool: Tool::FbsDumper, forced: true },
        Step::ExtractTool { tool: Tool::FlatC, forced: true },
    ]
}

/// The cache as a clean leaves it: the tools directory — archives and
/// extracted binaries — is gone, while the regions' game binaries live
/// elsewhere and stay.
pub open spec fn after_clean(cache: CacheState) -> CacheState {
    CacheState {
        il2cpp_zip: false,
        fbs_zip: false,
        flatc_zip: false,
        il2cpp_bin: false,
        fbs_bin: false,
        flatc_bin: false,
        ..cache
    }
}

/// The whole run. With nothing asked for, only the help text is shown.
/// Otherwise a requested clean comes first — and the remaining steps are
/// planned against the cache as the clean leaves it — then the subcommand's
/// steps, or the update steps when no subcommand but the update switch was
/// given.
pub open spec fn plan_spec(args: Args, cache: CacheState) -> Seq<Step> {
    if args.command is None && !args.update && !args.clean {
        seq![Step::ShowHelp]
    } else {
        let eff = if args.clean {
            after_clean(cache)
        } else {
            cache
        };
        (if args.clean {
            seq![Step::CleanTools]
        } else {
            seq![]
        }) + (match args.command {
            Option::Some(Commands::Dump { target }) => dump_steps(region_of(target), eff),
            Option::Some(Commands::Generate { .. }) => generate_steps(eff),
            Option::None => if args.update {
                update_steps()
            } else {
                seq![]
            },
        })
    }
}

/// The path a region's IL2CPP binary is extracted to, under the data root.
pub open spec fn il2cpp_lib_path(root: Seq<char>, region: Region) -> Seq<char> {
    root + (match region {
        Region::Global => "/il2cpp/global/libil2cpp.so"@,
        Region::Japan => "/il2cpp/japan/libil2cpp.so"@,
    })
}

/// The path a region's metadata file is extracted to, under the data root.
pub open spec fn metadata_path(root: Seq<char>, region: Region) -> Seq<char> {
    root + (match region {
        Region::Global => "/il2cpp/global/global-metadata.dat"@,
        Region::Japan => "/il2cpp/japan/global-metadata.dat"@,
    })
}

/// The namespace a region's schema dump is generated under.
pub open spec fn region_namespace(region: Region) -> Seq<char> {
    match region {
        Region::Global => "Global"@,
        Region::Japan => "Japan"@,
    }
}

/// Everything one run needs to decide with: the parsed arguments, the loaded
/// configuration, and the data root every cache path lives under.
pub struct CommandHandler {
    pub args: Args,
    pub config: Config,
    pub data_root: String,
}

impl CommandHandler {
    /// Binds a run to its arguments, configuration and data root.
    pub fn new(args: Args, config: Config, data_root: String) -> (r: Self)
        ensures
            r.args == args,
            r.config == config,
            r.data_root == data_root,
    {
        CommandHandler { args, config, data_root }
    }

    /// Decides the full sequence of steps for this run from a snapshot of
    /// the cache: exactly `plan_spec`.
    pub fn plan(&self, cache: &CacheState) -> (steps: Vec<Step>)
        ensures
            steps@ == plan_spec(self.args, *cache),
    {
        let mut steps: Vec<Step> = Vec::new();
        if self.args.command.is_none() && !self.args.update && !self.args.clean {
            steps.push(Step::ShowHelp);
            proof {
                assert(steps@ =~= plan_spec(self.args, *cache));
            }
            return steps;
        }
        let mut eff: CacheState = *cache;
        if self.args.clean {
            steps.push(Step::CleanTools);
            eff.il2cpp_zip = false;
            eff.fbs_zip = false;
            eff.flatc_zip = false;
            eff.il2cpp_bin = false;
            eff.fbs_bin = false;
            eff.flatc_bin = false;
            proof {
                assert(eff == after_clean(*cache));
            }
        }
        let ghost pre = steps@;
        let ghost effg = if self.args.clean {
            after_clean(*cache)
        } else {
            *cache
        };
        match &self.args.command {
            Option::Some(Commands::Dump { target }) => {
                let region = match target {
                    DumpTarget::Global { .. } => Region::Global,
                    DumpTarget::Japan { .. } => Region::Japan,
                };
                steps.push(Step::FetchApk { region, forced: false });
                let ready = match region {
                    Region::Global => eff.libil2cpp_global && eff.metadata_global,
                    Region::Japan => eff.libil2cpp_japan && eff.metadata_japan,
                };
                if !ready {
                    steps.push(Step::ExtractIl2Cpp { region });
                }
                if !eff.il2cpp_zip {
                    steps.push(Step::FetchTool { tool: Tool::Il2CppDumper });
                }
                if !eff.fbs_zip {
                    steps.push(Step::FetchTool { tool: Tool::FbsDumper });
                }
                steps.push(Step::ExtractTool { tool: Tool::Il2CppDumper, forced: false });
                steps.push(Step::ExtractTool { tool: Tool::FbsDumper, forced: false });
                steps.push(Step::RunIl2CppDump { region });
                steps.push(Step::RunFbsDump { region });
                proof {
                    assert(steps@ =~= pre + dump_steps(region, effg));
                    assert(steps@ =~= plan_spec(self.args, *cache));
                }
            },
            Option::Some(Commands::Generate { .. }) => {
                if !eff.flatc_zip {
                    steps.push(Step::FetchTool { tool: Tool::FlatC });
                }
                steps.push(Step::ExtractTool { tool: Tool::FlatC, forced: false });
                steps.push(Step::RunFlatcGen);
                proof {
                    assert(steps@ =~= pre + generate_steps(effg));
                    assert(steps@ =~= plan_spec(self.args, *cache));
                }
            },
            Option::None => {
                if self.args.update {
                    steps.push(Step::FetchApk { region: Region::Japan, forced: true });
                    steps.push(Step::FetchApk { region: Region::Global, forced: true });
                    steps.push(Step::FetchTool { tool: Tool::Il2CppDumper });
                    steps.push(Step::FetchTool { tool: Tool::FbsDumper });
                    steps.push(Step::FetchTool { tool: Tool::FlatC });
                    steps.push(Step::ExtractTool { tool: Tool::Il2CppDumper, forced: true });
                    steps.push(Step::ExtractTool { tool: Tool::FbsDumper, forced: true });
                    steps.push(Step::ExtractTool { tool: Tool::FlatC, forced: true });
                }
                proof {
                    assert(steps@ =~= plan_spec(self.args, *cache));
                }
            },
        }
        steps
    }

    /// A region's two extracted game-binary paths: the IL2CPP library and
    /// the metadata file.
    pub fn get_il2cpp_paths(&self, region: Region) -> (r: (String, String))
        ensures
            r.0@ == il2cpp_lib_path(self.data_root@, region),
            r.1@ == metadata_path(self.data_root@, region),
    {
        let lib = match region {
            Region::Global => concat_str(self.data_root.as_str(), "/il2cpp/global/libil2cpp.so"),
            Region::Japan => concat_str(self.data_root.as_str(), "/il2cpp/japan/libil2cpp.so"),
        };
        let meta = match region {
            Region::Global => concat_str(
                self.data_root.as_str(),
                "/il2cpp/global/global-metadata.dat",
            ),
            Region::Japan => concat_str(
                self.data_root.as_str(),
                "/il2cpp/japan/global-metadata.dat",
            ),
        };
        (lib, meta)
    }

    /// The options a dump runs the IL2CPP dumper with: the region's binaries
    /// and the output path are fixed for this run after the merge, so the
    /// loaded file can never overwrite them; the C# stub, dummy-DLL and
    /// disassembler-metadata outputs are always requested; the disassembler
    /// defaults to IDA with the file's choice winning; every other option
    /// comes straight from the loaded configuration.
    pub fn dump_il2cpp_options(&self, region: Region, output: &str) -> (o: Il2CppDumperOptions)
        ensures
            o.url is None,
            o.binary_name is None,
            o.il2cpp@ == il2cpp_lib_path(self.data_root@, region),
            o.metadata matches Some(m) && m@ == metadata_path(self.data_root@, region),
            o.output matches Some(p) && p@ == output@,
            o.output_csharp_stub,
            o.output_dummy_dlls,
            o.output_disassembler_metadata,
            self.config.il2cpp_dumper.disassembler is Some ==> o.disassembler
                == self.config.il2cpp_dumper.disassembler,
            self.config.il2cpp_dumper.disassembler is None ==> (o.disassembler matches Some(d)
                && d@ == "IDA"@),
            o.unity_version == self.config.il2cpp_dumper.unity_version,
            o.compiler_type == self.config.il2cpp_dumper.compiler_type,
            o.layout == self.config.il2cpp_dumper.layout,
            o.flatten_hierarchy == self.config.il2cpp_dumper.flatten_hierarchy,
            o.output_cpp_scaffolding == self.config.il2cpp_dumper.output_cpp_scaffolding,
            o.sorting_mode == self.config.il2cpp_dumper.sorting_mode,
            o.suppress_metadata == self.config.il2cpp_dumper.suppress_metadata,
            o.compilable == self.config.il2cpp_dumper.compilable,
            o.separate_assembly_attributes
                == self.config.il2cpp_dumper.separate_assembly_attributes,
            o.output_vs_solution == self.config.il2cpp_dumper.output_vs_solution,
            o.unity_path == self.config.il2cpp_dumper.unity_path,
            o.unity_assemblies_path == self.config.il2cpp_dumper.unity_assemblies_path,
            o.extract_il2cpp_files == self.config.il2cpp_dumper.extract_il2cpp_files,
    {
        let (lib, meta) = self.get_il2cpp_paths(region);
        let mut o = Il2CppDumperOptions::default();
        o.output_csharp_stub = true;
        o.output_dummy_dlls = true;
        o.output_disassembler_metadata = true;
        o.disassembler = Option::Some("IDA".to_owned());
        self.config.merge_il2cpp_dumper_config(&mut o);
        o.il2cpp = lib;
        o.metadata = Option::Some(meta);
        o.output = Option::Some(output.to_owned());
        o
    }

    /// The options a dump runs the schema dumper with: the dummy-DLL input,
    /// the game assembly and the output file are fixed for this run after
    /// the merge; the namespace defaults to the region's name with the
    /// file's choice winning; every other option comes straight from the
    /// loaded configuration.
    pub fn dump_fbs_options(&self, region: Region, output: &str) -> (o: FbsDumperOptions)
        ensures
            o.url is None,
            o.binary_name is None,
            o.dummy_dll@ == output@ + "/dll"@,
            o.game_assembly matches Some(g) && g@ == il2cpp_lib_path(self.data_root@, region),
            o.output_file matches Some(f) && f@ == output@ + "/BlueArchive.fbs"@,
            self.config.fbs_dumper.namespace is Some ==> o.namespace
                == self.config.fbs_dumper.namespace,
            self.config.fbs_dumper.namespace is None ==> (o.namespace matches Some(n) && n@
                == region_namespace(region)),
            o.force_snake_case == self.config.fbs_dumper.force_snake_case,
            o.namespace_to_look_for == self.config.fbs_dumper.namespace_to_look_for,
            o.force == self.config.fbs_dumper.force,
            o.verbose == self.config.fbs_dumper.verbose,
            o.suppress_warnings == self.config.fbs_dumper.suppress_warnings,
    {
        let (lib, _meta) = self.get_il2cpp_paths(region);
        let mut o = FbsDumperOptions::default();
        o.namespace = Option::Some(
            match region {
                Region::Global => "Global".to_owned(),
                Region::Japan => "Japan".to_owned(),
            },
        );
        self.config.merge_fbs_dumper_config(&mut o);
        o.dummy_dll = concat_str(output, "/dll");
        o.game_assembly = Option::Some(lib);
        o.output_file = Option::Some(concat_str(output, "/BlueArchive.fbs"));
        o
    }

    /// The options a generation runs the compiler with: the requested
    /// language and the output path are fixed for this run after the merge;
    /// warnings are silenced and scoped enums, the object API, a Rust module
    /// root file and Rust serialization are always requested; every other
    /// option comes straight from the loaded configuration.
    pub fn generate_flatc_options(&self, language: Language, output: &str) -> (o: FlatCOptions)
        ensures
            o.url is None,
            o.binary_name is None,
            o.languages@ == seq![language],
            o.output_path matches Some(p) && p@ == output@,
            o.no_warnings,
            o.scoped_enums,
            o.gen_object_api,
            o.rust_module_root_file,
            o.rust_serialize,
            o.grpc == self.config.flatc.grpc,
            o.include_paths@ == self.config.flatc.include_paths@,
            o.binary == self.config.flatc.binary,
            o.json == self.config.flatc.json,
            o.jsonschema == self.config.flatc.jsonschema,
            o.strict_json == self.config.flatc.strict_json,
            o.allow_non_utf8 == self.config.flatc.allow_non_utf8,
            o.natural_utf8 == self.config.flatc.natural_utf8,
            o.defaults_json == self.config.flatc.defaults_json,
            o.unknown_json == self.config.flatc.unknown_json,
            o.no_prefix == self.config.flatc.no_prefix,
            o.no_emit_min_max_enum_values == self.config.flatc.no_emit_min_max_enum_values,
            o.swift_implementation_only == self.config.flatc.swift_implementation_only,
            o.no_includes == self.config.flatc.no_includes,
            o.gen_mutable == self.config.flatc.gen_mutable,
            o.gen_onefile == self.config.flatc.gen_onefile,
            o.gen_name_strings == self.config.flatc.gen_name_strings,
            o.gen_compare == self.config.flatc.gen_compare,
            o.gen_nullable == self.config.flatc.gen_nullable,
            o.java_package_prefix == self.config.flatc.java_package_prefix,
            o.java_checkerframework == self.config.flatc.java_checkerframework,
            o.gen_generated == self.config.flatc.gen_generated,
            o.gen_jvmstatic == self.config.flatc.gen_jvmstatic,
            o.gen_all == self.config.flatc.gen_all,
            o.gen_json_emit == self.config.flatc.gen_json_emit,
            o.cpp_include@ == self.config.flatc.cpp_include@,
            o.cpp_ptr_type == self.config.flatc.cpp_ptr_type,
            o.cpp_str_type == self.config.flatc.cpp_str_type,
            o.cpp_str_flex_ctor == self.config.flatc.cpp_str_flex_ctor,
            o.cpp_field_case_style == self.config.flatc.cpp_field_case_style,
            o.no_cpp_direct_copy == self.config.flatc.no_cpp_direct_copy,
            o.cpp_std == self.config.flatc.cpp_std,
            o.cpp_static_reflection == self.config.flatc.cpp_static_reflection,
            o.object_prefix == self.config.flatc.object_prefix,
            o.object_suffix == self.config.flatc.object_suffix,
            o.go_namespace == self.config.flatc.go_namespace,
            o.go_import == self.config.flatc.go_import,
            o.go_module_name == self.config.flatc.go_module_name,
            o.raw_binary == self.config.flatc.raw_binary,
            o.size_prefixed == self.config.flatc.size_prefixed,
            o.proto == self.config.flatc.proto,
            o.proto_namespace_suffix == self.config.flatc.proto_namespace_suffix,
            o.oneof_union == self.config.flatc.oneof_union,
            o.keep_proto_id == self.config.flatc.keep_proto_id,
            o.proto_id_gap == self.config.flatc.proto_id_gap,
            o.schema == self.config.flatc.schema,
            o.bfbs_filenames == self.config.flatc.bfbs_filenames,
            o.bfbs_absolute_paths == self.config.flatc.bfbs_absolute_paths,
            o.bfbs_comments == self.config.flatc.bfbs_comments,
            o.bfbs_builtins == self.config.flatc.bfbs_builtins,
            o.bfbs_gen_embed == self.config.flatc.bfbs_gen_embed,
            o.conform == self.config.flatc.conform,
            o.conform_includes@ == self.config.flatc.conform_includes@,
            o.filename_suffix == self.config.flatc.filename_suffix,
            o.filename_ext == self.config.flatc.filename_ext,
            o.include_prefix == self.config.flatc.include_prefix,
            o.keep_prefix == self.config.flatc.keep_prefix,
            o.reflect_types == self.config.flatc.reflect_types,
            o.reflect_names == self.config.flatc.reflect_names,
            o.root_type == self.config.flatc.root_type,
            o.require_explicit_ids == self.config.flatc.require_explicit_ids,
            o.force_defaults == self.config.flatc.force_defaults,
            o.force_empty == self.config.flatc.force_empty,
            o.force_empty_vectors == self.config.flatc.force_empty_vectors,
            o.flexbuffers == self.config.flatc.flexbuffers,
            o.warnings_as_errors == self.config.flatc.warnings_as_errors,
            o.cs_global_alias == self.config.flatc.cs_global_alias,
            o.cs_gen_json_serializer == self.config.flatc.cs_gen_json_serializer,
            o.json_nested_bytes == self.config.flatc.json_nested_bytes,
            o.ts_flat_files == self.config.flatc.ts_flat_files,
            o.ts_entry_points == self.config.flatc.ts_entry_points,
            o.annotate_sparse_vectors == self.config.flatc.annotate_sparse_vectors,
            o.annotate == self.config.flatc.annotate,
            o.no_leak_private_annotation == self.config.flatc.no_leak_private_annotation,
            o.python_no_type_prefix_suffix == self.config.flatc.python_no_type_prefix_suffix,
            o.python_typing == self.config.flatc.python_typing,
            o.python_version == self.config.flatc.python_version,
            o.python_gen_numpy == self.config.flatc.python_gen_numpy,
            o.ts_omit_entrypoint == self.config.flatc.ts_omit_entrypoint,
            o.file_names_only == self.config.flatc.file_names_only,
            o.grpc_filename_suffix == self.config.flatc.grpc_filename_suffix,
            o.grpc_additional_header@ == self.config.flatc.grpc_additional_header@,
            o.grpc_search_path == self.config.flatc.grpc_search_path,
            o.grpc_use_system_headers == self.config.flatc.grpc_use_system_headers,
            o.grpc_python_typed_handlers == self.config.flatc.grpc_python_typed_handlers,
    {
        let mut o = FlatCOptions::default();
        o.no_warnings = true;
        o.scoped_enums = true;
        o.gen_object_api = true;
        o.rust_module_root_file = true;
        o.rust_serialize = true;
        self.config.merge_flatc_config(&mut o);
        let mut langs: Vec<Language> = Vec::new();
        langs.push(language);
        o.languages = langs;
        o.output_path = Option::Some(output.to_owned());
        o
    }

    /// Binds the two dump tools to their extracted binaries; a missing
    /// binary is a setup failure naming its path, the IL2CPP dumper's first.
    pub fn prepare_dumper_tools(
        &self,
        il2cpp_binary: String,
        il2cpp_present: bool,
        fbs_binary: String,
        fbs_present: bool,
    ) -> (r: Result<(Il2CppDumper, FbsDumper), Error>)
        ensures
            (il2cpp_present && fbs_present) ==> (r matches Ok(t) && t.0@ == il2cpp_binary@ && t.1@
                == fbs_binary@),
            !il2cpp_present ==> r == Result::<(Il2CppDumper, FbsDumper), Error>::Err(
                Error::BinaryNotFound(il2cpp_binary),
            ),
            (il2cpp_present && !fbs_present) ==> r == Result::<(Il2CppDumper, FbsDumper), Error>::Err(
                Error::BinaryNotFound(fbs_binary),
            ),
    {
        let dumper = match Il2CppDumper::new(il2cpp_binary, il2cpp_present) {
            Result::Ok(d) => d,
            Result::Err(e) => {
                return Result::Err(e);
            },
        };
        let fbs = match FbsDumper::new(fbs_binary, fbs_present) {
            Result::Ok(d) => d,
            Result::Err(e) => {
                return Result::Err(e);
            },
        };
        Result::Ok((dumper, fbs))
    }

    /// Binds the compiler to its extracted binary; a missing binary is a
    /// setup failure naming its path.
    pub fn prepare_generate_tools(&self, flatc_binary: String, flatc_present: bool) -> (r: Result<
        FlatC,
        Error,
    >)
        ensures
            flatc_present ==> (r matches Ok(c) && c@ == flatc_binary@),
            !flatc_present ==> r == Result::<FlatC, Error>::Err(
                Error::BinaryNotFound(flatc_binary),
            ),
    {
        FlatC::new(flatc_binary, flatc_present)
    }
}

} // verus!
