use bafb::cli::args::{Args, Commands, DumpTarget};
use bafb::cli::config::Config;
use bafb::cli::parse::{CacheState, CommandHandler, Region, Step, Tool};
use bafb::wrappers::command::check_status;
use bafb::wrappers::flatc::{FlatC, Language};
use bafb::Error;

fn clean_cache() -> CacheState {
    CacheState {
        il2cpp_zip: false,
        fbs_zip: false,
        flatc_zip: false,
        il2cpp_bin: false,
        fbs_bin: false,
        flatc_bin: false,
        libil2cpp_global: false,
        metadata_global: false,
        libil2cpp_japan: false,
        metadata_japan: false,
    }
}

fn full_cache() -> CacheState {
    CacheState {
        il2cpp_zip: true,
        fbs_zip: true,
        flatc_zip: true,
        il2cpp_bin: true,
        fbs_bin: true,
        flatc_bin: true,
        libil2cpp_global: true,
        metadata_global: true,
        libil2cpp_japan: true,
        metadata_japan: true,
    }
}

fn args(command: Option<Commands>, update: bool, clean: bool) -> Args {
    Args { command, config: None, update, verbose: false, clean }
}

fn handler(a: Args) -> CommandHandler {
    CommandHandler::new(a, Config::default(), "/data".to_string())
}

#[test]
fn no_command_and_no_flags_shows_help() {
    let h = handler(args(None, false, false));
    assert_eq!(h.plan(&clean_cache()), vec![Step::ShowHelp]);
    assert_eq!(h.plan(&full_cache()), vec![Step::ShowHelp]);
}

#[test]
fn dump_japan_on_clean_cache_runs_the_whole_pipeline() {
    // no config file, clean cache: fetch the APK, extract the game binaries,
    // download both dumpers, extract both, then run them in order
    let cmd = Commands::Dump { target: DumpTarget::Japan { output: "./out".to_string() } };
    let h = handler(args(Some(cmd), false, false));
    assert_eq!(
        h.plan(&clean_cache()),
        vec![
            Step::FetchApk { region: Region::Japan, forced: false },
            Step::ExtractIl2Cpp { region: Region::Japan },
            Step::FetchTool { tool: Tool::Il2CppDumper },
            Step::FetchTool { tool: Tool::FbsDumper },
            Step::ExtractTool { tool: Tool::Il2CppDumper, forced: false },
            Step::ExtractTool { tool: Tool::FbsDumper, forced: false },
            Step::RunIl2CppDump { region: Region::Japan },
            Step::RunFbsDump { region: Region::Japan },
        ]
    );
}

#[test]
fn dump_global_on_warm_cache_skips_downloads() {
    let cmd = Commands::Dump { target: DumpTarget::Global { output: "o".to_string() } };
    let h = handler(args(Some(cmd), false, false));
    assert_eq!(
        h.plan(&full_cache()),
        vec![
            Step::FetchApk { region: Region::Global, forced: false },
            Step::ExtractTool { tool: Tool::Il2CppDumper, forced: false },
            Step::ExtractTool { tool: Tool::FbsDumper, forced: false },
            Step::RunIl2CppDump { region: Region::Global },
            Step::RunFbsDump { region: Region::Global },
        ]
    );
}

#[test]
fn update_with_clean_wipes_then_refreshes_everything() {
    // the tools cache is deleted first, then both regions' APKs and all
    // three tools are force-refreshed regardless of prior cache state
    let h = handler(args(None, true, true));
    assert_eq!(
        h.plan(&full_cache()),
        vec![
            Step::CleanTools,
            Step::FetchApk { region: Region::Japan, forced: true },
            Step::FetchApk { region: Region::Global, forced: true },
            Step::FetchTool { tool: Tool::Il2CppDumper },
            Step::FetchTool { tool: Tool::FbsDumper },
            Step::FetchTool { tool: Tool::FlatC },
            Step::ExtractTool { tool: Tool::Il2CppDumper, forced: true },
            Step::ExtractTool { tool: Tool::FbsDumper, forced: true },
            Step::ExtractTool { tool: Tool::FlatC, forced: true },
        ]
    );
}

#[test]
fn dump_with_clean_plans_against_the_emptied_cache() {
    // the clean removes the tool archives, so even a warm cache is planned
    // as if they were gone; the game binaries live elsewhere and survive
    let cmd = Commands::Dump { target: DumpTarget::Global { output: "o".to_string() } };
    let h = handler(args(Some(cmd), false, true));
    assert_eq!(
        h.plan(&full_cache()),
        vec![
            Step::CleanTools,
            Step::FetchApk { region: Region::Global, forced: false },
            Step::FetchTool { tool: Tool::Il2CppDumper },
            Step::FetchTool { tool: Tool::FbsDumper },
            Step::ExtractTool { tool: Tool::Il2CppDumper, forced: false },
            Step::ExtractTool { tool: Tool::FbsDumper, forced: false },
            Step::RunIl2CppDump { region: Region::Global },
            Step::RunFbsDump { region: Region::Global },
        ]
    );
}

#[test]
fn clean_alone_only_cleans() {
    let h = handler(args(None, false, true));
    assert_eq!(h.plan(&full_cache()), vec![Step::CleanTools]);
}

#[test]
fn generate_fetches_the_compiler_only_when_missing() {
    let cmd = Commands::Generate {
        fbs: "s.fbs".to_string(),
        language: Language::Rust,
        output: "./out".to_string(),
    };
    let h = handler(args(Some(cmd), false, false));
    assert_eq!(
        h.plan(&clean_cache()),
        vec![
            Step::FetchTool { tool: Tool::FlatC },
            Step::ExtractTool { tool: Tool::FlatC, forced: false },
            Step::RunFlatcGen,
        ]
    );
    assert_eq!(
        h.plan(&full_cache()),
        vec![Step::ExtractTool { tool: Tool::FlatC, forced: false }, Step::RunFlatcGen]
    );
}

#[test]
fn generate_with_missing_schema_still_invokes_the_compiler() {
    // there is no pre-flight existence check on the schema file: the
    // invocation is built all the same, and a non-zero exit from the child
    // surfaces as a child-exit failure
    let h = handler(args(None, false, false));
    let o = h.generate_flatc_options(Language::Rust, "./out");
    let c = FlatC::new("/t/flatc".to_string(), true).unwrap();
    let inv = c.compile(&o, &vec!["missing.fbs".to_string()], &Vec::new());
    assert!(inv.args.contains(&"missing.fbs".to_string()));
    assert!(inv.args.contains(&"--rust".to_string()));
    assert_eq!(check_status(false, Some(1)), Err(Error::ChildExit(Some(1))));
}

#[test]
fn dump_il2cpp_options_fix_paths_and_request_outputs() {
    let h = handler(args(None, false, false));
    let o = h.dump_il2cpp_options(Region::Japan, "./out");
    assert_eq!(o.il2cpp, "/data/il2cpp/japan/libil2cpp.so");
    assert_eq!(o.metadata.as_deref(), Some("/data/il2cpp/japan/global-metadata.dat"));
    assert_eq!(o.output.as_deref(), Some("./out"));
    assert!(o.output_csharp_stub && o.output_dummy_dlls && o.output_disassembler_metadata);
    assert_eq!(o.disassembler.as_deref(), Some("IDA"));
}

#[test]
fn dump_il2cpp_options_let_the_file_override_tunables_but_not_paths() {
    let mut config = Config::default();
    config.il2cpp_dumper.disassembler = Some("Ghidra".to_string());
    config.il2cpp_dumper.il2cpp = "file/wants/this.so".to_string();
    let h = CommandHandler::new(args(None, false, false), config, "/data".to_string());
    let o = h.dump_il2cpp_options(Region::Global, "o");
    // a tunable from the file wins
    assert_eq!(o.disassembler.as_deref(), Some("Ghidra"));
    // the run-computed path is set after the merge and is never overwritten
    assert_eq!(o.il2cpp, "/data/il2cpp/global/libil2cpp.so");
}

#[test]
fn dump_fbs_options_namespace_follows_region_unless_configured() {
    let h = handler(args(None, false, false));
    let o = h.dump_fbs_options(Region::Japan, "./out");
    assert_eq!(o.namespace.as_deref(), Some("Japan"));
    assert_eq!(o.dummy_dll, "./out/dll");
    assert_eq!(o.game_assembly.as_deref(), Some("/data/il2cpp/japan/libil2cpp.so"));
    assert_eq!(o.output_file.as_deref(), Some("./out/BlueArchive.fbs"));

    let mut config = Config::default();
    config.fbs_dumper.namespace = Some("Custom".to_string());
    let h = CommandHandler::new(args(None, false, false), config, "/data".to_string());
    let o = h.dump_fbs_options(Region::Global, "o");
    assert_eq!(o.namespace.as_deref(), Some("Custom"));
}

#[test]
fn generate_flatc_options_fix_language_output_and_presets() {
    let h = handler(args(None, false, false));
    let o = h.generate_flatc_options(Language::Go, "./gen");
    assert_eq!(o.languages, vec![Language::Go]);
    assert_eq!(o.output_path.as_deref(), Some("./gen"));
    assert!(o.no_warnings && o.scoped_enums && o.gen_object_api);
    assert!(o.rust_module_root_file && o.rust_serialize);
}

#[test]
fn prepare_tools_report_the_first_missing_binary() {
    let h = handler(args(None, false, false));
    assert!(h
        .prepare_dumper_tools("a".to_string(), true, "b".to_string(), true)
        .is_ok());
    assert_eq!(
        match h.prepare_dumper_tools("a".to_string(), false, "b".to_string(), true) {
            Err(e) => e,
            Ok(_) => panic!("expected failure"),
        },
        Error::BinaryNotFound("a".to_string())
    );
    assert_eq!(
        match h.prepare_dumper_tools("a".to_string(), true, "b".to_string(), false) {
            Err(e) => e,
            Ok(_) => panic!("expected failure"),
        },
        Error::BinaryNotFound("b".to_string())
    );
    assert!(h.prepare_generate_tools("c".to_string(), true).is_ok());
    assert_eq!(
        match h.prepare_generate_tools("c".to_string(), false) {
            Err(e) => e,
            Ok(_) => panic!("expected failure"),
        },
        Error::BinaryNotFound("c".to_string())
    );
}
