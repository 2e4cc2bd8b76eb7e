use bafb::Error;
use bafb::cli::config::Config;
use bafb::wrappers::fbs_dumper::FbsDumperOptions;
use bafb::wrappers::flatc::{CppStd, FlatCOptions, Language};
use bafb::wrappers::il2cpp_dumper::Il2CppDumperOptions;

#[test]
fn defaults_are_all_unset() {
    let o = FbsDumperOptions::default();
    assert!(o.url.is_none());
    assert!(o.binary_name.is_none());
    assert_eq!(o.dummy_dll, "");
    assert!(o.game_assembly.is_none());
    assert!(!o.force && !o.verbose && !o.suppress_warnings && !o.force_snake_case);

    let o = Il2CppDumperOptions::default();
    assert_eq!(o.il2cpp, "");
    assert!(o.metadata.is_none() && o.output.is_none() && o.disassembler.is_none());
    assert!(!o.output_csharp_stub && !o.output_dummy_dlls);

    let o = FlatCOptions::default();
    assert!(o.languages.is_empty());
    assert!(o.output_path.is_none() && o.cpp_std.is_none());
    assert!(!o.no_warnings && !o.scoped_enums && !o.gen_object_api);
    assert!(o.include_paths.is_empty() && o.grpc_additional_header.is_empty());
}

#[test]
fn merge_overrides_fields_that_differ_from_defaults() {
    let mut config = Config::default();
    config.fbs_dumper.namespace = Some("FromFile".to_string());
    config.fbs_dumper.force = true;

    let mut options = FbsDumperOptions::default();
    options.namespace = Some("FromRun".to_string());
    options.verbose = true;
    config.merge_fbs_dumper_config(&mut options);

    // the file's non-default values win over what was already there
    assert_eq!(options.namespace.as_deref(), Some("FromFile"));
    assert!(options.force);
    // fields the file leaves at default keep the caller's values
    assert!(options.verbose);
    assert!(!options.force_snake_case);
}

#[test]
fn merge_leaves_url_and_binary_name_alone() {
    let mut config = Config::default();
    config.il2cpp_dumper.url = Some("https://file.example/z.zip".to_string());
    config.il2cpp_dumper.binary_name = Some("Other".to_string());
    config.il2cpp_dumper.layout = Some("classes".to_string());

    let mut options = Il2CppDumperOptions::default();
    config.merge_il2cpp_dumper_config(&mut options);

    // url and binary_name configure fetching, never the merged option set
    assert!(options.url.is_none());
    assert!(options.binary_name.is_none());
    assert_eq!(options.layout.as_deref(), Some("classes"));
}

#[test]
fn merge_flatc_overrides_lists_and_enums() {
    let mut config = Config::default();
    config.flatc.languages = vec![Language::Go, Language::Dart];
    config.flatc.include_paths = vec!["/inc".to_string()];
    config.flatc.cpp_std = Some(CppStd::Cpp17);
    config.flatc.no_warnings = true;

    let mut options = FlatCOptions::default();
    options.languages = vec![Language::Rust];
    options.json = true;
    config.merge_flatc_config(&mut options);

    assert_eq!(options.languages, vec![Language::Go, Language::Dart]);
    assert_eq!(options.include_paths, vec!["/inc".to_string()]);
    assert_eq!(options.cpp_std, Some(CppStd::Cpp17));
    assert!(options.no_warnings);
    // untouched by the file: the caller's values stay
    assert!(options.json);
    assert!(!options.binary);
}

#[test]
fn merge_with_default_file_changes_nothing() {
    let config = Config::default();
    let mut options = FbsDumperOptions::default();
    options.dummy_dll = "keep/this".to_string();
    options.suppress_warnings = true;
    config.merge_fbs_dumper_config(&mut options);
    assert_eq!(options.dummy_dll, "keep/this");
    assert!(options.suppress_warnings);

    let mut options = FlatCOptions::default();
    options.output_path = Some("out".to_string());
    config.merge_flatc_config(&mut options);
    assert_eq!(options.output_path.as_deref(), Some("out"));
}

#[test]
fn resolve_config_path_cases() {
    // explicit path that exists
    assert_eq!(
        Config::resolve_config_path(&Some("my.toml".to_string()), true, false),
        Ok(Some("my.toml".to_string()))
    );
    // explicit path that is missing is an error naming the path
    assert_eq!(
        Config::resolve_config_path(&Some("my.toml".to_string()), false, true),
        Err(Error::ConfigNotFound("my.toml".to_string()))
    );
    // no explicit path: the conventional file when present
    assert_eq!(
        Config::resolve_config_path(&None, false, true),
        Ok(Some("bafb.toml".to_string()))
    );
    // neither: built-in defaults
    assert_eq!(Config::resolve_config_path(&None, false, false), Ok(None));
}
