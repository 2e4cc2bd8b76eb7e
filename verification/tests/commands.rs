use bafb::Error;
use bafb::wrappers::command::check_status;
use bafb::wrappers::fbs_dumper::{FbsDumper, FbsDumperOptions};
use bafb::wrappers::flatc::{CppStd, FlatC, FlatCOptions, Language};
use bafb::wrappers::il2cpp_dumper::{Il2CppDumper, Il2CppDumperOptions};

fn strs(v: &[&str]) -> Vec<String> {
    v.iter().map(|s| s.to_string()).collect()
}

#[test]
fn missing_binary_is_a_setup_error() {
    assert_eq!(
        match FbsDumper::new("/no/such".to_string(), false) {
            Err(e) => e,
            Ok(_) => panic!("expected failure"),
        },
        Error::BinaryNotFound("/no/such".to_string())
    );
    assert!(Il2CppDumper::new("/bin/dumper".to_string(), true).is_ok());
    assert!(FlatC::new("/bin/flatc".to_string(), true).is_ok());
}

#[test]
fn fbs_dumper_flags_populated_exactly_once() {
    let d = FbsDumper::new("/t/FbsDumper".to_string(), true).unwrap();
    let mut o = FbsDumperOptions::default();
    o.dummy_dll = "out/dll".to_string();
    o.game_assembly = Some("lib/libil2cpp.so".to_string());
    o.output_file = Some("out/BlueArchive.fbs".to_string());
    o.force = true;
    o.suppress_warnings = true;
    let inv = d.command(&o);
    assert_eq!(inv.program, "/t/FbsDumper");
    assert_eq!(
        inv.args,
        strs(&[
            "--dummy-dll", "out/dll",
            "--game-assembly", "lib/libil2cpp.so",
            "--output-file", "out/BlueArchive.fbs",
            "--force",
            "--suppress-warnings",
        ])
    );
}

#[test]
fn fbs_dumper_unset_options_emit_nothing() {
    let d = FbsDumper::new("/t/FbsDumper".to_string(), true).unwrap();
    let mut o = FbsDumperOptions::default();
    o.dummy_dll = "dll".to_string();
    let inv = d.command(&o);
    assert_eq!(inv.args, strs(&["--dummy-dll", "dll"]));
}

#[test]
fn il2cpp_dumper_full_flag_mapping() {
    let d = Il2CppDumper::new("/t/Il2CppInspectorRedux.CLI".to_string(), true).unwrap();
    let mut o = Il2CppDumperOptions::default();
    o.il2cpp = "lib/libil2cpp.so".to_string();
    o.metadata = Some("lib/global-metadata.dat".to_string());
    o.output = Some("out".to_string());
    o.output_csharp_stub = true;
    o.output_disassembler_metadata = true;
    o.disassembler = Some("IDA".to_string());
    o.output_dummy_dlls = true;
    o.extract_il2cpp_files = true;
    let inv = d.command(&o);
    assert_eq!(
        inv.args,
        strs(&[
            "--il2cpp", "lib/libil2cpp.so",
            "--metadata", "lib/global-metadata.dat",
            "--output", "out",
            "--output-csharp-stub",
            "--output-disassembler-metadata",
            "--disassembler", "IDA",
            "--output-dummy-dlls",
            "--extract-il2-cpp-files",
        ])
    );
}

#[test]
fn flatc_compile_maps_languages_lists_and_files() {
    let c = FlatC::new("/t/flatc".to_string(), true).unwrap();
    let mut o = FlatCOptions::default();
    o.languages = vec![Language::Rust, Language::CSharp];
    o.output_path = Some("out".to_string());
    o.include_paths = vec!["a".to_string(), "b".to_string()];
    o.scoped_enums = true;
    o.cpp_std = Some(CppStd::Cpp17);
    o.grpc_additional_header = vec!["h1".to_string()];
    let inv = c.compile(&o, &strs(&["s.fbs"]), &strs(&[]));
    assert_eq!(inv.program, "/t/flatc");
    assert_eq!(
        inv.args,
        strs(&[
            "--rust", "--csharp",
            "-o", "out",
            "-I", "a", "-I", "b",
            "--scoped-enums",
            "--cpp-std", "c++17",
            "--grpc-additional-header", "h1",
            "s.fbs",
        ])
    );
}

#[test]
fn flatc_binary_files_follow_a_separator() {
    let c = FlatC::new("flatc".to_string(), true).unwrap();
    let o = FlatCOptions::default();
    let inv = c.compile(&o, &strs(&["s.fbs"]), &strs(&["data.bin"]));
    assert_eq!(inv.args, strs(&["s.fbs", "--", "data.bin"]));
    let inv = c.compile(&o, &strs(&["s.fbs"]), &strs(&[]));
    assert_eq!(inv.args, strs(&["s.fbs"]));
}

#[test]
fn every_language_maps_to_its_flag() {
    let c = FlatC::new("flatc".to_string(), true).unwrap();
    let cases = [
        (Language::Cpp, "--cpp"),
        (Language::Java, "--java"),
        (Language::Kotlin, "--kotlin"),
        (Language::KotlinKmp, "--kotlin-kmp"),
        (Language::CSharp, "--csharp"),
        (Language::Go, "--go"),
        (Language::Python, "--python"),
        (Language::JavaScript, "--js"),
        (Language::TypeScript, "--ts"),
        (Language::Php, "--php"),
        (Language::Dart, "--dart"),
        (Language::Lua, "--lua"),
        (Language::Lobster, "--lobster"),
        (Language::Rust, "--rust"),
        (Language::Swift, "--swift"),
        (Language::Nim, "--nim"),
    ];
    for (lang, flag) in cases {
        let inv = c.compile_schema(&strs(&["s.fbs"]), lang, "out".to_string());
        assert_eq!(inv.args, strs(&[flag, "-o", "out", "s.fbs"]));
    }
}

#[test]
fn cpp_std_tokens() {
    let c = FlatC::new("flatc".to_string(), true).unwrap();
    for (std_choice, tok) in [
        (CppStd::Cpp0x, "c++0x"),
        (CppStd::Cpp11, "c++11"),
        (CppStd::Cpp17, "c++17"),
    ] {
        let mut o = FlatCOptions::default();
        o.cpp_std = Some(std_choice);
        let inv = c.compile(&o, &strs(&[]), &strs(&[]));
        assert_eq!(inv.args, strs(&["--cpp-std", tok]));
    }
}

#[test]
fn json_binary_round_trip_commands() {
    let c = FlatC::new("flatc".to_string(), true).unwrap();
    let inv = c.json_to_binary("s.fbs".to_string(), "v.json".to_string(), Some("out".to_string()));
    assert_eq!(inv.args, strs(&["-o", "out", "--binary", "s.fbs", "v.json"]));
    let inv = c.binary_to_json("s.fbs".to_string(), "v.bin".to_string(), None);
    assert_eq!(inv.args, strs(&["--json", "s.fbs", "v.bin"]));
}

#[test]
fn exit_status_interpretation() {
    assert_eq!(check_status(true, Some(0)), Ok(()));
    assert_eq!(check_status(false, Some(1)), Err(Error::ChildExit(Some(1))));
    assert_eq!(check_status(false, None), Err(Error::ChildExit(None)));
}
