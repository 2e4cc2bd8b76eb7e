use std::io::{Cursor, Write};
use zip::ZipWriter;
use zip::write::SimpleFileOptions;

use bafb::Error;
use bafb::tools::extract::ToolsExtractor;

fn make_zip(entries: &[(&str, &[u8])]) -> Vec<u8> {
    let mut w = ZipWriter::new(Cursor::new(Vec::new()));
    for (name, data) in entries {
        w.start_file(*name, SimpleFileOptions::default()).unwrap();
        w.write_all(data).unwrap();
    }
    w.finish().unwrap().into_inner()
}

#[test]
fn binary_name_gets_exe_only_on_windows() {
    let win = ToolsExtractor::new(true, "/data".to_string());
    let unix = ToolsExtractor::new(false, "/data".to_string());
    assert!(win.is_windows());
    assert!(!unix.is_windows());
    assert_eq!(win.get_binary_name("flatc"), "flatc.exe");
    assert_eq!(unix.get_binary_name("flatc"), "flatc");
}

#[test]
fn extract_plan_paths_and_skip_decision() {
    let e = ToolsExtractor::new(false, "/data".to_string());
    let p = e.flatc("flatc", false, false);
    assert_eq!(p.zip_path, "/data/tools/FlatC.zip");
    assert_eq!(p.target_dir, "/data/tools/FlatC");
    assert_eq!(p.binary_path, "/data/tools/FlatC/flatc");
    assert!(!p.nested);
    assert!(p.perform, "a missing binary must be extracted");

    let p = e.il2cpp_dumper("Il2CppInspectorRedux.CLI", false, true);
    assert_eq!(p.zip_path, "/data/tools/Il2CppInspectorRedux.zip");
    assert_eq!(
        p.binary_path,
        "/data/tools/Il2CppInspectorRedux/Il2CppInspectorRedux.CLI"
    );
    assert!(!p.perform, "an already extracted binary is skipped");

    let p = e.fbs_dumper("FbsDumper", false, false);
    assert_eq!(p.zip_path, "/data/tools/FbsDumper.zip");
    assert!(p.nested, "the schema dumper's release archive is double-nested");
}

#[test]
fn extraction_is_idempotent_without_force() {
    // first run on a clean cache extracts; afterwards the binary exists, so
    // a second unforced run is a pure skip naming the same paths
    let e = ToolsExtractor::new(true, "d".to_string());
    let first = e.flatc("flatc", false, false);
    assert!(first.perform);
    let second = e.flatc("flatc", false, true);
    assert!(!second.perform);
    assert_eq!(second.binary_path, first.binary_path);
    assert_eq!(second.zip_path, first.zip_path);
}

#[test]
fn forced_extraction_always_rewrites() {
    let e = ToolsExtractor::new(false, "d".to_string());
    assert!(e.flatc("flatc", true, true).perform);
    assert!(e.flatc("flatc", true, false).perform);
    assert!(e.fbs_dumper("FbsDumper", true, true).perform);
    assert!(e.il2cpp_dumper("x", true, true).perform);
}

#[test]
fn unpack_decodes_names_and_contents() {
    let bytes = make_zip(&[("readme.txt", b"hello"), ("sub/flatc", b"\x7fELF")]);
    let e = ToolsExtractor::new(false, "d".to_string());
    let entries = e.unpack(bytes, false, "flatc").unwrap();
    assert_eq!(entries.len(), 2);
    assert_eq!(entries[0].name, "readme.txt");
    assert_eq!(entries[0].data, b"hello");
    assert!(!entries[0].make_executable);
    assert_eq!(entries[1].name, "sub/flatc");
    assert_eq!(entries[1].data, b"\x7fELF");
    assert!(entries[1].make_executable, "the tool binary gets the executable bit");
}

#[test]
fn unpack_on_windows_never_marks_executable() {
    let bytes = make_zip(&[("flatc.exe", b"MZ")]);
    let e = ToolsExtractor::new(true, "d".to_string());
    let entries = e.unpack(bytes, false, "flatc").unwrap();
    assert_eq!(entries[0].name, "flatc.exe");
    assert!(!entries[0].make_executable);
}

#[test]
fn unpack_nested_archive_unwraps_the_inner_zip() {
    let inner = make_zip(&[("FbsDumper", b"bin"), ("notes.md", b"n")]);
    let outer = make_zip(&[("payload.zip", &inner)]);
    let e = ToolsExtractor::new(false, "d".to_string());
    let entries = e.unpack(outer, true, "FbsDumper").unwrap();
    assert_eq!(entries.len(), 2);
    assert_eq!(entries[0].name, "FbsDumper");
    assert!(entries[0].make_executable);
    assert_eq!(entries[1].name, "notes.md");
    assert!(!entries[1].make_executable);
}

#[test]
fn unpack_rejects_garbage_bytes() {
    let e = ToolsExtractor::new(false, "d".to_string());
    assert_eq!(
        match e.unpack(b"not a zip at all".to_vec(), false, "x") {
            Err(err) => err,
            Ok(_) => panic!("expected failure"),
        },
        Error::ArchiveInvalid
    );
    // nested unpack over an empty outer archive is invalid too
    let outer = make_zip(&[]);
    assert_eq!(
        match e.unpack(outer, true, "x") {
            Err(err) => err,
            Ok(_) => panic!("expected failure"),
        },
        Error::ArchiveInvalid
    );
}
