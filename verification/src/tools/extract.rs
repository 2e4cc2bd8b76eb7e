//! Unpacking a downloaded tool archive: the skip-or-extract decision, the
//! paths every tool's archive and binary live at, and the decoding of an
//! archive into the files to write, with the executable bit decided per
//! entry.

use vstd::prelude::*;
use crate::Error;
use crate::helpers::config::{
    FBS_DUMPER_BINARY, FBS_DUMPER_DIR, FBS_DUMPER_FILE, FLATC_BINARY, FLATC_DIR, FLATC_FILE,
    IL2CPP_INSPECTOR_BINARY, IL2CPP_INSPECTOR_DIR, IL2CPP_INSPECTOR_FILE, TOOLS_DIR,
};
use crate::text::{concat_str, ends_with, spec_ends_with};
use crate::tools::archive::{
    archive_decodes, entry_decodes, nested_inner, pairs_view, read_entries, zip_entries_of,
    zip_parses,
};

verus! {

/// The extractor is bound to the host: whether it is Windows decides binary
/// names and executable bits, and the data root anchors every path.
#[derive(Debug)]
pub struct ToolsExtractor {
    pub windows: bool,
    pub data_root: String,
}

/// Everything one extraction will do, decided before any filesystem work:
/// which archive to read, where its entries go, which path the tool binary
/// ends at, whether the archive is double-nested, and whether anything is to
/// be written at all.
#[derive(Debug)]
pub struct ExtractPlan {
    pub zip_path: String,
    pub target_dir: String,
    pub binary_path: String,
    pub nested: bool,
    pub perform: bool,
}

/// One file to write: its path relative to the target directory, its
/// contents, and whether it must be marked executable.
#[derive(Debug)]
pub struct ArchiveEntry {
    pub name: String,
    pub data: Vec<u8>,
    pub make_executable: bool,
}

/// The platform-qualified name of a tool binary.
pub open spec fn binary_with_ext(binary_name: Seq<char>, windows: bool) -> Seq<char> {
    binary_name + (if windows {
        ".exe"@
    } else {
        Seq::<char>::empty()
    })
}

/// What a correct extraction plan looks like: the archive and binary paths
/// under the tools directory, the nesting the tool's packaging uses, and the
/// at-most-once rule — work happens exactly when forced or the binary is not
/// already in place.
pub open spec fn extract_plan_spec(
    windows: bool,
    data_root: Seq<char>,
    binary_name: Seq<char>,
    zip_file: Seq<char>,
    dir: Seq<char>,
    nested: bool,
    forced: bool,
    binary_present: bool,
    p: ExtractPlan,
) -> bool {
    &&& p.zip_path@ == data_root + "/"@ + TOOLS_DIR@ + "/"@ + zip_file
    &&& p.target_dir@ == data_root + "/"@ + TOOLS_DIR@ + "/"@ + dir
    &&& p.binary_path@ == p.target_dir@ + "/"@ + binary_with_ext(binary_name, windows)
    &&& p.nested == nested
    &&& p.perform == (forced || !binary_present)
}

/// Extraction is idempotent: when the first unforced plan has been carried
/// out the binary is in place, so a second unforced plan for the same tool
/// performs no write and names the same binary path — the filesystem is
/// written at most once per cache lifetime.
pub proof fn lemma_extract_idempotent(
    windows: bool,
    data_root: Seq<char>,
    binary_name: Seq<char>,
    zip_file: Seq<char>,
    dir: Seq<char>,
    nested: bool,
    binary_present: bool,
    first: ExtractPlan,
    second: ExtractPlan,
)
    requires
        extract_plan_spec(
            windows,
            data_root,
            binary_name,
            zip_file,
            dir,
            nested,
            false,
            binary_present,
            first,
        ),
        extract_plan_spec(
            windows,
            data_root,
            binary_name,
            zip_file,
            dir,
            nested,
            false,
            true,
            second,
        ),
    ensures
        first.perform == !binary_present,
        !second.perform,
        second.binary_path@ == first.binary_path@,
        second.zip_path@ == first.zip_path@,
{
}

/// A forced extraction always rewrites the target binary, whether or not it
/// is already present.
pub proof fn lemma_forced_extract_rewrites(
    windows: bool,
    data_root: Seq<char>,
    binary_name: Seq<char>,
    zip_file: Seq<char>,
    dir: Seq<char>,
    nested: bool,
    binary_present: bool,
    p: ExtractPlan,
)
    requires
        extract_plan_spec(
            windows,
            data_root,
            binary_name,
            zip_file,
            dir,
            nested,
            true,
            binary_present,
            p,
        ),
    ensures
        p.perform,
{
}

/// The byte strings one extraction decodes without failing: the archive
/// itself and, for a double-nested tool, the inner archive stored as its
/// first entry.
pub open spec fn unpack_decodes(bytes: Seq<u8>, nested: bool) -> bool {
    if nested {
        zip_parses(bytes) && zip_entries_of(bytes).len() > 0 && entry_decodes(bytes, 0)
            && archive_decodes(zip_entries_of(bytes)[0].1)
    } else {
        archive_decodes(bytes)
    }
}

/// The files a decoded archive turns into, given the host and the binary to
/// mark: names and contents as decoded, the executable bit exactly on
/// non-Windows entries whose name ends with the platform-qualified binary.
pub open spec fn unpacked_entries(
    source: Seq<(Seq<char>, Seq<u8>)>,
    windows: bool,
    bin_ext: Seq<char>,
    es: Seq<ArchiveEntry>,
) -> bool {
    &&& es.len() == source.len()
    &&& forall|i: int|
        0 <= i < es.len() ==> {
            &&& (#[trigger] es[i]).name@ == source[i].0
            &&& es[i].data@ == source[i].1
            &&& es[i].make_executable == (!windows && spec_ends_with(source[i].0, bin_ext))
        }
}

impl ToolsExtractor {
    /// Binds the extractor to the host and the data root under which the
    /// tools cache lives.
    pub fn new(windows: bool, data_root: String) -> (r: Self)
        ensures
            r.windows == windows,
            r.data_root == data_root,
    {
        ToolsExtractor { windows, data_root }
    }

    /// Whether the host is Windows: binaries then carry `.exe` and never need
    /// an executable bit.
    pub fn is_windows(&self) -> (r: bool)
        ensures
            r == self.windows,
    {
        self.windows
    }

    /// The platform-qualified name of a tool binary.
    pub fn get_binary_name(&self, base_name: &str) -> (r: String)
        ensures
            r@ == binary_with_ext(base_name@, self.windows),
    {
        if self.windows {
            concat_str(base_name, ".exe")
        } else {
            let r = base_name.to_owned();
            proof {
                assert(r@ =~= binary_with_ext(base_name@, self.windows));
            }
            r
        }
    }

    /// Decides one tool's extraction: where everything lives, and whether any
    /// filesystem work happens at all.
    fn extract_tool(
        &self,
        binary_name: &str,
        zip_file: &str,
        dir: &str,
        nested: bool,
        forced: bool,
        binary_present: bool,
    ) -> (p: ExtractPlan)
        ensures
            extract_plan_spec(
                self.windows,
                self.data_root@,
                binary_name@,
                zip_file@,
                dir@,
                nested,
                forced,
                binary_present,
                p,
            ),
    {
        let tools_root = concat_str(self.data_root.as_str(), "/");
        let tools_root = concat_str(tools_root.as_str(), TOOLS_DIR);
        let tools_root = concat_str(tools_root.as_str(), "/");
        let zip_path = concat_str(tools_root.as_str(), zip_file);
        let target_dir = concat_str(tools_root.as_str(), dir);
        let bin_name = self.get_binary_name(binary_name);
        let binary_path = concat_str(target_dir.as_str(), "/");
        let binary_path = concat_str(binary_path.as_str(), bin_name.as_str());
        ExtractPlan { zip_path, target_dir, binary_path, nested, perform: forced
            || !binary_present }
    }

    /// The extraction plan for the IL2CPP dumper.
    pub fn il2cpp_dumper(&self, binary_name: &str, forced: bool, binary_present: bool) -> (p:
        ExtractPlan)
        ensures
            extract_plan_spec(
                self.windows,
                self.data_root@,
                binary_name@,
                IL2CPP_INSPECTOR_FILE@,
                IL2CPP_INSPECTOR_DIR@,
                false,
                forced,
                binary_present,
                p,
            ),
    {
        self.extract_tool(
            binary_name,
            IL2CPP_INSPECTOR_FILE,
            IL2CPP_INSPECTOR_DIR,
            false,
            forced,
            binary_present,
        )
    }

    /// The extraction plan for the FlatBuffers-schema dumper, whose release
    /// packaging nests the real archive inside another one.
    pub fn fbs_dumper(&self, binary_name: &str, forced: bool, binary_present: bool) -> (p:
        ExtractPlan)
        ensures
            extract_plan_spec(
                self.windows,
                self.data_root@,
                binary_name@,
                FBS_DUMPER_FILE@,
                FBS_DUMPER_DIR@,
                true,
                forced,
                binary_present,
                p,
            ),
    {
        self.extract_tool(
            binary_name,
            FBS_DUMPER_FILE,
            FBS_DUMPER_DIR,
            true,
            forced,
            binary_present,
        )
    }

    /// The extraction plan for the FlatBuffers compiler.
    pub fn flatc(&self, binary_name: &str, forced: bool, binary_present: bool) -> (p: ExtractPlan)
        ensures
            extract_plan_spec(
                self.windows,
                self.data_root@,
                binary_name@,
                FLATC_FILE@,
                FLATC_DIR@,
                false,
                forced,
                binary_present,
                p,
            ),
    {
        self.extract_tool(binary_name, FLATC_FILE, FLATC_DIR, false, forced, binary_present)
    }

    /// Decodes a downloaded archive into the files to write, unwrapping one
    /// level of nesting first when the tool's packaging calls for it. It
    /// succeeds exactly when the reader decodes the archive — and, when
    /// nested, the inner archive — in full. Every entry keeps its
    /// archive-internal name; an entry whose name ends with the
    /// platform-qualified binary name is marked executable on non-Windows
    /// hosts.
    pub fn unpack(&self, bytes: Vec<u8>, nested: bool, binary_name: &str) -> (r: Result<
        Vec<ArchiveEntry>,
        Error,
    >)
        ensures
            r is Ok <==> unpack_decodes(bytes@, nested),
            r matches Ok(es) ==> unpacked_entries(
                if nested {
                    zip_entries_of(zip_entries_of(bytes@)[0].1)
                } else {
                    zip_entries_of(bytes@)
                },
                self.windows,
                binary_with_ext(binary_name@, self.windows),
                es@,
            ),
            r is Err ==> r == Result::<Vec<ArchiveEntry>, Error>::Err(Error::ArchiveInvalid),
    {
        let ghost b = bytes@;
        let pairs = if nested {
            let inner = match nested_inner(bytes) {
                Result::Ok(ib) => ib,
                Result::Err(_) => {
                    return Result::Err(Error::ArchiveInvalid);
                },
            };
            match read_entries(inner) {
                Result::Ok(es) => es,
                Result::Err(_) => {
                    return Result::Err(Error::ArchiveInvalid);
                },
            }
        } else {
            match read_entries(bytes) {
                Result::Ok(es) => es,
                Result::Err(_) => {
                    return Result::Err(Error::ArchiveInvalid);
                },
            }
        };
        let ghost source = if nested {
            zip_entries_of(zip_entries_of(b)[0].1)
        } else {
            zip_entries_of(b)
        };
        let bin_name = self.get_binary_name(binary_name);
        let mut out: Vec<ArchiveEntry> = Vec::new();
        let mut pairs = pairs;
        let mut i: usize = 0;
        let n = pairs.len();
        while i < n
            invariant
                pairs_view(pairs@) == source,
                n == pairs@.len(),
                i <= n,
                out@.len() == i,
                bin_name@ == binary_with_ext(binary_name@, self.windows),
                unpacked_entries(source.take(i as int), self.windows, bin_name@, out@),
            decreases n - i,
        {
            let exec_bit = !self.windows && ends_with(pairs[i].0.as_str(), bin_name.as_str());
            let name = pairs[i].0.clone();
            let data = pairs[i].1.clone();
            proof {
                assert(pairs@[i as int].0@ == source[i as int].0);
                assert(pairs@[i as int].1@ == source[i as int].1);
            }
            out.push(ArchiveEntry { name, data, make_executable: exec_bit });
            i = i + 1;
        }
        proof {
            assert(source.take(n as int) =~= source);
        }
        Result::Ok(out)
    }
}

} // verus!
