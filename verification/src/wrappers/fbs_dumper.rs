//! The FlatBuffers-schema dumper: its option set and the exact command line
//! each option set maps to.

use vstd::prelude::*;
use crate::Error;
use crate::wrappers::command::{
    Invocation, args_view, flag_contrib, flag_seg, lemma_tok_count_concat,
    lemma_tok_count_flag_seg, lemma_tok_count_opt_seg, lemma_tok_count_pair, opt_contrib, opt_seg,
    push_arg, push_arg_string, push_flag, push_opt, tok_count,
};

verus! {

/// A dumper bound to a binary that was present when it was constructed.
pub struct FbsDumper {
    binary: String,
}

impl View for FbsDumper {
    type V = Seq<char>;

    /// A dumper is characterised by the binary path it is bound to.
    closed spec fn view(&self) -> Seq<char> {
        self.binary@
    }
}

/// Everything the dumper can be told. `url` and `binary_name` configure
/// fetching and extraction; the rest become command-line flags.
#[derive(Debug)]
pub struct FbsDumperOptions {
    pub url: Option<String>,
    pub binary_name: Option<String>,
    pub dummy_dll: String,
    pub game_assembly: Option<String>,
    pub output_file: Option<String>,
    pub namespace: Option<String>,
    pub force_snake_case: bool,
    pub namespace_to_look_for: Option<String>,
    pub force: bool,
    pub verbose: bool,
    pub suppress_warnings: bool,
}

/// Every field at its built-in default: unset, false or empty.
pub open spec fn fbs_defaults(o: FbsDumperOptions) -> bool {
    &&& o.url is None
    &&& o.binary_name is None
    &&& o.dummy_dll@ == Seq::<char>::empty()
    &&& o.game_assembly is None
    &&& o.output_file is None
    &&& o.namespace is None
    &&& o.force_snake_case == false
    &&& o.namespace_to_look_for is None
    &&& o.force == false
    &&& o.verbose == false
    &&& o.suppress_warnings == false
}

impl Default for FbsDumperOptions {
    /// All options unset: no flag is emitted for any of them.
    fn default() -> (r: Self)
        ensures
            fbs_defaults(r),
    {
        FbsDumperOptions {
            url: Option::None,
            binary_name: Option::None,
            dummy_dll: String::new(),
            game_assembly: Option::None,
            output_file: Option::None,
            namespace: Option::None,
            force_snake_case: false,
            namespace_to_look_for: Option::None,
            force: false,
            verbose: false,
            suppress_warnings: false,
        }
    }
}

/// The full argument list for one option set: the mandatory dummy-DLL path,
/// then every populated option, each exactly once, in a fixed order.
pub open spec fn fbs_args_spec(o: FbsDumperOptions) -> Seq<Seq<char>> {
    seq!["--dummy-dll"@, o.dummy_dll@] + opt_seg("--game-assembly"@, o.game_assembly) + opt_seg(
        "--output-file"@,
        o.output_file,
    ) + opt_seg("--namespace"@, o.namespace) + flag_seg("--force-snake-case"@, o.force_snake_case)
        + opt_seg("--namespace-to-look-for"@, o.namespace_to_look_for) + flag_seg(
        "--force"@,
        o.force,
    ) + flag_seg("--verbose"@, o.verbose) + flag_seg("--suppress-warnings"@, o.suppress_warnings)
}

/// The nine flag tokens the dumper's command line is built from.
pub open spec fn fbs_flag_tokens() -> Seq<Seq<char>> {
    seq![
        "--dummy-dll"@,
        "--game-assembly"@,
        "--output-file"@,
        "--namespace"@,
        "--force-snake-case"@,
        "--namespace-to-look-for"@,
        "--force"@,
        "--verbose"@,
        "--suppress-warnings"@,
    ]
}

/// No populated value is itself the exact text of a flag token; on such
/// inputs occurrence counts would conflate a value with a flag.
pub open spec fn fbs_values_flag_free(o: FbsDumperOptions) -> bool {
    &&& !fbs_flag_tokens().contains(o.dummy_dll@)
    &&& (o.game_assembly matches Some(s) ==> !fbs_flag_tokens().contains(s@))
    &&& (o.output_file matches Some(s) ==> !fbs_flag_tokens().contains(s@))
    &&& (o.namespace matches Some(s) ==> !fbs_flag_tokens().contains(s@))
    &&& (o.namespace_to_look_for matches Some(s) ==> !fbs_flag_tokens().contains(s@))
}

/// How often a token occurs in the dumper's argument list: once as the
/// mandatory flag or its value, plus each option's contribution.
proof fn lemma_fbs_count(o: FbsDumperOptions, t: Seq<char>)
    ensures
        tok_count(fbs_args_spec(o), t) as int == (if "--dummy-dll"@ == t {
            1int
        } else {
            0int
        }) + (if o.dummy_dll@ == t {
            1int
        } else {
            0int
        }) + opt_contrib("--game-assembly"@, o.game_assembly, t) + opt_contrib(
            "--output-file"@,
            o.output_file,
            t,
        ) + opt_contrib("--namespace"@, o.namespace, t) + flag_contrib(
            "--force-snake-case"@,
            o.force_snake_case,
            t,
        ) + opt_contrib("--namespace-to-look-for"@, o.namespace_to_look_for, t) + flag_contrib(
            "--force"@,
            o.force,
            t,
        ) + flag_contrib("--verbose"@, o.verbose, t) + flag_contrib(
            "--suppress-warnings"@,
            o.suppress_warnings,
            t,
        ),
{
    let s0 = seq!["--dummy-dll"@, o.dummy_dll@];
    let s1 = opt_seg("--game-assembly"@, o.game_assembly);
    let s2 = opt_seg("--output-file"@, o.output_file);
    let s3 = opt_seg("--namespace"@, o.namespace);
    let s4 = flag_seg("--force-snake-case"@, o.force_snake_case);
    let s5 = opt_seg("--namespace-to-look-for"@, o.namespace_to_look_for);
    let s6 = flag_seg("--force"@, o.force);
    let s7 = flag_seg("--verbose"@, o.verbose);
    let s8 = flag_seg("--suppress-warnings"@, o.suppress_warnings);
    assert(fbs_args_spec(o) == s0 + s1 + s2 + s3 + s4 + s5 + s6 + s7 + s8);
    lemma_tok_count_concat(s0, s1, t);
    lemma_tok_count_concat(s0 + s1, s2, t);
    lemma_tok_count_concat(s0 + s1 + s2, s3, t);
    lemma_tok_count_concat(s0 + s1 + s2 + s3, s4, t);
    lemma_tok_count_concat(s0 + s1 + s2 + s3 + s4, s5, t);
    lemma_tok_count_concat(s0 + s1 + s2 + s3 + s4 + s5, s6, t);
    lemma_tok_count_concat(s0 + s1 + s2 + s3 + s4 + s5 + s6, s7, t);
    lemma_tok_count_concat(s0 + s1 + s2 + s3 + s4 + s5 + s6 + s7, s8, t);
    assert(tok_count(fbs_args_spec(o), t) == tok_count(s0, t) + tok_count(s1, t) + tok_count(
        s2,
        t,
    ) + tok_count(s3, t) + tok_count(s4, t) + tok_count(s5, t) + tok_count(s6, t) + tok_count(
        s7,
        t,
    ) + tok_count(s8, t));
    lemma_tok_count_pair("--dummy-dll"@, o.dummy_dll@, t);
    lemma_tok_count_opt_seg("--game-assembly"@, o.game_assembly, t);
    lemma_tok_count_opt_seg("--output-file"@, o.output_file, t);
    lemma_tok_count_opt_seg("--namespace"@, o.namespace, t);
    lemma_tok_count_flag_seg("--force-snake-case"@, o.force_snake_case, t);
    lemma_tok_count_opt_seg("--namespace-to-look-for"@, o.namespace_to_look_for, t);
    lemma_tok_count_flag_seg("--force"@, o.force, t);
    lemma_tok_count_flag_seg("--verbose"@, o.verbose, t);
    lemma_tok_count_flag_seg("--suppress-warnings"@, o.suppress_warnings, t);
}

/// Flag-mapping totality: in the generated argument list, every populated
/// option's flag occurs exactly once, every unset option's flag occurs not
/// at all, and a boolean's bare flag occurs exactly when it is set — as long
/// as no populated value spells a flag token.
pub proof fn lemma_fbs_flag_totality(o: FbsDumperOptions)
    requires
        fbs_values_flag_free(o),
    ensures
        tok_count(fbs_args_spec(o), "--dummy-dll"@) == 1,
        tok_count(fbs_args_spec(o), "--game-assembly"@) == (if o.game_assembly is Some {
            1nat
        } else {
            0nat
        }),
        tok_count(fbs_args_spec(o), "--output-file"@) == (if o.output_file is Some {
            1nat
        } else {
            0nat
        }),
        tok_count(fbs_args_spec(o), "--namespace"@) == (if o.namespace is Some {
            1nat
        } else {
            0nat
        }),
        tok_count(fbs_args_spec(o), "--namespace-to-look-for"@) == (
        if o.namespace_to_look_for is Some {
            1nat
        } else {
            0nat
        }),
        tok_count(fbs_args_spec(o), "--force-snake-case"@) == (if o.force_snake_case {
            1nat
        } else {
            0nat
        }),
        tok_count(fbs_args_spec(o), "--force"@) == (if o.force {
            1nat
        } else {
            0nat
        }),
        tok_count(fbs_args_spec(o), "--verbose"@) == (if o.verbose {
            1nat
        } else {
            0nat
        }),
        tok_count(fbs_args_spec(o), "--suppress-warnings"@) == (if o.suppress_warnings {
            1nat
        } else {
            0nat
        }),
{
    reveal_strlit("--dummy-dll");
    reveal_strlit("--game-assembly");
    reveal_strlit("--output-file");
    reveal_strlit("--namespace");
    reveal_strlit("--force-snake-case");
    reveal_strlit("--namespace-to-look-for");
    reveal_strlit("--force");
    reveal_strlit("--verbose");
    reveal_strlit("--suppress-warnings");
    assert("--dummy-dll"@.len() == 11);
    assert("--game-assembly"@.len() == 15);
    assert("--output-file"@.len() == 13);
    assert("--namespace"@.len() == 11);
    assert("--force-snake-case"@.len() == 18);
    assert("--namespace-to-look-for"@.len() == 23);
    assert("--force"@.len() == 7);
    assert("--verbose"@.len() == 9);
    assert("--suppress-warnings"@.len() == 19);
    assert("--dummy-dll"@[2] == 'd');
    assert("--namespace"@[2] == 'n');
    assert(fbs_flag_tokens()[0] == "--dummy-dll"@);
    assert(fbs_flag_tokens()[1] == "--game-assembly"@);
    assert(fbs_flag_tokens()[2] == "--output-file"@);
    assert(fbs_flag_tokens()[3] == "--namespace"@);
    assert(fbs_flag_tokens()[4] == "--force-snake-case"@);
    assert(fbs_flag_tokens()[5] == "--namespace-to-look-for"@);
    assert(fbs_flag_tokens()[6] == "--force"@);
    assert(fbs_flag_tokens()[7] == "--verbose"@);
    assert(fbs_flag_tokens()[8] == "--suppress-warnings"@);
    lemma_fbs_count(o, "--dummy-dll"@);
    lemma_fbs_count(o, "--game-assembly"@);
    lemma_fbs_count(o, "--output-file"@);
    lemma_fbs_count(o, "--namespace"@);
    lemma_fbs_count(o, "--namespace-to-look-for"@);
    lemma_fbs_count(o, "--force-snake-case"@);
    lemma_fbs_count(o, "--force"@);
    lemma_fbs_count(o, "--verbose"@);
    lemma_fbs_count(o, "--suppress-warnings"@);
}

impl FbsDumper {
    /// Binds the dumper to its binary; `binary_present` reports whether the
    /// path exists, which the caller checks on the filesystem.
    pub fn new(binary: String, binary_present: bool) -> (r: Result<Self, Error>)
        ensures
            binary_present ==> (r matches Ok(d) && d@ == binary@),
            !binary_present ==> r == Result::<Self, Error>::Err(Error::BinaryNotFound(binary)),
    {
        if !binary_present {
            return Result::Err(Error::BinaryNotFound(binary));
        }
        Result::Ok(FbsDumper { binary })
    }

    /// The path this dumper was bound to.
    pub fn binary(&self) -> (r: &String)
        ensures
            r@ == self@,
    {
        &self.binary
    }

    /// Maps an option set to the invocation to spawn: the bound binary and
    /// exactly the flags `fbs_args_spec` lists.
    pub fn command(&self, options: &FbsDumperOptions) -> (inv: Invocation)
        ensures
            inv.program@ == self@,
            args_view(inv.args@) == fbs_args_spec(*options),
    {
        let mut args: Vec<String> = Vec::new();
        push_arg(&mut args, "--dummy-dll");
        push_arg_string(&mut args, options.dummy_dll.clone());
        push_opt(&mut args, &options.game_assembly, "--game-assembly");
        push_opt(&mut args, &options.output_file, "--output-file");
        push_opt(&mut args, &options.namespace, "--namespace");
        push_flag(&mut args, options.force_snake_case, "--force-snake-case");
        push_opt(&mut args, &options.namespace_to_look_for, "--namespace-to-look-for");
        push_flag(&mut args, options.force, "--force");
        push_flag(&mut args, options.verbose, "--verbose");
        push_flag(&mut args, options.suppress_warnings, "--suppress-warnings");
        proof {
            assert(args_view(args@) =~= fbs_args_spec(*options));
        }
        Invocation { program: self.binary.clone(), args }
    }
}

} // verus!
