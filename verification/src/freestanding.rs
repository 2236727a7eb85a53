//! The freestanding execution engine's own logic: its command line, the
//! paths that input and output files take in the virtual file system, and
//! the capability table that grants the program its rights on them.

use vstd::prelude::*;

use crate::codec::{str_chars, string_from_chars};

verus! {

/// How the engine runs the WebAssembly program.
#[derive(Debug, PartialEq, Eq, Clone, Copy)]
pub enum ExecutionStrategy {
    /// Interpretation.
    Interpretation,
    /// Just-in-time compilation.
    JIT,
}

/// All of the command line options passed to the program.
#[derive(Debug)]
pub struct CommandLineOptions {
    /// The list of file names passed as input data-sources.
    pub input_sources: Vec<String>,
    /// The list of file names passed as output.
    pub output_sources: Vec<String>,
    /// The filename passed as the WASM program to be executed.
    pub binary: String,
    /// The execution strategy to use when performing the computation.
    pub execution_strategy: ExecutionStrategy,
    /// Whether the contents of `stdout` should be dumped before exiting.
    pub dump_stdout: bool,
    /// Whether the contents of `stderr` should be dumped before exiting.
    pub dump_stderr: bool,
}

/// The values the argument parser found on the command line (after
/// defaults), one field per option.
#[derive(Debug)]
pub struct CommandLineArguments {
    /// `--execution-strategy`, which defaults to `interp`.
    pub execution_strategy: Option<String>,
    /// `--program`.
    pub program: Option<String>,
    /// `--input-source`, any number of them.
    pub input: Option<Vec<String>>,
    /// `--output-source`, any number of them.
    pub output: Option<Vec<String>>,
    /// `--dump-stdout`, which defaults to `false`.
    pub dump_stdout: Option<String>,
    /// `--dump-stderr`, which defaults to `false`.
    pub dump_stderr: Option<String>,
}

/// Why the command line was refused.
#[derive(Debug, PartialEq, Eq)]
pub enum CommandLineError {
    /// The strategy is neither `interp` nor `jit`.
    UnknownExecutionStrategy(String),
    /// No strategy came through, not even the default.
    MissingExecutionStrategy,
    /// No program was named.
    MissingProgram,
    /// `--dump-stdout` is no boolean.
    InvalidDumpStdout(String),
    /// No `--dump-stdout` came through, not even the default.
    MissingDumpStdout,
    /// `--dump-stderr` is no boolean.
    InvalidDumpStderr(String),
    /// No `--dump-stderr` came through, not even the default.
    MissingDumpStderr,
}

/// The strategy that a strategy name selects.
pub open spec fn execution_strategy_spec(name: Seq<char>) -> Option<ExecutionStrategy> {
    if name == "interp"@ {
        Some(ExecutionStrategy::Interpretation)
    } else if name == "jit"@ {
        Some(ExecutionStrategy::JIT)
    } else {
        None
    }
}

/// `bool::from_str`: exactly `true` and `false` are booleans.
pub open spec fn bool_flag_spec(text: Seq<char>) -> Option<bool> {
    if text == "true"@ {
        Some(true)
    } else if text == "false"@ {
        Some(false)
    } else {
        None
    }
}

/// The text of a boolean, as its `Display` writes it.
pub open spec fn bool_text_spec(b: bool) -> Seq<char> {
    if b {
        "true"@
    } else {
        "false"@
    }
}

/// Selects the execution strategy by name: `interp` or `jit`.
pub fn parse_execution_strategy(name: &String) -> (r: Option<ExecutionStrategy>)
    ensures
        r == execution_strategy_spec(name@),
{
    let interp = String::from_str("interp");
    let jit = String::from_str("jit");
    if *name == interp {
        Some(ExecutionStrategy::Interpretation)
    } else if *name == jit {
        Some(ExecutionStrategy::JIT)
    } else {
        None
    }
}

/// Parses a boolean flag as `bool::from_str` does.
pub fn parse_bool_flag(text: &String) -> (r: Option<bool>)
    ensures
        r == bool_flag_spec(text@),
{
    let yes = String::from_str("true");
    let no = String::from_str("false");
    if *text == yes {
        Some(true)
    } else if *text == no {
        Some(false)
    } else {
        None
    }
}

/// The text of a boolean: the default values of the dump flags are given
/// to the argument parser in this form.
pub fn bool_flag_text(b: bool) -> (text: String)
    ensures
        text@ == bool_text_spec(b),
{
    if b {
        String::from_str("true")
    } else {
        String::from_str("false")
    }
}

/// Whether `opts` is what a command line with these arguments gives,
/// once every option is known to be valid.
pub open spec fn options_match(opts: CommandLineOptions, args: CommandLineArguments) -> bool {
    &&& opts.execution_strategy == execution_strategy_spec(args.execution_strategy->Some_0@)->Some_0
    &&& opts.binary@ == args.program->Some_0@
    &&& opts.input_sources@ == match args.input {
        Some(v) => v@,
        None => Seq::<String>::empty(),
    }
    &&& opts.output_sources@ == match args.output {
        Some(v) => v@,
        None => Seq::<String>::empty(),
    }
    &&& opts.dump_stdout == bool_flag_spec(args.dump_stdout->Some_0@)->Some_0
    &&& opts.dump_stderr == bool_flag_spec(args.dump_stderr->Some_0@)->Some_0
}

/// Builds the command line options from what the argument parser found.
/// The checks go in this order: strategy, program, `--dump-stdout`,
/// `--dump-stderr`; the first that fails is reported.
pub fn command_line_options(args: CommandLineArguments) -> (r: Result<
    CommandLineOptions,
    CommandLineError,
>)
    ensures
        args.execution_strategy is None ==> r == Err::<CommandLineOptions, CommandLineError>(
            CommandLineError::MissingExecutionStrategy,
        ),
        args.execution_strategy matches Some(s) ==> (execution_strategy_spec(s@) is None ==> (r matches Err(
            CommandLineError::UnknownExecutionStrategy(t),
        ) && t@ == s@)),
        args.execution_strategy matches Some(s) ==> (execution_strategy_spec(s@) is Some ==> (
        args.program is None ==> r == Err::<CommandLineOptions, CommandLineError>(
            CommandLineError::MissingProgram,
        ))),
        args.execution_strategy matches Some(s) ==> (execution_strategy_spec(s@) is Some ==> (
        args.program is Some ==> (args.dump_stdout is None ==> r == Err::<
            CommandLineOptions,
            CommandLineError,
        >(CommandLineError::MissingDumpStdout)))),
        args.execution_strategy matches Some(s) ==> (execution_strategy_spec(s@) is Some ==> (
        args.program is Some ==> (args.dump_stdout matches Some(d) ==> (bool_flag_spec(d@) is None
            ==> (r matches Err(CommandLineError::InvalidDumpStdout(t)) && t@ == d@))))),
        args.execution_strategy matches Some(s) ==> (execution_strategy_spec(s@) is Some ==> (
        args.program is Some ==> (args.dump_stdout matches Some(d) ==> (bool_flag_spec(d@) is Some
            ==> (args.dump_stderr is None ==> r == Err::<CommandLineOptions, CommandLineError>(
            CommandLineError::MissingDumpStderr,
        )))))),
        args.execution_strategy matches Some(s) ==> (execution_strategy_spec(s@) is Some ==> (
        args.program is Some ==> (args.dump_stdout matches Some(d) ==> (bool_flag_spec(d@) is Some
            ==> (args.dump_stderr matches Some(e) ==> (bool_flag_spec(e@) is None ==> (r matches Err(
            CommandLineError::InvalidDumpStderr(t),
        ) && t@ == e@))))))),
        args.execution_strategy matches Some(s) ==> (execution_strategy_spec(s@) is Some ==> (
        args.program is Some ==> (args.dump_stdout matches Some(d) ==> (bool_flag_spec(d@) is Some
            ==> (args.dump_stderr matches Some(e) ==> (bool_flag_spec(e@) is Some ==> (r matches Ok(
            opts,
        ) && options_match(opts, args)))))))),
{
    let CommandLineArguments { execution_strategy, program, input, output, dump_stdout, dump_stderr } =
        args;
    let execution_strategy = match execution_strategy {
        None => {
            return Err(CommandLineError::MissingExecutionStrategy);
        },
        Some(name) => match parse_execution_strategy(&name) {
            Some(strategy) => strategy,
            None => {
                return Err(CommandLineError::UnknownExecutionStrategy(name));
            },
        },
    };
    let binary = match program {
        None => {
            return Err(CommandLineError::MissingProgram);
        },
        Some(binary) => binary,
    };
    let input_sources = match input {
        Some(v) => v,
        None => Vec::new(),
    };
    let output_sources = match output {
        Some(v) => v,
        None => Vec::new(),
    };
    let dump_stdout = match dump_stdout {
        None => {
            return Err(CommandLineError::MissingDumpStdout);
        },
        Some(text) => match parse_bool_flag(&text) {
            Some(b) => b,
            None => {
                return Err(CommandLineError::InvalidDumpStdout(text));
            },
        },
    };
    let dump_stderr = match dump_stderr {
        None => {
            return Err(CommandLineError::MissingDumpStderr);
        },
        Some(text) => match parse_bool_flag(&text) {
            Some(b) => b,
            None => {
                return Err(CommandLineError::InvalidDumpStderr(text));
            },
        },
    };
    Ok(
        CommandLineOptions {
            input_sources,
            output_sources,
            binary,
            execution_strategy,
            dump_stdout,
            dump_stderr,
        },
    )
}

/// A boolean's text reads back as the same boolean: the defaults of the
/// dump flags, written with `bool_flag_text`, parse back to themselves.
pub proof fn lemma_bool_flag_round_trip(b: bool)
    ensures
        bool_flag_spec(bool_text_spec(b)) == Some(b),
{
    reveal_strlit("true");
    reveal_strlit("false");
    assert("true"@ != "false"@) by {
        assert("true"@[0] != "false"@[0]);
    }
}

/// The path in the virtual file system that `Path::new("/").join(path)`
/// gives: an absolute path stays as it is, a relative one is put under the
/// root.
pub open spec fn vfs_path_spec(path: Seq<char>) -> Seq<char> {
    if path.len() > 0 && path[0] == '/' {
        path
    } else {
        seq!['/'] + path
    }
}

/// The absolute path of a file in the engine's virtual file system: the
/// root joined with the path given on the command line.
pub fn vfs_absolute_path(path: &str) -> (abs: String)
    ensures
        abs@ == vfs_path_spec(path@),
{
    let chars = str_chars(path);
    if chars.len() > 0 && chars[0] == '/' {
        string_from_chars(chars.as_slice())
    } else {
        let mut rooted: Vec<char> = Vec::new();
        rooted.push('/');
        let mut i: usize = 0;
        while i < chars.len()
            invariant
                i <= chars@.len(),
                rooted@ == seq!['/'] + chars@.take(i as int),
            decreases chars@.len() - i,
        {
            rooted.push(chars[i]);
            i = i + 1;
            assert(rooted@ =~= seq!['/'] + chars@.take(i as int));
        }
        assert(chars@.take(chars@.len() as int) =~= chars@);
        string_from_chars(rooted.as_slice())
    }
}

/// Every virtual file system path is absolute, and rooting it again
/// changes nothing.
pub proof fn lemma_vfs_path_absolute(path: Seq<char>)
    ensures
        vfs_path_spec(path).len() > 0,
        vfs_path_spec(path)[0] == '/',
        vfs_path_spec(vfs_path_spec(path)) == vfs_path_spec(path),
{
}

/// The index of the last `/` in `path`, or -1 when there is none.
pub open spec fn last_separator(path: Seq<char>) -> int
    decreases path.len(),
{
    if path.len() == 0 {
        -1
    } else if path.last() == '/' {
        path.len() - 1
    } else {
        last_separator(path.drop_last())
    }
}

/// The last separator lies within the path.
pub proof fn lemma_last_separator(path: Seq<char>)
    ensures
        -1 <= last_separator(path) < path.len(),
        last_separator(path) >= 0 ==> path[last_separator(path)] == '/',
        forall|k: int| last_separator(path) < k < path.len() ==> path[k] != '/',
    decreases path.len(),
{
    if path.len() > 0 && path.last() != '/' {
        let init = path.drop_last();
        lemma_last_separator(init);
        assert forall|k: int| last_separator(path) < k < path.len() implies path[k] != '/' by {
            if k < init.len() {
                assert(init[k] == path[k]);
            }
        }
    }
}

/// The last `/`-separated part of a path that is neither empty nor `.`
/// (the parts that the components of a Unix path skip).
pub open spec fn last_named_part(path: Seq<char>) -> Option<Seq<char>>
    decreases path.len(),
{
    if path.len() == 0 {
        None
    } else {
        let i = last_separator(path);
        proof {
            lemma_last_separator(path);
        }
        let part = path.subrange(i + 1, path.len() as int);
        if part.len() == 0 || part == "."@ {
            if i < 0 {
                None
            } else {
                last_named_part(path.subrange(0, i))
            }
        } else {
            Some(part)
        }
    }
}

/// `Path::file_name` on a Unix path: the last component if it is a normal
/// one, that is, the last part that is neither empty nor `.`, unless that
/// part is `..`; `None` where there is no such part.
pub open spec fn path_file_name(path: Seq<char>) -> Option<Seq<char>> {
    match last_named_part(path) {
        Some(part) => if part == ".."@ {
            None
        } else {
            Some(part)
        },
        None => None,
    }
}

/// Calls `std::path::Path::file_name` on the path and turns the component
/// back into a string.  Trusted: the result is `path_file_name` of the path.
/// A Unix path's components are its `/`-separated parts without the empty
/// ones and the `.` ones (a leading `.` is a current-directory component,
/// which is no file name either), `..` is a parent-directory component, and
/// `file_name` is the last component when it is a normal one.  The
/// component of a path that came from a `str` is valid UTF-8, so the
/// conversion back cannot fail.
#[verifier::external_body]
fn file_name_of(path: &str) -> (name: Option<String>)
    ensures
        match path_file_name(path@) {
            Some(n) => name matches Some(s) && s@ == n,
            None => name is None,
        },
{
    std::path::Path::new(path).file_name().and_then(|n| n.to_str()).map(|n| n.to_string())
}

/// Why a program file could not be named in the virtual file system.
#[derive(Debug, PartialEq, Eq)]
pub enum FileNameError {
    /// The path has no file name.
    NoFileName,
}

/// The name under which a program loaded from `file_path` is placed in the
/// virtual file system: the path's file name.
pub fn program_file_name(file_path: &str) -> (r: Result<String, FileNameError>)
    ensures
        match path_file_name(file_path@) {
            Some(n) => r matches Ok(s) && s@ == n,
            None => r == Err::<String, FileNameError>(FileNameError::NoFileName),
        },
{
    match file_name_of(file_path) {
        Some(name) => Ok(name),
        None => Err(FileNameError::NoFileName),
    }
}

/// WASI right: read from a file descriptor.
pub const FD_READ: u64 = 0x2;
/// WASI right: move a file descriptor's offset.
pub const FD_SEEK: u64 = 0x4;
/// WASI right: write to a file descriptor.
pub const FD_WRITE: u64 = 0x40;
/// WASI right: create a directory.
pub const PATH_CREATE_DIRECTORY: u64 = 0x200;
/// WASI right: create a file.
pub const PATH_CREATE_FILE: u64 = 0x400;
/// WASI right: open a path.
pub const PATH_OPEN: u64 = 0x2000;
/// WASI right: read a directory.
pub const FD_READDIR: u64 = 0x4000;
/// WASI right: change a file's size.
pub const PATH_FILESTAT_SET_SIZE: u64 = 0x80000;

/// The rights on a file that the program may only read.
pub open spec fn read_right_spec() -> u64 {
    PATH_OPEN | FD_READ | FD_SEEK
}

/// The rights on a file that the program may write.
pub open spec fn write_right_spec() -> u64 {
    PATH_OPEN | FD_WRITE | FD_SEEK | PATH_CREATE_FILE | PATH_FILESTAT_SET_SIZE
}

/// The rights on the root directory.
pub open spec fn root_right_spec() -> u64 {
    read_right_spec() | FD_READDIR | PATH_CREATE_DIRECTORY
}

/// The rights on a file that the program may only read.
pub fn read_right() -> (r: u64)
    ensures
        r == read_right_spec(),
{
    PATH_OPEN | FD_READ | FD_SEEK
}

/// The rights on a file that the program may write.
pub fn write_right() -> (r: u64)
    ensures
        r == write_right_spec(),
{
    PATH_OPEN | FD_WRITE | FD_SEEK | PATH_CREATE_FILE | PATH_FILESTAT_SET_SIZE
}

/// The rights on the root directory: read it, list it, make directories.
pub fn root_right() -> (r: u64)
    ensures
        r == root_right_spec(),
{
    read_right() | FD_READDIR | PATH_CREATE_DIRECTORY
}

/// Read rights hold no right to write or to create or resize files.
pub proof fn lemma_read_right_cannot_write()
    ensures
        read_right_spec() & FD_WRITE == 0,
        read_right_spec() & PATH_CREATE_FILE == 0,
        read_right_spec() & PATH_FILESTAT_SET_SIZE == 0,
        write_right_spec() & FD_WRITE == FD_WRITE,
{
    assert((0x2000u64 | 0x2u64 | 0x4u64) & 0x40u64 == 0) by (bit_vector);
    assert((0x2000u64 | 0x2u64 | 0x4u64) & 0x400u64 == 0) by (bit_vector);
    assert((0x2000u64 | 0x2u64 | 0x4u64) & 0x80000u64 == 0) by (bit_vector);
    assert((0x2000u64 | 0x40u64 | 0x4u64 | 0x400u64 | 0x80000u64) & 0x40u64 == 0x40u64)
        by (bit_vector);
}

/// The standard streams of the program and the rights it has on them:
/// `stdin` to read, `stdout` and `stderr` to write.
pub open spec fn std_stream_entries() -> Seq<(Seq<char>, u64)> {
    seq![("stdin"@, read_right_spec()), ("stdout"@, write_right_spec()), ("stderr"@, write_right_spec())]
}

/// The entries of the program's capability table, in the order they are
/// inserted (a later entry for the same path replaces an earlier one): the
/// root, the program, each input, the standard streams, each output.
pub open spec fn file_rights_entries(
    program_file_name: Seq<char>,
    inputs: Seq<Seq<char>>,
    outputs: Seq<Seq<char>>,
) -> Seq<(Seq<char>, u64)> {
    seq![("/"@, root_right_spec()), (vfs_path_spec(program_file_name), read_right_spec())]
        + inputs.map_values(|p: Seq<char>| (vfs_path_spec(p), read_right_spec()))
        + std_stream_entries()
        + outputs.map_values(|p: Seq<char>| (vfs_path_spec(p), write_right_spec()))
}

/// The view of a table of string paths and rights.
pub open spec fn entries_view(entries: Seq<(String, u64)>) -> Seq<(Seq<char>, u64)> {
    entries.map_values(|e: (String, u64)| (e.0@, e.1))
}

/// Appends `(path, rights)` for each path, rooted in the virtual file
/// system.
fn push_rooted_entries(table: &mut Vec<(String, u64)>, paths: &Vec<String>, rights: u64)
    ensures
        entries_view(final(table)@) == entries_view(old(table)@) + paths@.map_values(
            |p: String| p@,
        ).map_values(|p: Seq<char>| (vfs_path_spec(p), rights)),
{
    let ghost start = entries_view(table@);
    let ghost pv = paths@.map_values(|p: String| p@);
    let mut i: usize = 0;
    while i < paths.len()
        invariant
            i <= paths@.len(),
            pv == paths@.map_values(|p: String| p@),
            entries_view(table@) == start + pv.take(i as int).map_values(
                |p: Seq<char>| (vfs_path_spec(p), rights),
            ),
        decreases paths@.len() - i,
    {
        let path = vfs_absolute_path(paths[i].as_str());
        let ghost before = table@;
        table.push((path, rights));
        assert(entries_view(table@) =~= entries_view(before).push((vfs_path_spec(pv[i as int]), rights)));
        assert(pv.take(i as int + 1) =~= pv.take(i as int).push(pv[i as int]));
        assert(pv.take(i as int + 1).map_values(|p: Seq<char>| (vfs_path_spec(p), rights))
            =~= pv.take(i as int).map_values(|p: Seq<char>| (vfs_path_spec(p), rights)).push(
            (vfs_path_spec(pv[i as int]), rights),
        ));
        assert(entries_view(table@) =~= start + pv.take(i as int + 1).map_values(
            |p: Seq<char>| (vfs_path_spec(p), rights),
        ));
        i = i + 1;
    }
    assert(pv.take(paths@.len() as int) =~= pv);
}

/// The capability table of the program: the paths it may use and its
/// rights on each, listed in insertion order.
pub fn file_rights_table(
    program_file_name: &str,
    input_sources: &Vec<String>,
    output_sources: &Vec<String>,
) -> (table: Vec<(String, u64)>)
    ensures
        entries_view(table@) == file_rights_entries(
            program_file_name@,
            input_sources@.map_values(|p: String| p@),
            output_sources@.map_values(|p: String| p@),
        ),
{
    let ghost inputs = input_sources@.map_values(|p: String| p@);
    let ghost outputs = output_sources@.map_values(|p: String| p@);
    let mut table: Vec<(String, u64)> = Vec::new();
    table.push((String::from_str("/"), root_right()));
    table.push((vfs_absolute_path(program_file_name), read_right()));
    assert(entries_view(table@) =~= seq![
        ("/"@, root_right_spec()),
        (vfs_path_spec(program_file_name@), read_right_spec()),
    ]);
    let ghost head = entries_view(table@);
    push_rooted_entries(&mut table, input_sources, read_right());
    let ghost with_inputs = entries_view(table@);
    table.push((String::from_str("stdin"), read_right()));
    table.push((String::from_str("stdout"), write_right()));
    table.push((String::from_str("stderr"), write_right()));
    assert(entries_view(table@) =~= with_inputs + std_stream_entries());
    let ghost with_streams = entries_view(table@);
    push_rooted_entries(&mut table, output_sources, write_right());
    assert(entries_view(table@) =~= file_rights_entries(
        program_file_name@,
        input_sources@.map_values(|p: String| p@),
        output_sources@.map_values(|p: String| p@),
    ));
    table
}

/// The normal parts of a path, in order: its `/`-separated parts without
/// the empty ones and the `.` ones.
pub open spec fn path_parts(path: Seq<char>) -> Seq<Seq<char>>
    decreases path.len(),
{
    if path.len() == 0 {
        seq![]
    } else {
        let i = last_separator(path);
        proof {
            lemma_last_separator(path);
        }
        let part = path.subrange(i + 1, path.len() as int);
        let rest = if i < 0 {
            Seq::<Seq<char>>::empty()
        } else {
            path_parts(path.subrange(0, i))
        };
        if part.len() == 0 || part == "."@ {
            rest
        } else {
            rest.push(part)
        }
    }
}

/// What identifies a Unix path when paths are compared component by
/// component (as `Path` and `PathBuf` compare): whether it starts at the
/// root, whether it starts with a current-directory `.`, and its other
/// parts.
pub open spec fn path_identity(path: Seq<char>) -> (bool, bool, Seq<Seq<char>>) {
    (
        path.len() > 0 && path[0] == '/',
        path.len() > 0 && path[0] == '.' && (path.len() == 1 || path[1] == '/'),
        path_parts(path),
    )
}

/// The rights that a table grants on `path` once all its entries are
/// inserted in order into a map keyed by path: those of the last entry
/// whose path has the same components.
pub open spec fn final_rights(entries: Seq<(Seq<char>, u64)>, path: Seq<char>) -> Option<u64>
    decreases entries.len(),
{
    if entries.len() == 0 {
        None
    } else if path_identity(entries.last().0) == path_identity(path) {
        Some(entries.last().1)
    } else {
        final_rights(entries.drop_last(), path)
    }
}

proof fn lemma_final_rights_concat(a: Seq<(Seq<char>, u64)>, b: Seq<(Seq<char>, u64)>, path: Seq<char>)
    ensures
        final_rights(a + b, path) == match final_rights(b, path) {
            Some(r) => Some(r),
            None => final_rights(a, path),
        },
    decreases b.len(),
{
    if b.len() == 0 {
        assert(a + b =~= a);
    } else {
        assert((a + b).drop_last() =~= a + b.drop_last());
        assert((a + b).last() == b.last());
        lemma_final_rights_concat(a, b.drop_last(), path);
    }
}

proof fn lemma_final_rights_uniform(paths: Seq<Seq<char>>, rights: u64, path: Seq<char>)
    ensures
        (exists|k: int|
            0 <= k < paths.len() && path_identity(vfs_path_spec(#[trigger] paths[k]))
                == path_identity(path)) ==> final_rights(
            paths.map_values(|q: Seq<char>| (vfs_path_spec(q), rights)),
            path,
        ) == Some(rights),
        (forall|k: int|
            0 <= k < paths.len() ==> path_identity(vfs_path_spec(#[trigger] paths[k]))
                != path_identity(path)) ==> final_rights(
            paths.map_values(|q: Seq<char>| (vfs_path_spec(q), rights)),
            path,
        ) is None,
    decreases paths.len(),
{
    let entries = paths.map_values(|q: Seq<char>| (vfs_path_spec(q), rights));
    if paths.len() > 0 {
        let init = paths.drop_last();
        assert(entries.drop_last() =~= init.map_values(|q: Seq<char>| (vfs_path_spec(q), rights)));
        lemma_final_rights_uniform(init, rights, path);
        if exists|k: int|
            0 <= k < paths.len() && path_identity(vfs_path_spec(#[trigger] paths[k]))
                == path_identity(path) {
            let k = choose|k: int|
                0 <= k < paths.len() && path_identity(vfs_path_spec(#[trigger] paths[k]))
                    == path_identity(path);
            if k < init.len() {
                assert(init[k] == paths[k]);
            }
        }
        if forall|k: int|
            0 <= k < paths.len() ==> path_identity(vfs_path_spec(#[trigger] paths[k]))
                != path_identity(path) {
            assert forall|k: int| 0 <= k < init.len() implies path_identity(
                vfs_path_spec(#[trigger] init[k]),
            ) != path_identity(path) by {
                assert(init[k] == paths[k]);
            }
        }
    }
}

/// Every output source is writable: whatever the inputs and the program
/// are, the last entry of the table for an output's path grants write
/// rights.
pub proof fn lemma_outputs_writable(
    program_file_name: Seq<char>,
    inputs: Seq<Seq<char>>,
    outputs: Seq<Seq<char>>,
    k: int,
)
    requires
        0 <= k < outputs.len(),
    ensures
        final_rights(
            file_rights_entries(program_file_name, inputs, outputs),
            vfs_path_spec(outputs[k]),
        ) == Some(write_right_spec()),
{
    let path = vfs_path_spec(outputs[k]);
    let front = seq![("/"@, root_right_spec()), (vfs_path_spec(program_file_name), read_right_spec())]
        + inputs.map_values(|p: Seq<char>| (vfs_path_spec(p), read_right_spec()))
        + std_stream_entries();
    let outs = outputs.map_values(|p: Seq<char>| (vfs_path_spec(p), write_right_spec()));
    assert(file_rights_entries(program_file_name, inputs, outputs) == front + outs);
    lemma_final_rights_uniform(outputs, write_right_spec(), path);
    lemma_final_rights_concat(front, outs, path);
}

/// An input source whose path is no output's path (compared component by
/// component) stays read-only: the last entry of the table for its path
/// grants the read rights alone.
pub proof fn lemma_inputs_read_only(
    program_file_name: Seq<char>,
    inputs: Seq<Seq<char>>,
    outputs: Seq<Seq<char>>,
    k: int,
)
    requires
        0 <= k < inputs.len(),
        forall|j: int|
            0 <= j < outputs.len() ==> path_identity(vfs_path_spec(#[trigger] outputs[j]))
                != path_identity(vfs_path_spec(inputs[k])),
    ensures
        final_rights(
            file_rights_entries(program_file_name, inputs, outputs),
            vfs_path_spec(inputs[k]),
        ) == Some(read_right_spec()),
{
    let path = vfs_path_spec(inputs[k]);
    lemma_vfs_path_absolute(inputs[k]);
    let head = seq![("/"@, root_right_spec()), (vfs_path_spec(program_file_name), read_right_spec())];
    let ins = inputs.map_values(|p: Seq<char>| (vfs_path_spec(p), read_right_spec()));
    let outs = outputs.map_values(|p: Seq<char>| (vfs_path_spec(p), write_right_spec()));
    assert(file_rights_entries(program_file_name, inputs, outputs) == ((head + ins)
        + std_stream_entries()) + outs);
    lemma_final_rights_uniform(outputs, write_right_spec(), path);
    lemma_final_rights_concat((head + ins) + std_stream_entries(), outs, path);
    reveal_strlit("stdin");
    reveal_strlit("stdout");
    reveal_strlit("stderr");
    let streams = std_stream_entries();
    assert(path_identity(streams[0].0).0 != path_identity(path).0);
    assert(path_identity(streams[1].0).0 != path_identity(path).0);
    assert(path_identity(streams[2].0).0 != path_identity(path).0);
    assert(final_rights(streams, path) is None) by {
        let s2 = streams.drop_last();
        let s1 = s2.drop_last();
        let s0 = s1.drop_last();
        assert(s0.len() == 0);
        assert(final_rights(s0, path) is None);
        assert(s1.len() == 1 && s2.len() == 2);
        assert(s1.last() == streams[0]);
        assert(s2.last() == streams[1]);
        assert(path_identity(streams[0].0) != path_identity(path));
        assert(path_identity(streams[1].0) != path_identity(path));
        assert(path_identity(streams[2].0) != path_identity(path));
        assert(final_rights(s1, path) is None);
        assert(final_rights(s2, path) is None);
    }
    lemma_final_rights_concat(head + ins, streams, path);
    lemma_final_rights_uniform(inputs, read_right_spec(), path);
    lemma_final_rights_concat(head, ins, path);
}

} // verus!
