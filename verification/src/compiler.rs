//! The two ways of compiling a Sierra class to CASM and hashing the result: a compiler of a
//! pinned version, and a compiler program.
//!
//! Both are run by the caller. A compiler does not return on every text that reads as a
//! class: it loops or ends the process on some. What the library does always returns, so it
//! does what lies around the run: it writes the compiler's input, the class without its ABI,
//! and it hashes the compiler's output.

use crate::artifact::{
    compiled_class_hash,
    compiled_class_hash_of,
    document_is_compiled,
    parses_as_compiled,
    compiler_form,
    has_empty_abi,
    SierraClass,
    SierraClassView,
};
use crate::felt::Felt;
use crate::text::text_is;
use std::path::PathBuf;
use vstd::prelude::*;
use vstd::string::StringExecFns;
use vstd::utf8::{decode_utf8, valid_utf8};

verus! {

/// A path in the file system: std's `PathBuf`, of which the library reads nothing.
#[verifier::external_type_specification]
#[verifier::external_body]
pub struct ExPathBuf(PathBuf);

/// `PathBuf`'s `clone`: the copy is the same path.
pub assume_specification[ <PathBuf as Clone>::clone ](path: &PathBuf) -> (copy: PathBuf)
    ensures
        copy == *path,
;

/// `String::from_utf8`: the text that the bytes encode, if they are valid UTF-8.
#[verifier::external_body]
fn utf8_string(bytes: Vec<u8>) -> (r: Option<String>)
    ensures
        r.is_some() == valid_utf8(bytes@),
        r matches Some(text) ==> text@ == decode_utf8(bytes@),
{
    String::from_utf8(bytes).ok()
}

/// The versions of the Sierra compiler that the library knows, oldest first.
#[derive(Debug, Clone, Copy, PartialEq, Eq, Structural)]
pub enum CompilerVersion {
    /// Version 2.1.0.
    V2_1_0,
    /// Version 2.4.0.
    V2_4_0,
}

/// Why a compilation strategy gave no hash.
#[derive(Debug, Clone, Copy, PartialEq, Eq, Structural)]
pub enum CompileError {
    /// The Sierra class could not be written in the form that compilers take.
    Normalization,
    /// The compiler of the pinned version made no compiled class of the class: it refused the
    /// class, or it was not run.
    Rejected,
    /// The compiler program did not exit with status 0; the exit code, where it had one.
    ProcessFailed { exit_code: Option<i32> },
    /// The compiler program's output is not valid UTF-8.
    OutputNotUtf8,
    /// The compiler's output is no compiled-class document.
    OutputNotCasm,
    /// The hash of the compiled class could not be computed.
    HashFailed,
}

/// A name that is no version's.
#[derive(Debug, PartialEq, Eq)]
pub struct UnknownVersion {
    /// The name as it was given.
    pub name: String,
}

impl UnknownVersion {
    /// The error as text: `unknown version: ` and the name.
    pub fn message(&self) -> (text: String)
        ensures
            text@ == "unknown version: "@ + self.name@,
    {
        let mut text: String = "unknown version: ".to_owned();
        text.append(self.name.as_str());
        text
    }
}

/// A compiler of one pinned version.
#[derive(Debug)]
pub struct BuiltInCompiler {
    version: CompilerVersion,
}

/// A compiler program outside the library, named by its path.
#[derive(Debug)]
pub struct CompilerBinary {
    path: PathBuf,
}

/// How a run of the compiler program ended: its exit code, if it exited by itself, and what it
/// wrote to standard output.
#[derive(Debug)]
pub struct CompilerRun {
    pub exit_code: Option<i32>,
    pub stdout: Vec<u8>,
}

/// The version that a name stands for: the version's number, with or without a leading `v`.
pub open spec fn version_named(name: Seq<char>) -> Option<CompilerVersion> {
    if name == "2.1.0"@ || name == "v2.1.0"@ {
        Some(CompilerVersion::V2_1_0)
    } else if name == "2.4.0"@ || name == "v2.4.0"@ {
        Some(CompilerVersion::V2_4_0)
    } else {
        None
    }
}

/// The hash of the compiled class in a compiler's output.
pub open spec fn hash_of_compiler_output(casm: Seq<char>) -> Result<nat, CompileError> {
    if !parses_as_compiled(casm) {
        Err(CompileError::OutputNotCasm)
    } else {
        match compiled_class_hash_of(casm) {
            Some(hash) => Ok(hash),
            None => Err(CompileError::HashFailed),
        }
    }
}

/// The class as compilers take it: without its ABI.
pub open spec fn compiler_input(class: SierraClassView) -> Result<Seq<char>, CompileError> {
    match compiler_form(class) {
        Some(sierra) => Ok(sierra),
        None => Err(CompileError::Normalization),
    }
}

/// The number of the element in `Ok`, the error unchanged.
pub open spec fn hash_outcome(r: Result<Felt, CompileError>) -> Result<nat, CompileError> {
    match r {
        Ok(f) => Ok(f@),
        Err(e) => Err(e),
    }
}

/// The text in `Ok`, the error unchanged.
pub open spec fn text_outcome(r: Result<String, CompileError>) -> Result<Seq<char>, CompileError> {
    match r {
        Ok(text) => Ok(text@),
        Err(e) => Err(e),
    }
}

/// Hashes the compiled class that a compiler has written as JSON.
pub fn hash_compiler_output(casm: &str) -> (r: Result<Felt, CompileError>)
    ensures
        hash_outcome(r) == hash_of_compiler_output(casm@),
{
    if !document_is_compiled(casm) {
        Err(CompileError::OutputNotCasm)
    } else {
        match compiled_class_hash(casm) {
            Some(hash) => Ok(hash),
            None => Err(CompileError::HashFailed),
        }
    }
}

/// Writes the class in the form that compilers take: the ABI is emptied first, since compilers
/// of different versions disagree on its shape and none needs it. What is written is read
/// once more, and is an error unless its ABI is empty.
pub fn normalize(class: &SierraClass) -> (r: Result<String, CompileError>)
    ensures
        text_outcome(r) == compiler_input(class@),
        r matches Ok(text) ==> has_empty_abi(text@),
{
    match class.compiler_text() {
        Some(sierra) => Ok(sierra),
        None => Err(CompileError::Normalization),
    }
}

/// The text in `Some`.
pub open spec fn text_of(text: Option<&str>) -> Option<Seq<char>> {
    match text {
        Some(t) => Some(t@),
        None => None,
    }
}

impl CompilerVersion {
    /// The place of the version in the order of release, counted from 0.
    pub open spec fn spec_rank(self) -> nat {
        match self {
            CompilerVersion::V2_1_0 => 0,
            CompilerVersion::V2_4_0 => 1,
        }
    }

    /// The version's number as text.
    pub open spec fn spec_name(self) -> Seq<char> {
        match self {
            CompilerVersion::V2_1_0 => "2.1.0"@,
            CompilerVersion::V2_4_0 => "2.4.0"@,
        }
    }

    /// The other accepted spelling of the version: its number after a `v`.
    pub open spec fn spec_alias(self) -> Seq<char> {
        match self {
            CompilerVersion::V2_1_0 => "v2.1.0"@,
            CompilerVersion::V2_4_0 => "v2.4.0"@,
        }
    }

    /// All versions, in the order of their release.
    pub fn value_variants() -> (all: Vec<CompilerVersion>)
        ensures
            all@ == seq![CompilerVersion::V2_1_0, CompilerVersion::V2_4_0],
    {
        let mut all: Vec<CompilerVersion> = Vec::new();
        all.push(CompilerVersion::V2_1_0);
        all.push(CompilerVersion::V2_4_0);
        all
    }

    /// The place of the version in the order of release, counted from 0.
    pub fn rank(&self) -> (r: u8)
        ensures
            r == self.spec_rank(),
    {
        match self {
            CompilerVersion::V2_1_0 => 0,
            CompilerVersion::V2_4_0 => 1,
        }
    }

    /// Whether this version was released before the other.
    pub fn older_than(&self, other: &CompilerVersion) -> (r: bool)
        ensures
            r == (self.spec_rank() < other.spec_rank()),
    {
        self.rank() < other.rank()
    }

    /// The version's number as text.
    pub fn name(&self) -> (text: &'static str)
        ensures
            text@ == self.spec_name(),
    {
        match self {
            CompilerVersion::V2_1_0 => "2.1.0",
            CompilerVersion::V2_4_0 => "2.4.0",
        }
    }

    /// The other accepted spelling of the version: its number after a `v`.
    pub fn alias(&self) -> (text: &'static str)
        ensures
            text@ == self.spec_alias(),
    {
        match self {
            CompilerVersion::V2_1_0 => "v2.1.0",
            CompilerVersion::V2_4_0 => "v2.4.0",
        }
    }

    /// The version's number as text.
    pub fn to_string(&self) -> (text: String)
        ensures
            text@ == self.spec_name(),
    {
        self.name().to_owned()
    }

    /// The version that the text names: its number, with or without a leading `v`. Any other
    /// text comes back in the error.
    pub fn from_str(s: &str) -> (r: Result<CompilerVersion, UnknownVersion>)
        ensures
            match r {
                Ok(version) => version_named(s@) == Some(version),
                Err(unknown) => version_named(s@).is_none() && unknown.name@ == s@,
            },
    {
        if text_is(s, "2.1.0") || text_is(s, "v2.1.0") {
            Ok(CompilerVersion::V2_1_0)
        } else if text_is(s, "2.4.0") || text_is(s, "v2.4.0") {
            Ok(CompilerVersion::V2_4_0)
        } else {
            Err(UnknownVersion { name: s.to_owned() })
        }
    }
}

impl Default for CompilerVersion {
    /// The oldest version.
    fn default() -> (v: CompilerVersion)
        ensures
            v == CompilerVersion::V2_1_0,
    {
        CompilerVersion::V2_1_0
    }
}

impl BuiltInCompiler {
    /// The compiler of the given version.
    pub closed spec fn spec_new(version: CompilerVersion) -> BuiltInCompiler {
        BuiltInCompiler { version }
    }

    /// The compiler made of a version is pinned to it.
    pub proof fn lemma_new(version: CompilerVersion)
        ensures
            Self::spec_new(version).spec_version() == version,
    {
    }

    /// The compiler of the given version.
    pub fn new(version: CompilerVersion) -> (compiler: BuiltInCompiler)
        ensures
            compiler == Self::spec_new(version),
            compiler.spec_version() == version,
    {
        BuiltInCompiler { version }
    }

    /// The version that the compiler is pinned to.
    pub closed spec fn spec_version(self) -> CompilerVersion {
        self.version
    }

    /// The hash of the compiled class that the compiler makes of a class: the class is
    /// normalized, compiled, and the result hashed. `compiled` is what the caller's run of the
    /// compiler of the pinned version made of the normalized class; `None` where it made
    /// nothing.
    pub open spec fn spec_compile(class: SierraClassView, compiled: Option<Seq<char>>) -> Result<
        nat,
        CompileError,
    > {
        match compiler_input(class) {
            Err(e) => Err(e),
            Ok(_) => match compiled {
                Some(casm) => hash_of_compiler_output(casm),
                None => Err(CompileError::Rejected),
            },
        }
    }

    /// The version that the compiler is pinned to.
    pub fn version(&self) -> (v: CompilerVersion)
        ensures
            v == self.spec_version(),
    {
        self.version
    }

    /// What the compiler of the pinned version is to be given: the class without its ABI, as
    /// JSON.
    pub fn input(&self, class: &SierraClass) -> (r: Result<String, CompileError>)
        ensures
            text_outcome(r) == compiler_input(class@),
            r matches Ok(text) ==> has_empty_abi(text@),
    {
        normalize(class)
    }

    /// The hash of the compiled class that the compiler of the pinned version made of the
    /// class. The class itself is left as it is: what is compiled is a copy without the ABI.
    /// `compiled` is what the caller's run of the compiler on `input` made; `None` where it
    /// made nothing.
    pub fn compile(&self, class: &SierraClass, compiled: Option<&str>) -> (r: Result<
        Felt,
        CompileError,
    >)
        ensures
            hash_outcome(r) == Self::spec_compile(class@, text_of(compiled)),
    {
        match normalize(class) {
            Ok(_) => {},
            Err(e) => {
                return Err(e);
            },
        }
        match compiled {
            Some(casm) => hash_compiler_output(casm),
            None => Err(CompileError::Rejected),
        }
    }
}

impl CompilerBinary {
    /// The compiler program at the given path.
    pub closed spec fn spec_new(path: PathBuf) -> CompilerBinary {
        CompilerBinary { path }
    }

    /// The program made of a path is the one at that path.
    pub proof fn lemma_new(path: PathBuf)
        ensures
            Self::spec_new(path).spec_path() == path,
    {
    }

    /// The compiler program at the given path.
    pub fn new(path: PathBuf) -> (compiler: CompilerBinary)
        ensures
            compiler == Self::spec_new(path),
            compiler.spec_path() == path,
    {
        CompilerBinary { path }
    }

    /// The path of the compiler program.
    pub closed spec fn spec_path(self) -> PathBuf {
        self.path
    }

    /// The hash that a run of the compiler program gives: the run must have exited with status
    /// 0, and its output must be a compiled class as JSON in UTF-8.
    pub open spec fn spec_compile(run: CompilerRun) -> Result<nat, CompileError> {
        if run.exit_code != Some(0i32) {
            Err(CompileError::ProcessFailed { exit_code: run.exit_code })
        } else if !valid_utf8(run.stdout@) {
            Err(CompileError::OutputNotUtf8)
        } else {
            hash_of_compiler_output(decode_utf8(run.stdout@))
        }
    }

    /// The path of the compiler program.
    pub fn path(&self) -> (p: &PathBuf)
        ensures
            *p == self.spec_path(),
    {
        &self.path
    }

    /// What the compiler program is to be given in the file whose path is its one argument: the
    /// class without its ABI, as JSON.
    pub fn input(&self, class: &SierraClass) -> (r: Result<String, CompileError>)
        ensures
            text_outcome(r) == compiler_input(class@),
            r matches Ok(text) ==> has_empty_abi(text@),
    {
        normalize(class)
    }

    /// The hash of the compiled class that a run of the compiler program on `input` has
    /// written.
    pub fn compile(&self, run: CompilerRun) -> (r: Result<Felt, CompileError>)
        ensures
            hash_outcome(r) == Self::spec_compile(run),
    {
        match run.exit_code {
            Some(code) => {
                if code != 0 {
                    return Err(CompileError::ProcessFailed { exit_code: run.exit_code });
                }
            },
            None => {
                return Err(CompileError::ProcessFailed { exit_code: run.exit_code });
            },
        }
        match utf8_string(run.stdout) {
            Some(casm) => hash_compiler_output(casm.as_str()),
            None => Err(CompileError::OutputNotUtf8),
        }
    }
}

impl From<CompilerVersion> for BuiltInCompiler {
    fn from(value: CompilerVersion) -> (compiler: BuiltInCompiler) {
        BuiltInCompiler::new(value)
    }
}

impl vstd::std_specs::convert::FromSpecImpl<CompilerVersion> for BuiltInCompiler {
    open spec fn obeys_from_spec() -> bool {
        true
    }

    open spec fn from_spec(value: CompilerVersion) -> BuiltInCompiler {
        BuiltInCompiler::spec_new(value)
    }
}

impl From<PathBuf> for CompilerBinary {
    fn from(value: PathBuf) -> (compiler: CompilerBinary) {
        CompilerBinary::new(value)
    }
}

impl vstd::std_specs::convert::FromSpecImpl<PathBuf> for CompilerBinary {
    open spec fn obeys_from_spec() -> bool {
        true
    }

    open spec fn from_spec(value: PathBuf) -> CompilerBinary {
        CompilerBinary::spec_new(value)
    }
}

/// The oldest version is the default, and the order of release is total: two versions of
/// the same rank are the same version.
pub proof fn lemma_versions_ordered(a: CompilerVersion, b: CompilerVersion)
    ensures
        CompilerVersion::V2_1_0.spec_rank() <= a.spec_rank(),
        a.spec_rank() == b.spec_rank() ==> a == b,
        a.spec_rank() < b.spec_rank() || a == b || b.spec_rank() < a.spec_rank(),
{
}

/// Every version is found again under its number and under its alias.
pub proof fn lemma_version_names(v: CompilerVersion)
    ensures
        version_named(v.spec_name()) == Some(v),
        version_named(v.spec_alias()) == Some(v),
{
    reveal_strlit("2.1.0");
    reveal_strlit("v2.1.0");
    reveal_strlit("2.4.0");
    reveal_strlit("v2.4.0");
    assert("2.1.0"@[2] != "2.4.0"@[2]);
    assert("v2.1.0"@[3] != "v2.4.0"@[3]);
    assert("2.1.0"@.len() != "v2.4.0"@.len());
    assert("v2.1.0"@.len() != "2.4.0"@.len());
}

/// Compiling a class twice gives the same outcome: whatever two calls of `compile` return for
/// the same class and the same run of the compiler, the two hashes, or the two errors, are
/// the same.
pub proof fn lemma_compile_twice(
    class: SierraClassView,
    compiled: Option<Seq<char>>,
    first: Result<Felt, CompileError>,
    second: Result<Felt, CompileError>,
)
    requires
        hash_outcome(first) == BuiltInCompiler::spec_compile(class, compiled),
        hash_outcome(second) == BuiltInCompiler::spec_compile(class, compiled),
    ensures
        first == second,
{
    if let Ok(a) = first {
        if let Ok(b) = second {
            a.lemma_same_number(b);
        }
    }
}

/// A compiler program that implements a version gives the same hash, or the same error, as
/// the compiler of that version: where the program, run on the normalized class, exits with
/// status 0 and writes what the version's compiler made of that class, the two strategies
/// agree.
pub proof fn lemma_strategies_agree(class: SierraClassView, compiled: Seq<char>, run: CompilerRun)
    requires
        compiler_input(class) is Ok,
        run.exit_code == Some(0i32),
        valid_utf8(run.stdout@),
        decode_utf8(run.stdout@) == compiled,
    ensures
        CompilerBinary::spec_compile(run) == BuiltInCompiler::spec_compile(class, Some(compiled)),
{
}

/// The compiler of a version gives a hash for every class that it accepts: where the class
/// can be normalized, the compiler made a compiled class of it and that class has a hash,
/// the outcome is that hash.
pub proof fn lemma_accepted_class_compiles(class: SierraClassView, compiled: Seq<char>)
    requires
        compiler_input(class) is Ok,
        hash_of_compiler_output(compiled) is Ok,
    ensures
        BuiltInCompiler::spec_compile(class, Some(compiled)) == hash_of_compiler_output(compiled),
        BuiltInCompiler::spec_compile(class, Some(compiled)) is Ok,
{
}

/// The ABI never influences the compiled-class hash: a class and the class made of it by
/// emptying the ABI give compilers the same text, which has no ABI, so that the two outcomes
/// are the same; and emptying the ABI of the second again gives its own document.
pub proof fn lemma_abi_never_influences(
    class: SierraClassView,
    cleared: SierraClassView,
    compiled: Option<Seq<char>>,
)
    requires
        cleared.abi_cleared,
        compiler_form(class) == Some(cleared.document),
    ensures
        has_empty_abi(cleared.document),
        compiler_form(cleared) == Some(cleared.document),
        compiler_input(cleared) == compiler_input(class),
        BuiltInCompiler::spec_compile(cleared, compiled) == BuiltInCompiler::spec_compile(
            class,
            compiled,
        ),
{
}

} // verus!
