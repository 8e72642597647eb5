//! Where the hash of a Sierra class's compiled (CASM) form comes from.

use crate::artifact::{
    compiled_class_hash,
    compiled_class_hash_of,
    document_is_compiled,
    parses_as_compiled,
    SierraClass,
    SierraClassView,
};
use crate::compiler::{
    compiler_input,
    BuiltInCompiler,
    CompileError,
    CompilerBinary,
    CompilerRun,
    CompilerVersion,
};
use crate::felt::Felt;
use std::path::PathBuf;
use vstd::prelude::*;

verus! {

/// The source of a compiled-class hash: exactly one of four.
#[derive(Debug)]
pub enum CasmHashSource {
    /// The class is compiled by the compiler of a pinned version.
    BuiltInCompiler(BuiltInCompiler),
    /// The class is compiled by a compiler program.
    CompilerBinary(CompilerBinary),
    /// The compiled class is read from the file at this path.
    CasmFile(PathBuf),
    /// The hash itself, as the caller gave it.
    Hash(Felt),
}

/// What has to be fetched from outside the process before the hash can be computed.
#[derive(Debug, PartialEq, Eq)]
pub enum CasmHashNeed {
    /// Nothing.
    Nothing,
    /// What the compiler of this version makes of `input`.
    Compilation { version: CompilerVersion, input: String },
    /// A run of the program at `program`, with one argument: the path of a fresh temporary
    /// file that holds `input`.
    CompilerRun { program: PathBuf, input: String },
    /// The contents of the file at `path`.
    FileContents { path: PathBuf },
}

/// What was fetched from outside the process.
#[derive(Debug)]
pub enum CasmHashInput {
    /// Nothing.
    Nothing,
    /// The compiled class, as JSON, that the compiler of the asked version made.
    Compiled(String),
    /// How the run of the compiler program ended.
    CompilerRun(CompilerRun),
    /// The contents of the file.
    FileContents(String),
}

/// More than one source was asked for.
#[derive(Debug, Clone, Copy, PartialEq, Eq, Structural)]
pub struct ConflictingCasmOptions;

/// Why a source gave no hash.
#[derive(Debug, Clone, Copy, PartialEq, Eq, Structural)]
pub enum HashError {
    /// The compilation strategy failed.
    Compilation(CompileError),
    /// The file holds no compiled-class document.
    Parse,
    /// The hash of the compiled class in the file could not be computed.
    HashFailed,
    /// What was fetched is not what the source needs.
    MissingInput,
}

/// The number of the element in `Ok`, the error unchanged.
pub open spec fn casm_hash_outcome(r: Result<Felt, HashError>) -> Result<nat, HashError> {
    match r {
        Ok(f) => Ok(f@),
        Err(e) => Err(e),
    }
}

/// A compilation's outcome as the outcome of a hash resolution.
pub open spec fn from_compilation(r: Result<nat, CompileError>) -> Result<nat, HashError> {
    match r {
        Ok(hash) => Ok(hash),
        Err(e) => Err(HashError::Compilation(e)),
    }
}

/// The hash of the compiled class in a file's contents.
pub open spec fn hash_of_casm_file(contents: Seq<char>) -> Result<nat, HashError> {
    if !parses_as_compiled(contents) {
        Err(HashError::Parse)
    } else {
        match compiled_class_hash_of(contents) {
            Some(hash) => Ok(hash),
            None => Err(HashError::HashFailed),
        }
    }
}

/// Hashes the compiled class in a file's contents; nothing is compiled.
pub fn hash_casm_file(contents: &str) -> (r: Result<Felt, HashError>)
    ensures
        casm_hash_outcome(r) == hash_of_casm_file(contents@),
{
    if !document_is_compiled(contents) {
        Err(HashError::Parse)
    } else {
        match compiled_class_hash(contents) {
            Some(hash) => Ok(hash),
            None => Err(HashError::HashFailed),
        }
    }
}

fn lift(r: Result<Felt, CompileError>) -> (out: Result<Felt, HashError>)
    ensures
        casm_hash_outcome(out) == from_compilation(crate::compiler::hash_outcome(r)),
{
    match r {
        Ok(hash) => Ok(hash),
        Err(e) => Err(HashError::Compilation(e)),
    }
}

impl CasmHashSource {
    /// The source that the caller's options ask for: the one that was given; the
    /// compiler of the oldest version where none was; an error where more than one was.
    pub open spec fn spec_from_options(
        compiler_version: Option<CompilerVersion>,
        compiler_path: Option<PathBuf>,
        casm_file: Option<PathBuf>,
        casm_hash: Option<Felt>,
    ) -> Result<CasmHashSource, ConflictingCasmOptions> {
        match (compiler_version, compiler_path, casm_file, casm_hash) {
            (Some(version), None, None, None) => Ok(
                CasmHashSource::BuiltInCompiler(BuiltInCompiler::spec_new(version)),
            ),
            (None, Some(path), None, None) => Ok(
                CasmHashSource::CompilerBinary(CompilerBinary::spec_new(path)),
            ),
            (None, None, Some(path), None) => Ok(CasmHashSource::CasmFile(path)),
            (None, None, None, Some(hash)) => Ok(CasmHashSource::Hash(hash)),
            (None, None, None, None) => Ok(
                CasmHashSource::BuiltInCompiler(
                    BuiltInCompiler::spec_new(CompilerVersion::V2_1_0),
                ),
            ),
            _ => Err(ConflictingCasmOptions),
        }
    }

    /// The source that the caller's options ask for.
    pub fn from_options(
        compiler_version: Option<CompilerVersion>,
        compiler_path: Option<PathBuf>,
        casm_file: Option<PathBuf>,
        casm_hash: Option<Felt>,
    ) -> (r: Result<CasmHashSource, ConflictingCasmOptions>)
        ensures
            r == Self::spec_from_options(compiler_version, compiler_path, casm_file, casm_hash),
    {
        match (compiler_version, compiler_path, casm_file, casm_hash) {
            (Some(version), None, None, None) => Ok(
                CasmHashSource::BuiltInCompiler(BuiltInCompiler::new(version)),
            ),
            (None, Some(path), None, None) => Ok(
                CasmHashSource::CompilerBinary(CompilerBinary::new(path)),
            ),
            (None, None, Some(path), None) => Ok(CasmHashSource::CasmFile(path)),
            (None, None, None, Some(hash)) => Ok(CasmHashSource::Hash(hash)),
            (None, None, None, None) => Ok(
                CasmHashSource::BuiltInCompiler(BuiltInCompiler::new(CompilerVersion::default())),
            ),
            _ => Err(ConflictingCasmOptions),
        }
    }

    /// Whether `need` is what the source needs from outside for the given class: a compiler
    /// of a pinned version and a compiler program need a run on the class without its ABI, or
    /// fail where that form cannot be written; a file needs reading; a literal hash needs
    /// nothing.
    pub open spec fn spec_need(
        self,
        class: SierraClassView,
        need: Result<CasmHashNeed, HashError>,
    ) -> bool {
        match self {
            CasmHashSource::BuiltInCompiler(compiler) => match need {
                Ok(CasmHashNeed::Compilation { version, input }) => version
                    == compiler.spec_version() && compiler_input(class) == Ok::<
                    Seq<char>,
                    CompileError,
                >(input@),
                Err(HashError::Compilation(e)) => compiler_input(class) == Err::<
                    Seq<char>,
                    CompileError,
                >(e),
                _ => false,
            },
            CasmHashSource::CompilerBinary(compiler) => match need {
                Ok(CasmHashNeed::CompilerRun { program, input }) => program
                    == compiler.spec_path() && compiler_input(class) == Ok::<
                    Seq<char>,
                    CompileError,
                >(input@),
                Err(HashError::Compilation(e)) => compiler_input(class) == Err::<
                    Seq<char>,
                    CompileError,
                >(e),
                _ => false,
            },
            CasmHashSource::CasmFile(path) => need matches Ok(CasmHashNeed::FileContents { path: p })
                && p == path,
            CasmHashSource::Hash(_) => need == Ok::<CasmHashNeed, HashError>(CasmHashNeed::Nothing),
        }
    }

    /// The compiled-class hash that the source gives for a class, with what was fetched from
    /// outside: a literal hash is returned as it is, whatever the class; what a compiler
    /// made, a compiler program's run and a file's contents are hashed.
    pub open spec fn spec_get_casm_hash(
        self,
        class: SierraClassView,
        input: CasmHashInput,
    ) -> Result<nat, HashError> {
        match self {
            CasmHashSource::BuiltInCompiler(_) => match input {
                CasmHashInput::Compiled(casm) => from_compilation(
                    BuiltInCompiler::spec_compile(class, Some(casm@)),
                ),
                _ => Err(HashError::MissingInput),
            },
            CasmHashSource::CompilerBinary(_) => match input {
                CasmHashInput::CompilerRun(run) => from_compilation(
                    CompilerBinary::spec_compile(run),
                ),
                _ => Err(HashError::MissingInput),
            },
            CasmHashSource::CasmFile(_) => match input {
                CasmHashInput::FileContents(contents) => hash_of_casm_file(contents@),
                _ => Err(HashError::MissingInput),
            },
            CasmHashSource::Hash(hash) => Ok(hash@),
        }
    }

    /// What has to be fetched from outside the process before `get_casm_hash` is called.
    pub fn need(&self, class: &SierraClass) -> (r: Result<CasmHashNeed, HashError>)
        ensures
            self.spec_need(class@, r),
    {
        match self {
            CasmHashSource::BuiltInCompiler(compiler) => match compiler.input(class) {
                Ok(input) => Ok(CasmHashNeed::Compilation { version: compiler.version(), input }),
                Err(e) => Err(HashError::Compilation(e)),
            },
            CasmHashSource::CompilerBinary(compiler) => match compiler.input(class) {
                Ok(input) => Ok(
                    CasmHashNeed::CompilerRun { program: compiler.path().clone(), input },
                ),
                Err(e) => Err(HashError::Compilation(e)),
            },
            CasmHashSource::CasmFile(path) => Ok(
                CasmHashNeed::FileContents { path: path.clone() },
            ),
            CasmHashSource::Hash(_) => Ok(CasmHashNeed::Nothing),
        }
    }

    /// The compiled-class hash of the class, from this source and from what `need` asked for.
    pub fn get_casm_hash(&self, class: &SierraClass, input: CasmHashInput) -> (r: Result<
        Felt,
        HashError,
    >)
        ensures
            casm_hash_outcome(r) == self.spec_get_casm_hash(class@, input),
    {
        match self {
            CasmHashSource::BuiltInCompiler(compiler) => match input {
                CasmHashInput::Compiled(casm) => lift(compiler.compile(class, Some(casm.as_str()))),
                _ => Err(HashError::MissingInput),
            },
            CasmHashSource::CompilerBinary(compiler) => match input {
                CasmHashInput::CompilerRun(run) => lift(compiler.compile(run)),
                _ => Err(HashError::MissingInput),
            },
            CasmHashSource::CasmFile(_) => match input {
                CasmHashInput::FileContents(contents) => hash_casm_file(contents.as_str()),
                _ => Err(HashError::MissingInput),
            },
            CasmHashSource::Hash(hash) => Ok(*hash),
        }
    }
}

/// The hash is a function of the source, the class and what was fetched from outside:
/// whatever two calls of `get_casm_hash` return for the same three, the two hashes, or the two
/// errors, are the same.
pub proof fn lemma_get_casm_hash_twice(
    source: CasmHashSource,
    class: SierraClassView,
    input: CasmHashInput,
    first: Result<Felt, HashError>,
    second: Result<Felt, HashError>,
)
    requires
        casm_hash_outcome(first) == source.spec_get_casm_hash(class, input),
        casm_hash_outcome(second) == source.spec_get_casm_hash(class, input),
    ensures
        first == second,
{
    if let Ok(a) = first {
        if let Ok(b) = second {
            a.lemma_same_number(b);
        }
    }
}

/// A literal hash is the result whatever the class and whatever was fetched, and it needs
/// nothing from outside.
pub proof fn lemma_literal_hash_verbatim(
    hash: Felt,
    class: SierraClassView,
    input: CasmHashInput,
)
    ensures
        CasmHashSource::Hash(hash).spec_get_casm_hash(class, input) == Ok::<nat, HashError>(hash@),
        forall|need: Result<CasmHashNeed, HashError>|
            CasmHashSource::Hash(hash).spec_need(class, need) ==> need == Ok::<
                CasmHashNeed,
                HashError,
            >(CasmHashNeed::Nothing),
{
}

} // verus!
