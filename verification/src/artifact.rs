//! Contract artifacts: which kind of class a JSON document defines, and the class's hash.

use crate::felt::{be_value, field_prime, Felt};
use starknet_core::types::contract::legacy::LegacyContractClass;
use starknet_core::types::contract::{CompiledClass, SierraClass as SierraDocument};
use vstd::prelude::*;

verus! {

/// Whether the text is a JSON document that reads as a Sierra class.
pub uninterp spec fn parses_as_sierra(text: Seq<char>) -> bool;

/// Whether the text is a JSON document that reads as a compiled (CASM) class.
pub uninterp spec fn parses_as_compiled(text: Seq<char>) -> bool;

/// Whether the text is a JSON document that reads as a legacy class.
pub uninterp spec fn parses_as_legacy(text: Seq<char>) -> bool;

/// The class hash of the Sierra class that the text defines; `None` where the text is no such
/// class or its hash cannot be computed.
pub uninterp spec fn sierra_class_hash_of(text: Seq<char>) -> Option<nat>;

/// The class hash of the legacy class that the text defines; `None` where the text is no such
/// class or its hash cannot be computed.
pub uninterp spec fn legacy_class_hash_of(text: Seq<char>) -> Option<nat>;

/// The hash of the compiled class that the text defines; `None` where the text is no such class
/// or its hash cannot be computed.
pub uninterp spec fn compiled_class_hash_of(text: Seq<char>) -> Option<nat>;

/// The Sierra class that the text defines, written as JSON again with an empty ABI; `None` where
/// the text is no such class or it cannot be written.
pub uninterp spec fn sierra_without_abi(text: Seq<char>) -> Option<Seq<char>>;

/// The number of entries in the ABI of the Sierra class that the text defines; `None` where
/// the text is no such class.
pub uninterp spec fn abi_length_of(text: Seq<char>) -> Option<nat>;

/// `Vec::len` of the `abi` of starknet-core's `SierraClass` read from the text.
#[verifier::external_body]
fn document_abi_length(text: &str) -> (r: Option<usize>)
    ensures
        r matches Some(n) ==> abi_length_of(text@) == Some(n as nat),
        r.is_none() ==> abi_length_of(text@).is_none(),
{
    let class: SierraDocument = serde_json::from_str(text).ok()?;
    Some(class.abi.len())
}

/// `serde_json::from_str` into starknet-core's `SierraClass`: whether it accepts the text.
#[verifier::external_body]
fn document_is_sierra(text: &str) -> (r: bool)
    ensures
        r == parses_as_sierra(text@),
{
    serde_json::from_str::<SierraDocument>(text).is_ok()
}

/// `serde_json::from_str` into starknet-core's `CompiledClass`: whether it accepts the text.
#[verifier::external_body]
pub(crate) fn document_is_compiled(text: &str) -> (r: bool)
    ensures
        r == parses_as_compiled(text@),
{
    serde_json::from_str::<CompiledClass>(text).is_ok()
}

/// `serde_json::from_str` into starknet-core's `LegacyContractClass`: whether it accepts the
/// text.
#[verifier::external_body]
fn document_is_legacy(text: &str) -> (r: bool)
    ensures
        r == parses_as_legacy(text@),
{
    serde_json::from_str::<LegacyContractClass>(text).is_ok()
}

/// starknet-core's `SierraClass::class_hash` on the class read from the text. The hash is a
/// field element, so its 32 bytes denote a number below the prime.
#[verifier::external_body]
fn sierra_class_hash_bytes(text: &str) -> (r: Option<[u8; 32]>)
    ensures
        r matches Some(b) ==> sierra_class_hash_of(text@) == Some(be_value(b@)) && be_value(b@)
            < field_prime(),
        r.is_none() ==> sierra_class_hash_of(text@).is_none(),
{
    let class: SierraDocument = serde_json::from_str(text).ok()?;
    Some(class.class_hash().ok()?.to_bytes_be())
}

/// starknet-core's `LegacyContractClass::class_hash` on the class read from the text. The hash
/// is a field element, so its 32 bytes denote a number below the prime.
#[verifier::external_body]
fn legacy_class_hash_bytes(text: &str) -> (r: Option<[u8; 32]>)
    ensures
        r matches Some(b) ==> legacy_class_hash_of(text@) == Some(be_value(b@)) && be_value(b@)
            < field_prime(),
        r.is_none() ==> legacy_class_hash_of(text@).is_none(),
{
    let class: LegacyContractClass = serde_json::from_str(text).ok()?;
    Some(class.class_hash().ok()?.to_bytes_be())
}

/// starknet-core's `CompiledClass::class_hash` on the class read from the text. The hash is a
/// field element, so its 32 bytes denote a number below the prime.
#[verifier::external_body]
fn compiled_class_hash_bytes(text: &str) -> (r: Option<[u8; 32]>)
    ensures
        r matches Some(b) ==> compiled_class_hash_of(text@) == Some(be_value(b@)) && be_value(b@)
            < field_prime(),
        r.is_none() ==> compiled_class_hash_of(text@).is_none(),
{
    let class: CompiledClass = serde_json::from_str(text).ok()?;
    Some(class.class_hash().ok()?.to_bytes_be())
}

/// `serde_json::to_string` of starknet-core's `SierraClass` read from the text, after its `abi`
/// list was emptied.
#[verifier::external_body]
fn sierra_json_without_abi(text: &str) -> (r: Option<String>)
    ensures
        r matches Some(json) ==> sierra_without_abi(text@) == Some(json@),
        r.is_none() ==> sierra_without_abi(text@).is_none(),
{
    let mut class: SierraDocument = serde_json::from_str(text).ok()?;
    class.abi.clear();
    serde_json::to_string(&class).ok()
}

/// The two kinds of class that can be declared.
#[derive(Clone, Copy, Debug, PartialEq, Eq, Structural)]
pub enum ClassKind {
    /// A class of the newer generation, which is compiled to CASM before it runs.
    Sierra,
    /// A self-contained class of the older generation.
    Legacy,
}

/// Why a document is no artifact that can be declared, or has no class hash.
#[derive(Clone, Copy, Debug, PartialEq, Eq, Structural)]
pub enum ArtifactError {
    /// The document is a compiled (CASM) class, not a class-defining artifact.
    UnexpectedCasmClass,
    /// The document has none of the accepted shapes.
    Unrecognized,
    /// The class hash could not be computed.
    ClassHashFailed,
}

/// The kind of a document, from which of the three shapes it reads as: a Sierra class first, a
/// compiled class (refused) second, a legacy class last.
pub open spec fn spec_classify(sierra: bool, compiled: bool, legacy: bool) -> Result<
    ClassKind,
    ArtifactError,
> {
    if sierra {
        Ok(ClassKind::Sierra)
    } else if compiled {
        Err(ArtifactError::UnexpectedCasmClass)
    } else if legacy {
        Ok(ClassKind::Legacy)
    } else {
        Err(ArtifactError::Unrecognized)
    }
}

/// The kind of the document with the given text.
pub open spec fn kind_of(text: Seq<char>) -> Result<ClassKind, ArtifactError> {
    spec_classify(parses_as_sierra(text), parses_as_compiled(text), parses_as_legacy(text))
}

/// A hash computation's outcome as a number.
pub open spec fn hash_or_failure(hash: Option<nat>) -> Result<nat, ArtifactError> {
    match hash {
        Some(h) => Ok(h),
        None => Err(ArtifactError::ClassHashFailed),
    }
}

/// The number of the element in `Ok`, the error unchanged.
pub open spec fn felt_outcome<E>(r: Result<Felt, E>) -> Result<nat, E> {
    match r {
        Ok(f) => Ok(f@),
        Err(e) => Err(e),
    }
}

/// Decides the kind of a document from which of the three shapes it reads as.
pub fn classify(sierra: bool, compiled: bool, legacy: bool) -> (r: Result<
    ClassKind,
    ArtifactError,
>)
    ensures
        r == spec_classify(sierra, compiled, legacy),
{
    if sierra {
        Ok(ClassKind::Sierra)
    } else if compiled {
        Err(ArtifactError::UnexpectedCasmClass)
    } else if legacy {
        Ok(ClassKind::Legacy)
    } else {
        Err(ArtifactError::Unrecognized)
    }
}

fn hash_from_bytes(bytes: Option<[u8; 32]>) -> (r: Result<Felt, ArtifactError>)
    requires
        bytes matches Some(b) ==> be_value(b@) < field_prime(),
    ensures
        match bytes {
            Some(b) => r matches Ok(f) && f@ == be_value(b@) && f.bytes() == b@,
            None => r == Err::<Felt, ArtifactError>(ArtifactError::ClassHashFailed),
        },
{
    match bytes {
        Some(b) => Ok(Felt::from_bytes_be(&b).unwrap()),
        None => Err(ArtifactError::ClassHashFailed),
    }
}

/// A Sierra class, held as the JSON document that defines it.
#[derive(Debug)]
pub struct SierraClass {
    document: String,
    abi_cleared: bool,
}

/// A legacy class, held as the JSON document that defines it.
#[derive(Debug)]
pub struct LegacyClass {
    document: String,
}

/// A Sierra class as plain values.
pub struct SierraClassView {
    /// The text of the JSON document that defines the class.
    pub document: Seq<char>,
    /// Whether the class was made by emptying the ABI of another, so that its document is
    /// already in the form that compilers take.
    pub abi_cleared: bool,
}

impl View for SierraClass {
    type V = SierraClassView;

    closed spec fn view(&self) -> SierraClassView {
        SierraClassView { document: self.document@, abi_cleared: self.abi_cleared }
    }
}

/// Whether the text is a Sierra class with an empty ABI.
pub open spec fn has_empty_abi(text: Seq<char>) -> bool {
    abi_length_of(text) == Some(0nat)
}

/// The class in the form that compilers take: its document written again with the ABI
/// emptied, where what was written has an empty ABI indeed. A class that was made by emptying
/// the ABI is in that form already, so that emptying it again changes nothing. `None` where
/// the form cannot be written.
pub open spec fn compiler_form(class: SierraClassView) -> Option<Seq<char>> {
    let written = if class.abi_cleared {
        Some(class.document)
    } else {
        sierra_without_abi(class.document)
    };
    match written {
        Some(text) => if has_empty_abi(text) {
            Some(text)
        } else {
            None
        },
        None => None,
    }
}

/// What compilers are given never has an ABI.
pub proof fn lemma_compiler_form_has_no_abi(class: SierraClassView)
    ensures
        compiler_form(class) matches Some(text) ==> has_empty_abi(text),
{
}

impl View for LegacyClass {
    type V = Seq<char>;

    closed spec fn view(&self) -> Seq<char> {
        self.document@
    }
}

impl SierraClass {
    #[verifier::type_invariant]
    spec fn well_formed(self) -> bool {
        &&& parses_as_sierra(self.document@)
        &&& self.abi_cleared ==> has_empty_abi(self.document@)
    }

    /// The class that the text defines, if it reads as a Sierra class.
    pub fn parse(text: &str) -> (r: Option<SierraClass>)
        ensures
            r.is_some() == parses_as_sierra(text@),
            r matches Some(class) ==> class@.document == text@ && !class@.abi_cleared,
    {
        if document_is_sierra(text) {
            Some(SierraClass { document: text.to_owned(), abi_cleared: false })
        } else {
            None
        }
    }

    /// The JSON document that defines the class.
    pub fn json(&self) -> (text: &str)
        ensures
            text@ == self@.document,
            parses_as_sierra(self@.document),
    {
        proof {
            use_type_invariant(self);
        }
        self.document.as_str()
    }

    /// Whether the class was made by emptying the ABI of another.
    pub fn is_abi_cleared(&self) -> (r: bool)
        ensures
            r == self@.abi_cleared,
    {
        self.abi_cleared
    }

    /// The class hash.
    pub fn class_hash(&self) -> (r: Result<Felt, ArtifactError>)
        ensures
            felt_outcome(r) == hash_or_failure(sierra_class_hash_of(self@.document)),
    {
        hash_from_bytes(sierra_class_hash_bytes(self.document.as_str()))
    }

    /// The class in the form that compilers take, as JSON: the document written again with
    /// the ABI emptied, and read once more to test that its ABI is empty. `None` where that
    /// form cannot be written.
    pub(crate) fn compiler_text(&self) -> (r: Option<String>)
        ensures
            r matches Some(json) ==> compiler_form(self@) == Some(json@) && has_empty_abi(json@),
            r.is_none() ==> compiler_form(self@).is_none(),
    {
        proof {
            use_type_invariant(self);
        }
        if self.abi_cleared {
            Some(self.document.clone())
        } else {
            match sierra_json_without_abi(self.document.as_str()) {
                Some(text) => match document_abi_length(text.as_str()) {
                    Some(length) => if length == 0 {
                        Some(text)
                    } else {
                        None
                    },
                    None => None,
                },
                None => None,
            }
        }
    }

    /// The class with its ABI emptied: the class whose document is this class in the form that
    /// compilers take. `None` where that form cannot be written or does not read as a Sierra
    /// class again.
    pub fn without_abi(&self) -> (r: Option<SierraClass>)
        ensures
            r matches Some(cleared) ==> cleared@.abi_cleared && compiler_form(self@) == Some(
                cleared@.document,
            ) && has_empty_abi(cleared@.document),
            r.is_none() ==> (compiler_form(self@) matches Some(text) ==> !parses_as_sierra(text)),
    {
        match self.compiler_text() {
            Some(text) => {
                if document_is_sierra(text.as_str()) {
                    Some(SierraClass { document: text, abi_cleared: true })
                } else {
                    None
                }
            },
            None => None,
        }
    }

    /// The number of entries in the class's ABI.
    pub fn abi_length(&self) -> (r: Option<usize>)
        ensures
            r matches Some(n) ==> abi_length_of(self@.document) == Some(n as nat),
            r.is_none() ==> abi_length_of(self@.document).is_none(),
    {
        document_abi_length(self.document.as_str())
    }
}

impl LegacyClass {
    #[verifier::type_invariant]
    spec fn well_formed(self) -> bool {
        parses_as_legacy(self.document@)
    }

    /// The class that the text defines, if it reads as a legacy class.
    pub fn parse(text: &str) -> (r: Option<LegacyClass>)
        ensures
            r.is_some() == parses_as_legacy(text@),
            r matches Some(class) ==> class@ == text@,
    {
        if document_is_legacy(text) {
            Some(LegacyClass { document: text.to_owned() })
        } else {
            None
        }
    }

    /// The JSON document that defines the class.
    pub fn json(&self) -> (text: &str)
        ensures
            text@ == self@,
            parses_as_legacy(self@),
    {
        proof {
            use_type_invariant(self);
        }
        self.document.as_str()
    }

    /// The class hash.
    pub fn class_hash(&self) -> (r: Result<Felt, ArtifactError>)
        ensures
            felt_outcome(r) == hash_or_failure(legacy_class_hash_of(self@)),
    {
        hash_from_bytes(legacy_class_hash_bytes(self.document.as_str()))
    }
}

/// The hash of the compiled (CASM) class that the text defines; `None` where the text is no
/// such class or its hash cannot be computed.
pub(crate) fn compiled_class_hash(text: &str) -> (r: Option<Felt>)
    ensures
        r matches Some(f) ==> compiled_class_hash_of(text@) == Some(f@),
        r.is_none() ==> compiled_class_hash_of(text@).is_none(),
{
    match compiled_class_hash_bytes(text) {
        Some(b) => Some(Felt::from_bytes_be(&b).unwrap()),
        None => None,
    }
}

/// A contract artifact: a class of one of the two kinds that can be declared.
#[derive(Debug)]
pub enum ContractArtifact {
    /// A Sierra class.
    Sierra(SierraClass),
    /// A legacy class.
    Legacy(LegacyClass),
}

impl ContractArtifact {
    /// The kind of the class.
    pub open spec fn spec_kind(self) -> ClassKind {
        match self {
            ContractArtifact::Sierra(_) => ClassKind::Sierra,
            ContractArtifact::Legacy(_) => ClassKind::Legacy,
        }
    }

    /// The text of the document that defines the class.
    pub open spec fn document(self) -> Seq<char> {
        match self {
            ContractArtifact::Sierra(class) => class@.document,
            ContractArtifact::Legacy(class) => class@,
        }
    }

    /// The class hash that belongs to a document of the given kind.
    pub open spec fn spec_class_hash(kind: ClassKind, text: Seq<char>) -> Result<
        nat,
        ArtifactError,
    > {
        match kind {
            ClassKind::Sierra => hash_or_failure(sierra_class_hash_of(text)),
            ClassKind::Legacy => hash_or_failure(legacy_class_hash_of(text)),
        }
    }

    /// Reads an artifact: a Sierra class where the text reads as one; else an error where it
    /// reads as a compiled class; else a legacy class where it reads as one; else an error.
    pub fn parse(text: &str) -> (r: Result<ContractArtifact, ArtifactError>)
        ensures
            match r {
                Ok(artifact) => kind_of(text@) == Ok::<ClassKind, ArtifactError>(
                    artifact.spec_kind(),
                ) && artifact.document() == text@,
                Err(e) => kind_of(text@) == Err::<ClassKind, ArtifactError>(e),
            },
    {
        let sierra: bool = document_is_sierra(text);
        let compiled: bool = document_is_compiled(text);
        let legacy: bool = document_is_legacy(text);
        match classify(sierra, compiled, legacy) {
            Ok(ClassKind::Sierra) => Ok(
                ContractArtifact::Sierra(SierraClass { document: text.to_owned(), abi_cleared: false }),
            ),
            Ok(ClassKind::Legacy) => Ok(
                ContractArtifact::Legacy(LegacyClass { document: text.to_owned() }),
            ),
            Err(e) => Err(e),
        }
    }

    /// The kind of the class.
    pub fn kind(&self) -> (k: ClassKind)
        ensures
            k == self.spec_kind(),
    {
        match self {
            ContractArtifact::Sierra(_) => ClassKind::Sierra,
            ContractArtifact::Legacy(_) => ClassKind::Legacy,
        }
    }

    /// The class hash.
    pub fn class_hash(&self) -> (r: Result<Felt, ArtifactError>)
        ensures
            felt_outcome(r) == Self::spec_class_hash(self.spec_kind(), self.document()),
    {
        match self {
            ContractArtifact::Sierra(class) => class.class_hash(),
            ContractArtifact::Legacy(class) => class.class_hash(),
        }
    }
}

} // verus!
