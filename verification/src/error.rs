//! What can go wrong when an entity is encoded or decoded.

use vstd::prelude::*;

verus! {

/// The well-known keys of the map-shaped encodings.
#[derive(Clone, Copy, Debug, PartialEq, Eq, Structural)]
pub enum Field {
    Run,
    Cause,
    Meta,
    Prf,
    Cid,
    Ran,
    Instruction,
    Out,
    Iss,
    Version,
    Progress,
    ProgressCount,
    NumTasks,
    Rsc,
    Op,
    Input,
    Nnc,
    Tasks,
}

/// Why a value of the data model, or bytes, are not the encoding of an
/// entity.
#[derive(Clone, Debug, PartialEq, Eq)]
pub enum DecodeError {
    /// The bytes are not the canonical encoding of a value of the data model.
    Malformed,
    /// A map was expected.
    NotAMap,
    /// A link was expected.
    NotALink,
    /// A required key is absent from the map.
    MissingField(Field),
    /// The value under a key has not the shape that the key asks for.
    WrongShape(Field),
    /// An outcome is tagged with the given text, which is none of the three
    /// outcome tags.
    UnknownTag(String),
}

/// What a decoding error is.
pub enum DecodeErrorView {
    Malformed,
    NotAMap,
    NotALink,
    MissingField(Field),
    WrongShape(Field),
    UnknownTag(Seq<char>),
}

/// Why an operation on an entity failed.
#[derive(Clone, Debug, PartialEq, Eq)]
pub enum LedgerError {
    /// The entity holds a value that the canonical encoding cannot say.
    Encoding,
    /// The input is not the encoding of the entity.
    Decoding(DecodeError),
    /// The text is no semantic version.
    InvalidVersion,
}

/// What a failure of an operation is.
pub enum LedgerErrorView {
    Encoding,
    Decoding(DecodeErrorView),
    InvalidVersion,
}

impl DecodeError {
    /// What the error is.
    pub open spec fn view(&self) -> DecodeErrorView {
        match self {
            DecodeError::Malformed => DecodeErrorView::Malformed,
            DecodeError::NotAMap => DecodeErrorView::NotAMap,
            DecodeError::NotALink => DecodeErrorView::NotALink,
            DecodeError::MissingField(field) => DecodeErrorView::MissingField(*field),
            DecodeError::WrongShape(field) => DecodeErrorView::WrongShape(*field),
            DecodeError::UnknownTag(tag) => DecodeErrorView::UnknownTag(tag@),
        }
    }
}

impl LedgerError {
    /// What the failure is.
    pub open spec fn view(&self) -> LedgerErrorView {
        match self {
            LedgerError::Encoding => LedgerErrorView::Encoding,
            LedgerError::Decoding(e) => LedgerErrorView::Decoding(e@),
            LedgerError::InvalidVersion => LedgerErrorView::InvalidVersion,
        }
    }
}

impl Field {
    /// The key as it stands in an encoded map.
    pub open spec fn key(self) -> Seq<char> {
        match self {
            Field::Run => "run"@,
            Field::Cause => "cause"@,
            Field::Meta => "meta"@,
            Field::Prf => "prf"@,
            Field::Cid => "cid"@,
            Field::Ran => "ran"@,
            Field::Instruction => "instruction"@,
            Field::Out => "out"@,
            Field::Iss => "iss"@,
            Field::Version => "version"@,
            Field::Progress => "progress"@,
            Field::ProgressCount => "progress_count"@,
            Field::NumTasks => "num_tasks"@,
            Field::Rsc => "rsc"@,
            Field::Op => "op"@,
            Field::Input => "input"@,
            Field::Nnc => "nnc"@,
            Field::Tasks => "tasks"@,
        }
    }

    /// The key as it stands in an encoded map.
    pub fn name(self) -> (name: &'static str)
        ensures
            name@ == self.key(),
    {
        match self {
            Field::Run => "run",
            Field::Cause => "cause",
            Field::Meta => "meta",
            Field::Prf => "prf",
            Field::Cid => "cid",
            Field::Ran => "ran",
            Field::Instruction => "instruction",
            Field::Out => "out",
            Field::Iss => "iss",
            Field::Version => "version",
            Field::Progress => "progress",
            Field::ProgressCount => "progress_count",
            Field::NumTasks => "num_tasks",
            Field::Rsc => "rsc",
            Field::Op => "op",
            Field::Input => "input",
            Field::Nnc => "nnc",
            Field::Tasks => "tasks",
        }
    }
}

/// No two fields share a key.
pub proof fn lemma_keys_distinct()
    ensures
        forall|a: Field, b: Field| a != b ==> a.key() != b.key(),
{
    reveal_strlit("run");
    reveal_strlit("cause");
    reveal_strlit("meta");
    reveal_strlit("prf");
    reveal_strlit("cid");
    reveal_strlit("ran");
    reveal_strlit("instruction");
    reveal_strlit("out");
    reveal_strlit("iss");
    reveal_strlit("version");
    reveal_strlit("progress");
    reveal_strlit("progress_count");
    reveal_strlit("num_tasks");
    reveal_strlit("rsc");
    reveal_strlit("op");
    reveal_strlit("input");
    reveal_strlit("nnc");
    reveal_strlit("tasks");
    assert forall|a: Field, b: Field| a != b implies a.key() != b.key() by {
        if a.key() == b.key() {
            assert(a.key().len() == b.key().len());
            assert(a.key()[0] == b.key()[0]);
            assert(a.key()[1] == b.key()[1]);
            assert(a.key()[2] == b.key()[2]);
        }
    }
}

} // verus!
