use vstd::prelude::*;

verus! {

/// Declares `sqlx::Error`, the store client's error, so that it can be held
/// in `ElodonError::DatabaseError`; nothing inside it is read here.
#[verifier::external_type_specification]
#[verifier::external_body]
pub struct ExStoreClientError(sqlx::Error);

/// Declares `std::io::Error` so that it can be held in
/// `ElodonError::Shutdown`; nothing inside it is read here.
#[verifier::external_type_specification]
#[verifier::external_body]
pub struct ExIoError(std::io::Error);

/// Everything that can go wrong in a lookup or a command.
#[derive(Debug)]
pub enum ElodonError {
    /// Zero rows matched: `search` names the kind of entity searched for,
    /// `id` describes the filter that was applied.
    NoResults { search: String, id: String },
    /// A level id outside `1..=5`.
    WrongLevelId(u32),
    /// Text that should have started with a numeric id.
    ParseError(String),
    /// A genre id outside `1..=8`.
    WrongGenreId(u32),
    /// Several errors gathered during a batch.
    List(ElodonErrorList),
    /// A store failure other than "no rows".
    DatabaseError(sqlx::Error),
    /// A command that needs a server was run elsewhere.
    NoGuild,
    /// An unrecoverable failure of the process.
    Shutdown(std::io::Error),
}

impl ElodonError {
    /// Whether this is a `NoResults` naming `search` and describing `id`.
    pub open spec fn is_not_found_for(&self, search: Seq<char>, id: Seq<char>) -> bool {
        match self {
            ElodonError::NoResults { search: s, id: i } => s@ == search && i@ == id,
            _ => false,
        }
    }
}

/// An ordered collection of errors, gathered while a batch goes on.
#[derive(Debug)]
pub struct ElodonErrorList(pub Vec<ElodonError>);

impl ElodonErrorList {
    pub open spec fn view(&self) -> Seq<ElodonError> {
        self.0@
    }

    pub fn new() -> (r: ElodonErrorList)
        ensures
            r.view() == Seq::<ElodonError>::empty(),
    {
        ElodonErrorList(Vec::new())
    }

    /// Appends one error at the end.
    pub fn push(&mut self, e: ElodonError)
        ensures
            final(self).view() == old(self).view().push(e),
    {
        self.0.push(e);
    }

    pub fn len(&self) -> (r: usize)
        ensures
            r == self.view().len(),
    {
        self.0.len()
    }

    pub fn is_empty(&self) -> (r: bool)
        ensures
            r == (self.view().len() == 0),
    {
        self.0.len() == 0
    }

    /// The errors, in the order they were pushed.
    pub fn errors(&self) -> (r: &Vec<ElodonError>)
        ensures
            r@ == self.view(),
    {
        &self.0
    }
}

} // verus!
