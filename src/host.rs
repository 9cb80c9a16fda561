//! What the library asks of the program that embeds it.
use std::collections::HashMap;
use vstd::prelude::*;

verus! {

/// The answer to a batch of statements: for each statement its rows, for
/// each row its fields, a field being absent when it is NULL.
pub type QueryAnswer = Vec<Vec<Vec<Option<String>>>>;

/// A `QueryAnswer` as mathematical text.
pub type AnswerModel = Seq<Seq<Seq<Option<Seq<char>>>>>;

/// Text as the models of a host see it.
pub type TextModel = Seq<char>;

/// Abbreviations as the models of a host see them.
pub type AbbreviationsModel = Map<Seq<char>, Seq<char>>;

/// A result with its value and its error message seen as mathematical values.
pub open spec fn result_view<T: DeepView>(r: Result<T, String>) -> Result<T::V, Seq<char>> {
    match r {
        Ok(t) => Ok(t.deep_view()),
        Err(e) => Err(e@),
    }
}

/// The capabilities that a paradigm table is built with: the data store
/// holding the pattern tables, the transliteration of display text, and the
/// abbreviations of the active locale.
///
/// Each capability is described by a model of the host's state: what the
/// host answers to a query, what it makes of a text, which abbreviations it
/// holds. Nothing is promised of the model: an answer may be a failure. The
/// models are mathematical and never run; an implementation outside verified
/// code still declares them, with bodies that are never called.
pub trait InflectionsHost {
    /// What the host answers to the batch `sql`.
    spec fn sql_answer(&self, sql: Seq<char>) -> Result<AnswerModel, Seq<char>>;

    /// What the host makes of the text `s` for display.
    spec fn transliteration(&self, s: Seq<char>) -> Result<Seq<char>, Seq<char>>;

    /// The abbreviations of the active locale.
    spec fn abbreviations(&self) -> Result<Map<Seq<char>, Seq<char>>, Seq<char>>;

    /// Runs a batch of semicolon-separated read-only statements.
    fn exec_sql_query(&self, sql: &str) -> (r: Result<QueryAnswer, String>)
        ensures
            result_view(r) == self.sql_answer(sql@),
    ;

    /// Turns stored text into display text.
    fn transliterate(&self, s: &str) -> (r: Result<String, String>)
        ensures
            result_view(r) == self.transliteration(s@),
    ;

    /// The display abbreviation of each grammatical term in the active locale.
    fn get_abbreviations(&self) -> (r: Result<HashMap<String, String>, String>)
        ensures
            result_view(r) == self.abbreviations(),
    ;
}

} // verus!
