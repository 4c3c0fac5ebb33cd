//! Normalization of text into the tokens that full-text matching
//! compares.

use crate::paths::names_of;
use vstd::prelude::*;

verus! {

/// The tokens of a text: its maximal runs of alphanumeric characters, in
/// order, each in lower case.
pub uninterp spec fn normalized_tokens(text: Seq<char>) -> Seq<Seq<char>>;

/// Runs tantivy's `TextAnalyzer`, made of its `SimpleTokenizer` followed
/// by its `LowerCaser`, over `text` and collects the text of each token
/// of the stream. The contract gives that list a name; it claims only
/// that the list depends on the text alone.
#[verifier::external_body]
pub(crate) fn analyze(text: &str) -> (tokens: Vec<String>)
    ensures
        names_of(tokens@) == normalized_tokens(text@),
{
    let analyzer = tantivy::tokenizer::TextAnalyzer::from(tantivy::tokenizer::SimpleTokenizer)
        .filter(tantivy::tokenizer::LowerCaser);
    let mut stream = analyzer.token_stream(text);
    let mut tokens = Vec::new();
    while stream.advance() {
        tokens.push(stream.token().text.clone());
    }
    tokens
}

/// The name of the index field that holds the tokens of the text field
/// `name`.
pub open spec fn tokenized_name(name: Seq<char>) -> Seq<char> {
    name + "#tokenized"@
}

/// Names the token field of a text field.
pub fn tokenized_field_name(name: &str) -> (tokenized: String)
    ensures
        tokenized@ == tokenized_name(name@),
{
    String::from_str(name).concat("#tokenized")
}

} // verus!
