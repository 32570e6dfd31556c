use vstd::prelude::*;

use crate::location::Range;
use crate::tokens::Token;

verus! {

/// The ways in which parsing can fail.
#[derive(Debug)]
pub enum ParserError {
    /// A token that the grammar does not allow where it stands, with its span.
    UnexpectedToken(Token, Range),
    /// The input ended where the grammar expects more.
    UnexpectedEOF,
}

} // verus!
