//! The fragments of the search engine's boolean query language that a compiled
//! query is made of.

use vstd::prelude::*;
use vstd::string::*;

verus! {

/// A relevance weight in tenths: `Weight { tenths: 5 }` stands for 0.5.
#[derive(Clone, Copy, Debug, PartialEq, Eq, Structural)]
pub struct Weight {
    pub tenths: u32,
}

/// The character for a digit.
pub open spec fn digit(d: nat) -> Seq<char> {
    if d == 0 {
        "0"@
    } else if d == 1 {
        "1"@
    } else if d == 2 {
        "2"@
    } else if d == 3 {
        "3"@
    } else if d == 4 {
        "4"@
    } else if d == 5 {
        "5"@
    } else if d == 6 {
        "6"@
    } else if d == 7 {
        "7"@
    } else if d == 8 {
        "8"@
    } else {
        "9"@
    }
}

/// A number in decimal digits, without leading zeros.
pub open spec fn decimal(n: nat) -> Seq<char>
    decreases n,
{
    if n < 10 {
        digit(n)
    } else {
        decimal(n / 10) + digit(n % 10)
    }
}

/// The text of the digit `d`.
fn digit_of(d: u32) -> (text: &'static str)
    requires
        d < 10,
    ensures
        text@ == digit(d as nat),
{
    if d == 0 {
        "0"
    } else if d == 1 {
        "1"
    } else if d == 2 {
        "2"
    } else if d == 3 {
        "3"
    } else if d == 4 {
        "4"
    } else if d == 5 {
        "5"
    } else if d == 6 {
        "6"
    } else if d == 7 {
        "7"
    } else if d == 8 {
        "8"
    } else {
        "9"
    }
}

/// The text of `n` in decimal digits.
fn decimal_of(n: u32) -> (text: String)
    ensures
        text@ == decimal(n as nat),
    decreases n,
{
    if n < 10 {
        digit_of(n).to_owned()
    } else {
        let mut text = decimal_of(n / 10);
        text.append(digit_of(n % 10));
        text
    }
}

impl Weight {
    /// The weight as a decimal number with one digit after the point: `0.5`
    /// for five tenths.
    pub open spec fn text(self) -> Seq<char> {
        decimal((self.tenths / 10) as nat) + "."@ + digit((self.tenths % 10) as nat)
    }

    /// Writes the weight as a decimal number with one digit after the point.
    pub fn to_text(&self) -> (text: String)
        ensures
            text@ == self.text(),
    {
        let mut text = decimal_of(self.tenths / 10);
        text.append(".");
        text.append(digit_of(self.tenths % 10));
        text
    }
}

/// The clause groups of a boolean query.
#[derive(Clone, Copy, Debug, PartialEq, Eq, Structural)]
pub enum Group {
    /// Must match, and counts towards relevance.
    Must,
    /// Must match, and does not count towards relevance.
    Filter,
    /// Counts towards relevance where it matches.
    Should,
    /// Must not match.
    MustNot,
}

/// One way of matching a value against a property of a nested sub-object.
#[derive(Clone, Debug, PartialEq, Eq)]
pub enum Leaf {
    /// Full-text match in which every term of `query` must occur.
    Match { field: String, query: String, boost: Weight },
    /// Match within an edit distance of `fuzziness`.
    Fuzzy { field: String, value: String, fuzziness: u32, boost: Weight },
    /// Match of a pattern in which `*` stands for any run of characters.
    Wildcard { field: String, pattern: String, case_insensitive: bool, boost: Weight },
    /// Match of the beginning of the property.
    Prefix { field: String, value: String, case_insensitive: bool, boost: Weight },
}

/// What a `Leaf` holds, as sequences of characters.
pub enum LeafModel {
    Match { field: Seq<char>, query: Seq<char>, boost: Weight },
    Fuzzy { field: Seq<char>, value: Seq<char>, fuzziness: u32, boost: Weight },
    Wildcard { field: Seq<char>, pattern: Seq<char>, case_insensitive: bool, boost: Weight },
    Prefix { field: Seq<char>, value: Seq<char>, case_insensitive: bool, boost: Weight },
}

impl View for Leaf {
    type V = LeafModel;

    open spec fn view(&self) -> LeafModel {
        match self {
            Leaf::Match { field, query, boost } => LeafModel::Match {
                field: field@,
                query: query@,
                boost: *boost,
            },
            Leaf::Fuzzy { field, value, fuzziness, boost } => LeafModel::Fuzzy {
                field: field@,
                value: value@,
                fuzziness: *fuzziness,
                boost: *boost,
            },
            Leaf::Wildcard { field, pattern, case_insensitive, boost } => LeafModel::Wildcard {
                field: field@,
                pattern: pattern@,
                case_insensitive: *case_insensitive,
                boost: *boost,
            },
            Leaf::Prefix { field, value, case_insensitive, boost } => LeafModel::Prefix {
                field: field@,
                value: value@,
                case_insensitive: *case_insensitive,
                boost: *boost,
            },
        }
    }
}

/// One clause of a boolean query.
#[derive(Clone, Debug, PartialEq, Eq)]
pub enum Clause {
    /// The property equals the value exactly.
    Term { field: String, value: String },
    /// The boolean property has the given value.
    Flag { field: String, expected: bool },
    /// The document has the property.
    Exists { field: String },
    /// The property equals one of the identifiers.
    Ids { field: String, ids: Vec<u32> },
    /// Full-text match in which every term of `query` must occur, the last of
    /// them as a prefix.
    MatchBoolPrefix { field: String, query: String, boost: Weight },
    /// A query on the sub-objects under `path`: one sub-object must match at
    /// least one of `any_of`. With `score_max` the best-matching sub-object
    /// gives the score. `overall_boost` weighs the clause as a whole.
    Nested { path: String, any_of: Vec<Leaf>, overall_boost: Option<Weight>, score_max: bool },
}

/// What a `Clause` holds, as sequences.
pub enum ClauseModel {
    Term { field: Seq<char>, value: Seq<char> },
    Flag { field: Seq<char>, expected: bool },
    Exists { field: Seq<char> },
    Ids { field: Seq<char>, ids: Seq<u32> },
    MatchBoolPrefix { field: Seq<char>, query: Seq<char>, boost: Weight },
    Nested {
        path: Seq<char>,
        any_of: Seq<LeafModel>,
        overall_boost: Option<Weight>,
        score_max: bool,
    },
}

/// The models of a sequence of leaves, in order.
pub open spec fn leaf_models(leaves: Seq<Leaf>) -> Seq<LeafModel> {
    leaves.map_values(|leaf: Leaf| leaf@)
}

impl View for Clause {
    type V = ClauseModel;

    open spec fn view(&self) -> ClauseModel {
        match self {
            Clause::Term { field, value } => ClauseModel::Term { field: field@, value: value@ },
            Clause::Flag { field, expected } => ClauseModel::Flag {
                field: field@,
                expected: *expected,
            },
            Clause::Exists { field } => ClauseModel::Exists { field: field@ },
            Clause::Ids { field, ids } => ClauseModel::Ids { field: field@, ids: ids@ },
            Clause::MatchBoolPrefix { field, query, boost } => ClauseModel::MatchBoolPrefix {
                field: field@,
                query: query@,
                boost: *boost,
            },
            Clause::Nested { path, any_of, overall_boost, score_max } => ClauseModel::Nested {
                path: path@,
                any_of: leaf_models(any_of@),
                overall_boost: *overall_boost,
                score_max: *score_max,
            },
        }
    }
}

/// The models of a sequence of clauses, in order.
pub open spec fn clause_models(clauses: Seq<Clause>) -> Seq<ClauseModel> {
    clauses.map_values(|clause: Clause| clause@)
}

} // verus!
