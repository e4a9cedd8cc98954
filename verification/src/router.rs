//! Routing: which clauses a (field, value) pair becomes, and in which group.

use crate::clause::{clause_models, Clause, ClauseModel, Group, Leaf, LeafModel, Weight};
use crate::field::{field_shape, nested_marker, FieldShape, FieldSpec, InvalidFieldSpec};
use crate::text::{lemma_dotless_len, same_text};
use vstd::prelude::*;
use vstd::string::*;

verus! {

/// Weight of each name match of an artist credit: none, so that neither name
/// counts for more than the other.
pub const CREDIT_TENTHS: u32 = 0;

/// Weight of the fuzzy match on a nested property.
pub const FUZZY_TENTHS: u32 = 5;

/// Edit distance that the fuzzy match tolerates.
pub const FUZZINESS: u32 = 2;

/// Weight of the all-terms match on a nested property.
pub const ALL_TERMS_TENTHS: u32 = 5;

/// Weight of the substring match on a nested property.
pub const SUBSTRING_TENTHS: u32 = 100;

/// Weight of the prefix match on a nested property.
pub const PREFIX_TENTHS: u32 = 150;

/// Weight of a nested clause on the catalog number.
pub const CATALOG_NUMBER_TENTHS: u32 = 150;

/// Weight of a nested clause on any other property.
pub const NESTED_TENTHS: u32 = 10;

/// Weight of the match on the title.
pub const TITLE_TENTHS: u32 = 100;

/// A field spec and the value to look for in it.
#[derive(Clone, Debug, PartialEq, Eq)]
pub struct FilterPair {
    pub field: String,
    pub value: String,
}

/// What a `FilterPair` holds, as sequences of characters.
pub struct PairModel {
    pub field: Seq<char>,
    pub value: Seq<char>,
}

impl View for FilterPair {
    type V = PairModel;

    open spec fn view(&self) -> PairModel {
        PairModel { field: self.field@, value: self.value@ }
    }
}

/// The clauses that one pair becomes, and the group they belong to.
#[derive(Clone, Debug, PartialEq, Eq)]
pub struct Routed {
    pub group: Group,
    pub clauses: Vec<Clause>,
}

/// What a `Routed` holds, as sequences.
pub struct RoutedModel {
    pub group: Group,
    pub clauses: Seq<ClauseModel>,
}

impl View for Routed {
    type V = RoutedModel;

    open spec fn view(&self) -> RoutedModel {
        RoutedModel { group: self.group, clauses: clause_models(self.clauses@) }
    }
}

/// The nested path of the primary artist credits.
pub open spec fn primary_credits() -> Seq<char> {
    "artists"@
}

/// The nested path of the secondary artist credits.
pub open spec fn secondary_credits() -> Seq<char> {
    "extraartists"@
}

/// The nested property that holds a release's catalog number.
pub open spec fn catalog_number() -> Seq<char> {
    "labels.catno"@
}

/// The full-text title field.
pub open spec fn title_field() -> Seq<char> {
    "title"@
}

/// The clause that looks for an artist among the credits under `path`: by the
/// credited name or by the name variation, with equal weight.
pub open spec fn credit_clause(path: Seq<char>, value: Seq<char>) -> ClauseModel {
    ClauseModel::Nested {
        path,
        any_of: seq![
            LeafModel::Match {
                field: path + ".name"@,
                query: value,
                boost: Weight { tenths: CREDIT_TENTHS },
            },
            LeafModel::Match {
                field: path + ".anv"@,
                query: value,
                boost: Weight { tenths: CREDIT_TENTHS },
            },
        ],
        overall_boost: None,
        score_max: false,
    }
}

/// The clause that looks for a value in a property of the sub-objects under
/// `path`: fuzzily, by all its terms, as a substring and as a prefix, the
/// best-matching sub-object giving the score. A match on the catalog number
/// weighs more than one on any other property.
pub open spec fn nested_clause(path: Seq<char>, property: Seq<char>, value: Seq<char>)
    -> ClauseModel {
    ClauseModel::Nested {
        path,
        any_of: seq![
            LeafModel::Fuzzy {
                field: property,
                value,
                fuzziness: FUZZINESS,
                boost: Weight { tenths: FUZZY_TENTHS },
            },
            LeafModel::Match {
                field: property,
                query: value,
                boost: Weight { tenths: ALL_TERMS_TENTHS },
            },
            LeafModel::Wildcard {
                field: property,
                pattern: "*"@ + value + "*"@,
                case_insensitive: true,
                boost: Weight { tenths: SUBSTRING_TENTHS },
            },
            LeafModel::Prefix {
                field: property,
                value,
                case_insensitive: true,
                boost: Weight { tenths: PREFIX_TENTHS },
            },
        ],
        overall_boost: Some(
            Weight {
                tenths: if property == catalog_number() {
                    CATALOG_NUMBER_TENTHS
                } else {
                    NESTED_TENTHS
                },
            },
        ),
        score_max: true,
    }
}

/// The clause that looks for a partly typed title.
pub open spec fn title_clause(value: Seq<char>) -> ClauseModel {
    ClauseModel::MatchBoolPrefix {
        field: title_field(),
        query: value,
        boost: Weight { tenths: TITLE_TENTHS },
    }
}

/// What a value is routed to under a field of the given shape. In this order:
/// a nested field on the primary artist credits gives two optional clauses, one
/// on the primary and one on the secondary credits; any other nested field
/// gives one required nested clause; the title gives one required full-text
/// clause; any other field gives one exact-term filter.
pub open spec fn routed_shape(shape: FieldShape, value: Seq<char>) -> RoutedModel {
    match shape {
        FieldShape::Nested { path, property } => if path == primary_credits() {
            RoutedModel {
                group: Group::Should,
                clauses: seq![
                    credit_clause(primary_credits(), value),
                    credit_clause(secondary_credits(), value),
                ],
            }
        } else {
            RoutedModel { group: Group::Must, clauses: seq![nested_clause(path, property, value)] }
        },
        FieldShape::Flat { name } => if name == title_field() {
            RoutedModel { group: Group::Must, clauses: seq![title_clause(value)] }
        } else {
            RoutedModel {
                group: Group::Filter,
                clauses: seq![ClauseModel::Term { field: name, value }],
            }
        },
    }
}

/// What a pair is routed to, or `None` where its field spec is malformed.
pub open spec fn routed(pair: PairModel) -> Option<RoutedModel> {
    match field_shape(pair.field) {
        None => None,
        Some(shape) => Some(routed_shape(shape, pair.value)),
    }
}

/// A pair is categorical where its field is flat and is not the title.
pub open spec fn categorical(pair: PairModel) -> bool {
    !nested_marker().is_prefix_of(pair.field) && pair.field != title_field()
}

/// A field that begins with the nested marker and holds no dot after it is
/// malformed: the pair is routed nowhere.
pub proof fn lemma_nested_without_dot_is_rejected(pair: PairModel)
    requires
        nested_marker().is_prefix_of(pair.field),
        !pair.field.skip(nested_marker().len() as int).contains('.'),
    ensures
        routed(pair) is None,
{
    lemma_dotless_len(pair.field.skip(nested_marker().len() as int));
}

/// A nested field on the primary artist credits gives optional clauses, one
/// on the primary credits and one on the secondary credits, whatever property
/// it names.
pub proof fn lemma_artist_credits_are_optional(pair: PairModel)
    requires
        field_shape(pair.field) matches Some(FieldShape::Nested { path, .. })
            && path == primary_credits(),
    ensures
        routed(pair) == Some(
            RoutedModel {
                group: Group::Should,
                clauses: seq![
                    credit_clause(primary_credits(), pair.value),
                    credit_clause(secondary_credits(), pair.value),
                ],
            },
        ),
        credit_clause(primary_credits(), pair.value)->Nested_path == primary_credits(),
        credit_clause(secondary_credits(), pair.value)->Nested_path == secondary_credits(),
{
}

/// Any other nested field gives one required nested clause on its path. The
/// clause as a whole weighs 15.0 on the catalog number and 1.0 on any other
/// property.
pub proof fn lemma_nested_weight(pair: PairModel)
    requires
        field_shape(pair.field) matches Some(FieldShape::Nested { path, .. })
            && path != primary_credits(),
    ensures
        ({
            let shape = field_shape(pair.field)->0;
            let clause = nested_clause(shape->Nested_path, shape->Nested_property, pair.value);
            &&& routed(pair) == Some(RoutedModel { group: Group::Must, clauses: seq![clause] })
            &&& clause->Nested_path == shape->Nested_path
            &&& clause->Nested_any_of.len() == 4
            &&& clause->Nested_score_max
            &&& clause->Nested_overall_boost == Some(
                Weight {
                    tenths: if shape->Nested_property == catalog_number() {
                        150u32
                    } else {
                        10u32
                    },
                },
            )
        }),
{
}

/// A categorical pair gives one exact-term filter and nothing that scores.
pub proof fn lemma_categorical_is_filtered(pair: PairModel)
    requires
        categorical(pair),
    ensures
        routed(pair) == Some(
            RoutedModel {
                group: Group::Filter,
                clauses: seq![ClauseModel::Term { field: pair.field, value: pair.value }],
            },
        ),
{
}

/// Builds the clause on the artist credits under `path`.
pub fn credit_clause_of(path: &str, value: &str) -> (clause: Clause)
    ensures
        clause@ == credit_clause(path@, value@),
{
    let mut name = path.to_owned();
    name.append(".name");
    let mut variation = path.to_owned();
    variation.append(".anv");
    let mut any_of: Vec<Leaf> = Vec::new();
    any_of.push(
        Leaf::Match {
            field: name,
            query: value.to_owned(),
            boost: Weight { tenths: CREDIT_TENTHS },
        },
    );
    any_of.push(
        Leaf::Match {
            field: variation,
            query: value.to_owned(),
            boost: Weight { tenths: CREDIT_TENTHS },
        },
    );
    let clause = Clause::Nested {
        path: path.to_owned(),
        any_of,
        overall_boost: None,
        score_max: false,
    };
    proof {
        assert(clause@->Nested_any_of =~= credit_clause(path@, value@)->Nested_any_of);
    }
    clause
}

/// Builds the clause on a property of the sub-objects under `path`.
pub fn nested_clause_of(path: &str, property: &str, value: &str) -> (clause: Clause)
    ensures
        clause@ == nested_clause(path@, property@, value@),
{
    let mut pattern = "*".to_owned();
    pattern.append(value);
    pattern.append("*");
    let tenths = if same_text(property, "labels.catno") {
        CATALOG_NUMBER_TENTHS
    } else {
        NESTED_TENTHS
    };
    let mut any_of: Vec<Leaf> = Vec::new();
    any_of.push(
        Leaf::Fuzzy {
            field: property.to_owned(),
            value: value.to_owned(),
            fuzziness: FUZZINESS,
            boost: Weight { tenths: FUZZY_TENTHS },
        },
    );
    any_of.push(
        Leaf::Match {
            field: property.to_owned(),
            query: value.to_owned(),
            boost: Weight { tenths: ALL_TERMS_TENTHS },
        },
    );
    any_of.push(
        Leaf::Wildcard {
            field: property.to_owned(),
            pattern,
            case_insensitive: true,
            boost: Weight { tenths: SUBSTRING_TENTHS },
        },
    );
    any_of.push(
        Leaf::Prefix {
            field: property.to_owned(),
            value: value.to_owned(),
            case_insensitive: true,
            boost: Weight { tenths: PREFIX_TENTHS },
        },
    );
    let clause = Clause::Nested {
        path: path.to_owned(),
        any_of,
        overall_boost: Some(Weight { tenths }),
        score_max: true,
    };
    proof {
        assert(clause@->Nested_any_of =~= nested_clause(
            path@,
            property@,
            value@,
        )->Nested_any_of);
    }
    clause
}

/// Routes a value under a field whose shape is known: tells its group and
/// builds its clauses.
pub fn route_parsed(spec: &FieldSpec, value: &str) -> (result: Routed)
    ensures
        result@ == routed_shape(spec@, value@),
{
    let mut clauses: Vec<Clause> = Vec::new();
    let group = match spec {
        FieldSpec::Nested { path, property } => {
            if same_text(path.as_str(), "artists") {
                clauses.push(credit_clause_of("artists", value));
                clauses.push(credit_clause_of("extraartists", value));
                Group::Should
            } else {
                clauses.push(nested_clause_of(path.as_str(), property.as_str(), value));
                Group::Must
            }
        },
        FieldSpec::Flat { name } => {
            if same_text(name.as_str(), "title") {
                clauses.push(
                    Clause::MatchBoolPrefix {
                        field: name.clone(),
                        query: value.to_owned(),
                        boost: Weight { tenths: TITLE_TENTHS },
                    },
                );
                Group::Must
            } else {
                clauses.push(Clause::Term { field: name.clone(), value: value.to_owned() });
                Group::Filter
            }
        },
    };
    let result = Routed { group, clauses };
    proof {
        assert(result@.clauses =~= routed_shape(spec@, value@).clauses);
    }
    result
}

/// Routes one pair: tells the shape of its field, then its group, and builds
/// its clauses; or fails on a malformed field spec.
pub fn route(pair: &FilterPair) -> (result: Result<Routed, InvalidFieldSpec>)
    ensures
        match result {
            Ok(r) => routed(pair@) == Some(r@),
            Err(e) => routed(pair@) is None && e.field@ == pair.field@,
        },
{
    match FieldSpec::parse(pair.field.as_str()) {
        Ok(spec) => Ok(route_parsed(&spec, pair.value.as_str())),
        Err(e) => Err(e),
    }
}

} // verus!
