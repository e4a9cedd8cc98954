//! The query compiler: from filter pairs, toggles, an exclusion set and a page
//! to one boolean query with its sort order.

use crate::clause::{clause_models, Clause, ClauseModel, Group};
use crate::exclusion::{ascending, DecodeError, ExclusionSet};
use crate::router::{
    categorical, lemma_categorical_is_filtered, route, routed, FilterPair, PairModel, Routed,
    RoutedModel,
};
use vstd::prelude::*;
use vstd::string::*;

verus! {

/// Page size where the request names none.
pub const DEFAULT_SIZE: u64 = 10;

/// The switches of a search that are no filter pairs.
#[derive(Clone, Copy, Debug, PartialEq, Eq, Structural)]
pub struct Toggles {
    /// Keep only releases that carry a video reference.
    pub videos_only: bool,
    /// Leave out releases flagged as not the main release of their master.
    pub masters_only: bool,
}

/// Which part of the result list is asked for.
#[derive(Clone, Debug, PartialEq, Eq)]
pub enum Page {
    /// `size` results after skipping `from`.
    Offset { from: u64, size: u64 },
    /// `size` results after the one whose sort keys are `after`, handed on as
    /// received.
    Cursor { after: String, size: u64 },
}

/// What a `Page` holds, as sequences of characters.
pub enum PageModel {
    Offset { from: u64, size: u64 },
    Cursor { after: Seq<char>, size: u64 },
}

impl View for Page {
    type V = PageModel;

    open spec fn view(&self) -> PageModel {
        match self {
            Page::Offset { from, size } => PageModel::Offset { from: *from, size: *size },
            Page::Cursor { after, size } => PageModel::Cursor { after: after@, size: *size },
        }
    }
}

/// One key of the sort order.
#[derive(Clone, Copy, Debug, PartialEq, Eq, Structural)]
pub enum SortKey {
    /// Relevance score, best first.
    Score,
    /// Release date, newest first.
    Released,
    /// Document order, to break ties.
    DocOrder,
}

/// A boolean query with its sort order and page.
#[derive(Clone, Debug, PartialEq, Eq)]
pub struct CompiledQuery {
    pub must: Vec<Clause>,
    pub filter: Vec<Clause>,
    pub should: Vec<Clause>,
    pub must_not: Vec<Clause>,
    pub minimum_should_match: u32,
    pub sort: Vec<SortKey>,
    pub page: Page,
}

/// What a `CompiledQuery` holds, as sequences.
pub struct QueryModel {
    pub must: Seq<ClauseModel>,
    pub filter: Seq<ClauseModel>,
    pub should: Seq<ClauseModel>,
    pub must_not: Seq<ClauseModel>,
    pub minimum_should_match: u32,
    pub sort: Seq<SortKey>,
    pub page: PageModel,
}

impl View for CompiledQuery {
    type V = QueryModel;

    open spec fn view(&self) -> QueryModel {
        QueryModel {
            must: clause_models(self.must@),
            filter: clause_models(self.filter@),
            should: clause_models(self.should@),
            must_not: clause_models(self.must_not@),
            minimum_should_match: self.minimum_should_match,
            sort: self.sort@,
            page: self.page@,
        }
    }
}

/// What was wrong with a request parameter.
#[derive(Clone, Copy, Debug, PartialEq, Eq, Structural)]
pub enum Cause {
    /// A nested field spec names no sub-object.
    InvalidFieldSpec,
    /// The exclusion parameter does not carry a set.
    Decode(DecodeError),
}

/// Why no query was compiled: the cause, and the parameter it was found in.
#[derive(Clone, Debug, PartialEq, Eq)]
pub struct CompilationError {
    pub cause: Cause,
    pub field: String,
    pub value: String,
}

/// What a `CompilationError` holds, as sequences of characters.
pub struct FailureModel {
    pub cause: Cause,
    pub field: Seq<char>,
    pub value: Seq<char>,
}

impl View for CompilationError {
    type V = FailureModel;

    open spec fn view(&self) -> FailureModel {
        FailureModel { cause: self.cause, field: self.field@, value: self.value@ }
    }
}

/// The clauses that filter pairs are routed to, group by group.
pub struct Buckets {
    pub must: Seq<ClauseModel>,
    pub filter: Seq<ClauseModel>,
    pub should: Seq<ClauseModel>,
}

impl Buckets {
    /// No clause in any group.
    pub open spec fn empty() -> Buckets {
        Buckets { must: Seq::empty(), filter: Seq::empty(), should: Seq::empty() }
    }

    /// These buckets with the clauses of one more pair at the end of their group.
    pub open spec fn with(self, more: RoutedModel) -> Buckets {
        match more.group {
            Group::Must => Buckets { must: self.must + more.clauses, ..self },
            Group::Filter => Buckets { filter: self.filter + more.clauses, ..self },
            Group::Should => Buckets { should: self.should + more.clauses, ..self },
            Group::MustNot => self,
        }
    }
}

/// The models of a sequence of pairs, in order.
pub open spec fn pair_models(pairs: Seq<FilterPair>) -> Seq<PairModel> {
    pairs.map_values(|pair: FilterPair| pair@)
}

/// All pairs routed in order, or the failure of the first malformed one.
pub open spec fn routed_all(pairs: Seq<PairModel>) -> Result<Buckets, FailureModel>
    decreases pairs.len(),
{
    if pairs.len() == 0 {
        Ok(Buckets::empty())
    } else {
        match routed_all(pairs.drop_last()) {
            Err(failure) => Err(failure),
            Ok(buckets) => match routed(pairs.last()) {
                None => Err(
                    FailureModel {
                        cause: Cause::InvalidFieldSpec,
                        field: pairs.last().field,
                        value: pairs.last().value,
                    },
                ),
                Some(more) => Ok(buckets.with(more)),
            },
        }
    }
}

/// The property whose presence the videos toggle asks for.
pub open spec fn videos_field() -> Seq<char> {
    "videos"@
}

/// The flag that marks the main release of a master.
pub open spec fn main_release_field() -> Seq<char> {
    "master_id.is_main_release"@
}

/// The property that holds a document's identifier.
pub open spec fn identifier_field() -> Seq<char> {
    "_id"@
}

/// The filters that the toggles add.
pub open spec fn toggle_filters(toggles: Toggles) -> Seq<ClauseModel> {
    if toggles.videos_only {
        seq![ClauseModel::Exists { field: videos_field() }]
    } else {
        Seq::empty()
    }
}

/// The exclusions: releases flagged as not the main one, where the toggle is
/// set, then every identifier of the exclusion set in one clause, where a set
/// is given.
pub open spec fn exclusions(toggles: Toggles, excluded: Option<Set<u32>>) -> Seq<ClauseModel> {
    let flagged = if toggles.masters_only {
        seq![ClauseModel::Flag { field: main_release_field(), expected: false }]
    } else {
        Seq::empty()
    };
    match excluded {
        Some(members) => flagged.push(
            ClauseModel::Ids { field: identifier_field(), ids: ascending(members) },
        ),
        None => flagged,
    }
}

/// The sort order: newest first, ties in document order; best match before
/// both where some clause scores.
pub open spec fn sort_order(scoring: bool) -> Seq<SortKey> {
    if scoring {
        seq![SortKey::Score, SortKey::Released, SortKey::DocOrder]
    } else {
        seq![SortKey::Released, SortKey::DocOrder]
    }
}

/// The query that the inputs compile to, or the failure of the first malformed
/// pair.
pub open spec fn compiled(
    pairs: Seq<PairModel>,
    excluded: Option<Set<u32>>,
    toggles: Toggles,
    page: PageModel,
) -> Result<QueryModel, FailureModel> {
    match routed_all(pairs) {
        Err(failure) => Err(failure),
        Ok(buckets) => Ok(
            QueryModel {
                must: buckets.must,
                filter: buckets.filter + toggle_filters(toggles),
                should: buckets.should,
                must_not: exclusions(toggles, excluded),
                minimum_should_match: if buckets.should.len() > 0 {
                    1
                } else {
                    0
                },
                sort: sort_order(buckets.must.len() > 0 || buckets.should.len() > 0),
                page,
            },
        ),
    }
}

/// The exact-term filters of a run of pairs, one each and in order.
pub open spec fn term_filters(pairs: Seq<PairModel>) -> Seq<ClauseModel> {
    Seq::new(
        pairs.len(),
        |i: int| ClauseModel::Term { field: pairs[i].field, value: pairs[i].value },
    )
}

/// Categorical pairs alone are routed to filters, one each and in order, and to
/// nothing else.
pub proof fn lemma_categorical_pairs_are_filters(pairs: Seq<PairModel>)
    requires
        forall|i: int| 0 <= i < pairs.len() ==> categorical(#[trigger] pairs[i]),
    ensures
        routed_all(pairs) == Ok::<Buckets, FailureModel>(
            Buckets { must: Seq::empty(), filter: term_filters(pairs), should: Seq::empty() },
        ),
    decreases pairs.len(),
{
    if pairs.len() == 0 {
        assert(term_filters(pairs) =~= Seq::empty());
    } else {
        let before = pairs.drop_last();
        assert forall|i: int| 0 <= i < before.len() implies categorical(#[trigger] before[i]) by {
            assert(before[i] == pairs[i]);
        }
        lemma_categorical_pairs_are_filters(before);
        lemma_categorical_is_filtered(pairs.last());
        assert(term_filters(before) + seq![
            ClauseModel::Term { field: pairs.last().field, value: pairs.last().value },
        ] =~= term_filters(pairs));
    }
}

/// With categorical pairs alone the query compiles, asks for no optional
/// clause to match, and holds no clause that scores: it sorts newest first.
pub proof fn lemma_categorical_query_does_not_score(
    pairs: Seq<PairModel>,
    excluded: Option<Set<u32>>,
    toggles: Toggles,
    page: PageModel,
)
    requires
        forall|i: int| 0 <= i < pairs.len() ==> categorical(#[trigger] pairs[i]),
    ensures
        compiled(pairs, excluded, toggles, page) matches Ok(query) && query.must.len() == 0
            && query.should.len() == 0 && query.minimum_should_match == 0 && query.filter
            == term_filters(pairs) + toggle_filters(toggles) && query.sort == seq![
            SortKey::Released,
            SortKey::DocOrder,
        ],
{
    lemma_categorical_pairs_are_filters(pairs);
}

/// One optional clause must match where there is any, and none where there is
/// none: an empty group of optional clauses never empties the result.
pub proof fn lemma_minimum_should_match(
    pairs: Seq<PairModel>,
    excluded: Option<Set<u32>>,
    toggles: Toggles,
    page: PageModel,
)
    requires
        compiled(pairs, excluded, toggles, page) is Ok,
    ensures
        ({
            let query = compiled(pairs, excluded, toggles, page)->Ok_0;
            &&& query.should.len() == 0 ==> query.minimum_should_match == 0
            &&& query.should.len() > 0 ==> query.minimum_should_match == 1
        }),
{
}

/// The sort order begins with the relevance score where a clause scores, and
/// with the release date where none does. A required clause always scores.
pub proof fn lemma_sort_lead(
    pairs: Seq<PairModel>,
    excluded: Option<Set<u32>>,
    toggles: Toggles,
    page: PageModel,
)
    requires
        compiled(pairs, excluded, toggles, page) is Ok,
    ensures
        ({
            let query = compiled(pairs, excluded, toggles, page)->Ok_0;
            &&& query.must.len() > 0 ==> query.sort[0] == SortKey::Score
            &&& query.should.len() > 0 ==> query.sort[0] == SortKey::Score
            &&& query.must.len() == 0 && query.should.len() == 0 ==> query.sort[0]
                == SortKey::Released
            &&& query.sort.last() == SortKey::DocOrder
        }),
{
}

/// An exclusion set gives exactly one clause on the identifier, the last of
/// the exclusions, and that clause lists the members of the set in ascending
/// order.
pub proof fn lemma_exclusion_clause(
    pairs: Seq<PairModel>,
    members: Set<u32>,
    toggles: Toggles,
    page: PageModel,
)
    requires
        compiled(pairs, Some(members), toggles, page) is Ok,
    ensures
        ({
            let must_not = compiled(pairs, Some(members), toggles, page)->Ok_0.must_not;
            &&& must_not.len() >= 1
            &&& must_not.last() == ClauseModel::Ids {
                field: identifier_field(),
                ids: ascending(members),
            }
            &&& forall|i: int|
                0 <= i < must_not.len() && #[trigger] must_not[i] is Ids ==> i == must_not.len() - 1
        }),
{
}

/// Without an exclusion set no clause lists identifiers.
pub proof fn lemma_no_exclusion_clause(pairs: Seq<PairModel>, toggles: Toggles, page: PageModel)
    requires
        compiled(pairs, None, toggles, page) is Ok,
    ensures
        ({
            let must_not = compiled(pairs, None, toggles, page)->Ok_0.must_not;
            forall|i: int| 0 <= i < must_not.len() ==> !(#[trigger] must_not[i] is Ids)
        }),
{
}

/// Pairs that are all well formed are all routed.
pub proof fn lemma_well_formed_pairs_are_routed(pairs: Seq<PairModel>)
    requires
        forall|i: int| 0 <= i < pairs.len() ==> routed(#[trigger] pairs[i]) is Some,
    ensures
        routed_all(pairs) is Ok,
    decreases pairs.len(),
{
    if pairs.len() > 0 {
        let before = pairs.drop_last();
        assert forall|i: int| 0 <= i < before.len() implies routed(
            #[trigger] before[i],
        ) is Some by {
            assert(before[i] == pairs[i]);
        }
        lemma_well_formed_pairs_are_routed(before);
    }
}

/// Where all pairs are routed, each of them is well formed.
pub proof fn lemma_routed_pairs_are_well_formed(pairs: Seq<PairModel>, i: int)
    requires
        routed_all(pairs) is Ok,
        0 <= i < pairs.len(),
    ensures
        routed(pairs[i]) is Some,
    decreases pairs.len(),
{
    if i < pairs.len() - 1 {
        lemma_routed_pairs_are_well_formed(pairs.drop_last(), i);
    }
}

/// A query compiles exactly where every pair is well formed.
pub proof fn lemma_compiles_where_well_formed(
    pairs: Seq<PairModel>,
    excluded: Option<Set<u32>>,
    toggles: Toggles,
    page: PageModel,
)
    ensures
        compiled(pairs, excluded, toggles, page) is Ok <==> forall|i: int|
            0 <= i < pairs.len() ==> routed(#[trigger] pairs[i]) is Some,
{
    if routed_all(pairs) is Ok {
        assert forall|i: int| 0 <= i < pairs.len() implies routed(#[trigger] pairs[i]) is Some by {
            lemma_routed_pairs_are_well_formed(pairs, i);
        }
    }
    if forall|i: int| 0 <= i < pairs.len() ==> routed(#[trigger] pairs[i]) is Some {
        lemma_well_formed_pairs_are_routed(pairs);
    }
}

/// Where a pair is malformed and every pair before it is well formed, the
/// compilation fails and names that pair, whatever follows it.
pub proof fn lemma_first_malformed_pair_fails(
    pairs: Seq<PairModel>,
    first: int,
    excluded: Option<Set<u32>>,
    toggles: Toggles,
    page: PageModel,
)
    requires
        0 <= first < pairs.len(),
        routed(pairs[first]) is None,
        forall|j: int| 0 <= j < first ==> routed(#[trigger] pairs[j]) is Some,
    ensures
        compiled(pairs, excluded, toggles, page) == Err::<QueryModel, FailureModel>(
            FailureModel {
                cause: Cause::InvalidFieldSpec,
                field: pairs[first].field,
                value: pairs[first].value,
            },
        ),
{
    let before = pairs.take(first);
    assert forall|j: int| 0 <= j < before.len() implies routed(#[trigger] before[j]) is Some by {
        assert(before[j] == pairs[j]);
    }
    lemma_well_formed_pairs_are_routed(before);
    assert(pairs.take(first + 1).drop_last() =~= before);
    assert(pairs.take(first + 1).last() == pairs[first]);
    lemma_routed_all_fails(pairs, first + 1);
}

/// The view of an optional exclusion set.
pub open spec fn members_of(excluded: Option<&ExclusionSet>) -> Option<Set<u32>> {
    match excluded {
        Some(set) => Some(set@),
        None => None,
    }
}

/// Joining two runs of clauses joins their models.
pub proof fn lemma_clause_models_add(a: Seq<Clause>, b: Seq<Clause>)
    ensures
        clause_models(a + b) == clause_models(a) + clause_models(b),
{
    assert(clause_models(a + b) =~= clause_models(a) + clause_models(b));
}

/// Compiles one query. Every pair is routed, in order, into its group; the
/// toggles and the exclusion set add their clauses; the sort order and the
/// count of optional clauses that must match follow from the groups. Every
/// member of the exclusion set is listed, however many there are: a caller
/// whose set is too large to list bounds it beforehand. Fails on the first pair
/// whose field spec is malformed, and names it.
pub fn compile(
    pairs: &Vec<FilterPair>,
    excluded: Option<&ExclusionSet>,
    toggles: Toggles,
    page: Page,
) -> (result: Result<CompiledQuery, CompilationError>)
    ensures
        match result {
            Ok(query) => compiled(pair_models(pairs@), members_of(excluded), toggles, page@)
                == Ok::<QueryModel, FailureModel>(query@),
            Err(e) => compiled(pair_models(pairs@), members_of(excluded), toggles, page@)
                == Err::<QueryModel, FailureModel>(e@),
        },
{
    let ghost models = pair_models(pairs@);
    let mut must: Vec<Clause> = Vec::new();
    let mut filter: Vec<Clause> = Vec::new();
    let mut should: Vec<Clause> = Vec::new();
    let mut i: usize = 0;
    proof {
        assert(clause_models(must@) =~= Buckets::empty().must);
        assert(clause_models(filter@) =~= Buckets::empty().filter);
        assert(clause_models(should@) =~= Buckets::empty().should);
    }
    while i < pairs.len()
        invariant
            i <= pairs.len(),
            models == pair_models(pairs@),
            routed_all(models.take(i as int)) matches Ok(buckets) && buckets.must == clause_models(
                must@,
            ) && buckets.filter == clause_models(filter@) && buckets.should == clause_models(
                should@,
            ),
        decreases pairs.len() - i,
    {
        let pair = &pairs[i];
        proof {
            assert(models.take(i + 1).drop_last() =~= models.take(i as int));
            assert(models.take(i + 1).last() == pair@);
        }
        match route(pair) {
            Err(_) => {
                proof {
                    lemma_routed_all_fails(models, i + 1);
                }
                return Err(
                    CompilationError {
                        cause: Cause::InvalidFieldSpec,
                        field: pair.field.clone(),
                        value: pair.value.clone(),
                    },
                );
            },
            Ok(Routed { group, clauses }) => {
                let mut clauses = clauses;
                proof {
                    lemma_clause_models_add(must@, clauses@);
                    lemma_clause_models_add(filter@, clauses@);
                    lemma_clause_models_add(should@, clauses@);
                }
                match group {
                    Group::Must => must.append(&mut clauses),
                    Group::Filter => filter.append(&mut clauses),
                    Group::Should => should.append(&mut clauses),
                    Group::MustNot => {},
                }
            },
        }
        i += 1;
    }
    proof {
        assert(models.take(i as int) =~= models);
    }
    if toggles.videos_only {
        filter.push(Clause::Exists { field: "videos".to_owned() });
    }
    let mut must_not: Vec<Clause> = Vec::new();
    if toggles.masters_only {
        must_not.push(
            Clause::Flag { field: "master_id.is_main_release".to_owned(), expected: false },
        );
    }
    if let Some(set) = excluded {
        must_not.push(Clause::Ids { field: "_id".to_owned(), ids: set.ids() });
    }
    let scoring = must.len() > 0 || should.len() > 0;
    let mut sort: Vec<SortKey> = Vec::new();
    if scoring {
        sort.push(SortKey::Score);
    }
    sort.push(SortKey::Released);
    sort.push(SortKey::DocOrder);
    let minimum_should_match: u32 = if should.len() > 0 {
        1
    } else {
        0
    };
    let query = CompiledQuery { must, filter, should, must_not, minimum_should_match, sort, page };
    proof {
        let expected = compiled(models, members_of(excluded), toggles, page@)->Ok_0;
        assert(query@.filter =~= expected.filter);
        assert(query@.must_not =~= expected.must_not);
        assert(query@.sort =~= expected.sort);
    }
    Ok(query)
}

/// Once a prefix of the pairs fails, so does every longer run of them, with the
/// same failure.
pub proof fn lemma_routed_all_fails(pairs: Seq<PairModel>, upto: int)
    requires
        0 <= upto <= pairs.len(),
        routed_all(pairs.take(upto)) is Err,
    ensures
        routed_all(pairs) == routed_all(pairs.take(upto)),
    decreases pairs.len() - upto,
{
    if upto < pairs.len() {
        assert(pairs.take(upto + 1).drop_last() =~= pairs.take(upto));
        lemma_routed_all_fails(pairs, upto + 1);
    } else {
        assert(pairs.take(upto) =~= pairs);
    }
}

} // verus!
