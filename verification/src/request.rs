//! A search request as the transport delivers it, and its compilation.

use crate::compiler::{
    compile, compiled, pair_models, Cause, CompilationError, CompiledQuery, FailureModel, Page,
    PageModel, QueryModel, Toggles, DEFAULT_SIZE,
};
use crate::exclusion::{decoded, ExclusionSet};
use crate::router::{FilterPair, PairModel};
use vstd::prelude::*;
use vstd::string::*;

verus! {

/// The parameters of a search request. `field` and `value` are paired by
/// position; `hide` carries the exclusion set as text; `search_after` is the
/// cursor.
#[derive(Clone, Debug, PartialEq, Eq)]
pub struct QueryParameters {
    pub field: Option<Vec<String>>,
    pub value: Option<Vec<String>>,
    pub from: Option<u64>,
    pub size: Option<u64>,
    pub videos_only: Option<bool>,
    pub masters_only: Option<bool>,
    pub hide: Option<String>,
    pub search_after: Option<String>,
}

/// The character sequences of a run of strings, in order.
pub open spec fn texts(strings: Seq<String>) -> Seq<Seq<char>> {
    strings.map_values(|s: String| s@)
}

/// The character sequences of an optional list of strings: none where the list
/// is absent.
pub open spec fn texts_or_none(strings: Option<Vec<String>>) -> Seq<Seq<char>> {
    match strings {
        Some(list) => texts(list@),
        None => Seq::empty(),
    }
}

/// Fields and values paired by position, as far as the shorter list goes.
pub open spec fn zipped(fields: Seq<Seq<char>>, values: Seq<Seq<char>>) -> Seq<PairModel> {
    Seq::new(
        if fields.len() <= values.len() {
            fields.len()
        } else {
            values.len()
        },
        |i: int| PairModel { field: fields[i], value: values[i] },
    )
}

/// The page that a request asks for: after the cursor where it names one, else
/// from its offset, or from the start where it names none; of its size, or of
/// the default size where it names none.
pub open spec fn page_of(from: Option<u64>, size: Option<u64>, search_after: Option<Seq<char>>)
    -> PageModel {
    let size = match size {
        Some(size) => size,
        None => DEFAULT_SIZE,
    };
    match search_after {
        Some(after) => PageModel::Cursor { after, size },
        None => PageModel::Offset {
            from: match from {
                Some(from) => from,
                None => 0,
            },
            size,
        },
    }
}

/// The name of the parameter that carries the exclusion set.
pub open spec fn hide_parameter() -> Seq<char> {
    "hide"@
}

impl QueryParameters {
    /// The filter pairs of the request.
    pub open spec fn pairs(&self) -> Seq<PairModel> {
        zipped(texts_or_none(self.field), texts_or_none(self.value))
    }

    /// The toggles of the request: each is off where the request does not set it.
    pub open spec fn toggles(&self) -> Toggles {
        Toggles {
            videos_only: self.videos_only == Some(true),
            masters_only: self.masters_only == Some(true),
        }
    }

    /// The page of the request.
    pub open spec fn page(&self) -> PageModel {
        page_of(
            self.from,
            self.size,
            match self.search_after {
                Some(after) => Some(after@),
                None => None,
            },
        )
    }
}

/// The query that a request compiles to, or why it compiles to none. The
/// exclusion set is read first; then the pairs are compiled in order.
pub open spec fn compiled_request(params: QueryParameters) -> Result<QueryModel, FailureModel> {
    match params.hide {
        Some(text) => match decoded(text@) {
            Err(e) => Err(
                FailureModel { cause: Cause::Decode(e), field: hide_parameter(), value: text@ },
            ),
            Ok(members) => compiled(params.pairs(), Some(members), params.toggles(), params.page()),
        },
        None => compiled(params.pairs(), None, params.toggles(), params.page()),
    }
}

/// Where a request names a cursor, its page is the one after the cursor,
/// whatever offset it names as well.
pub proof fn lemma_cursor_precedence(from: Option<u64>, size: Option<u64>, after: Seq<char>)
    ensures
        page_of(from, size, Some(after)) matches PageModel::Cursor { after: a, size: s } && a
            == after && s == page_of(None, size, None)->Offset_size,
        page_of(from, size, Some(after)) == page_of(None, size, Some(after)),
{
}

/// Where a request names neither cursor nor offset nor size, its page is the
/// first ten results.
pub proof fn lemma_default_page()
    ensures
        page_of(None, None, None) == (PageModel::Offset { from: 0, size: 10 }),
{
}

/// Pairing keeps as many pairs as the shorter list has entries, each made of
/// the entries at its place.
pub proof fn lemma_zip_truncates(fields: Seq<Seq<char>>, values: Seq<Seq<char>>)
    ensures
        zipped(fields, values).len() <= fields.len(),
        zipped(fields, values).len() <= values.len(),
        zipped(fields, values).len() == fields.len() || zipped(fields, values).len()
            == values.len(),
        forall|i: int|
            0 <= i < zipped(fields, values).len() ==> (#[trigger] zipped(fields, values)[i]).field
                == fields[i] && zipped(fields, values)[i].value == values[i],
{
}

/// Pairs fields and values by position. What the longer list holds beyond the
/// length of the shorter is dropped.
pub fn zip_pairs(fields: &Vec<String>, values: &Vec<String>) -> (pairs: Vec<FilterPair>)
    ensures
        pair_models(pairs@) == zipped(texts(fields@), texts(values@)),
{
    let count = if fields.len() <= values.len() {
        fields.len()
    } else {
        values.len()
    };
    let mut pairs: Vec<FilterPair> = Vec::new();
    let mut i: usize = 0;
    while i < count
        invariant
            i <= count,
            count <= fields.len(),
            count <= values.len(),
            pairs.len() == i,
            forall|k: int|
                0 <= k < i ==> (#[trigger] pairs@[k])@ == (PairModel {
                    field: fields@[k]@,
                    value: values@[k]@,
                }),
        decreases count - i,
    {
        pairs.push(FilterPair { field: fields[i].clone(), value: values[i].clone() });
        i += 1;
    }
    proof {
        assert(pair_models(pairs@) =~= zipped(texts(fields@), texts(values@)));
    }
    pairs
}

/// Chooses the page of a request. A cursor takes precedence over an offset.
pub fn paginate(from: Option<u64>, size: Option<u64>, search_after: Option<&str>) -> (page: Page)
    ensures
        page@ == page_of(
            from,
            size,
            match search_after {
                Some(after) => Some(after@),
                None => None,
            },
        ),
{
    let size = match size {
        Some(size) => size,
        None => DEFAULT_SIZE,
    };
    match search_after {
        Some(after) => Page::Cursor { after: after.to_owned(), size },
        None => Page::Offset {
            from: match from {
                Some(from) => from,
                None => 0,
            },
            size,
        },
    }
}

/// Compiles a request: reads its exclusion set, pairs its fields and values,
/// chooses its page, and compiles the query. Fails where the exclusion
/// parameter carries no set, naming the parameter and its text, or where a
/// field spec is malformed, naming the first such pair.
pub fn compile_request(params: &QueryParameters) -> (result: Result<
    CompiledQuery,
    CompilationError,
>)
    ensures
        match result {
            Ok(query) => compiled_request(*params) == Ok::<QueryModel, FailureModel>(query@),
            Err(e) => compiled_request(*params) == Err::<QueryModel, FailureModel>(e@),
        },
{
    let excluded = match &params.hide {
        Some(text) => match ExclusionSet::decode(text.as_str()) {
            Ok(set) => Some(set),
            Err(e) => {
                return Err(
                    CompilationError {
                        cause: Cause::Decode(e),
                        field: "hide".to_owned(),
                        value: text.clone(),
                    },
                );
            },
        },
        None => None,
    };
    let none: Vec<String> = Vec::new();
    let fields = match &params.field {
        Some(list) => list,
        None => &none,
    };
    let values = match &params.value {
        Some(list) => list,
        None => &none,
    };
    proof {
        assert(texts(none@) =~= Seq::<Seq<char>>::empty());
    }
    let pairs = zip_pairs(fields, values);
    let toggles = Toggles {
        videos_only: match params.videos_only {
            Some(on) => on,
            None => false,
        },
        masters_only: match params.masters_only {
            Some(on) => on,
            None => false,
        },
    };
    let page = paginate(
        params.from,
        params.size,
        match &params.search_after {
            Some(after) => Some(after.as_str()),
            None => None,
        },
    );
    compile(&pairs, excluded.as_ref(), toggles, page)
}

} // verus!
