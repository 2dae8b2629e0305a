//! The query algebra: clause kinds, their composition, and their compilation
//! against a schema into a plan for the index engine.
use crate::kv::KeyValue;
use crate::schema::{get_field, schema_fields};
use vstd::prelude::*;

verus! {

/// How a sub-clause of a boolean clause takes part in the match.
#[derive(Clone, Copy, Debug, PartialEq, Eq, Structural)]
pub enum Occur {
    Must,
    MustNot,
    Should,
}

/// The sub-clauses of a boolean clause, in order, each with its occurrence.
#[derive(Debug)]
pub struct BoolQuery {
    pub clauses: Vec<(Occur, Query)>,
}

/// A term matched up to an edit distance.
#[derive(Clone, Debug)]
pub struct FuzzyTerm {
    pub value: String,
    pub distance: u8,
    pub transposition: bool,
}

#[derive(Clone, Debug)]
pub struct FuzzyQuery {
    pub fuzzy: KeyValue<FuzzyTerm>,
}

/// A literal term of a field, matched exactly.
#[derive(Clone, Debug)]
pub struct ExactTerm {
    pub term: KeyValue<String>,
}

/// The terms of a phrase, in order, with their positions if they are given.
#[derive(Clone, Debug)]
pub struct TermPair {
    pub terms: Vec<String>,
    pub offsets: Option<Vec<usize>>,
}

#[derive(Clone, Debug)]
pub struct PhraseQuery {
    pub phrase: KeyValue<TermPair>,
}

#[derive(Clone, Debug)]
pub struct RegexQuery {
    pub regex: KeyValue<String>,
}

/// The bounds of a numeric range; a missing bound leaves that side open.
#[derive(Clone, Copy, Debug, PartialEq, Eq, Structural)]
pub struct Ranges {
    pub gte: Option<i64>,
    pub gt: Option<i64>,
    pub lte: Option<i64>,
    pub lt: Option<i64>,
}

#[derive(Clone, Debug)]
pub struct RangeQuery {
    pub range: KeyValue<Ranges>,
}

/// A facet filter: the facet paths wanted in one field.
#[derive(Clone, Debug)]
pub struct FacetQuery {
    pub facets: KeyValue<Vec<String>>,
}

/// One clause of a search.
#[derive(Debug)]
pub enum Query {
    Boolean { bool: BoolQuery },
    Fuzzy(FuzzyQuery),
    Exact(ExactTerm),
    Phrase(PhraseQuery),
    Regex(RegexQuery),
    Range(RangeQuery),
    Raw { raw: String },
    All,
}

/// Directives applied to the documents a query matched.
#[derive(Clone, Debug)]
pub enum Aggregates {
    SumAgg { field: String },
}

/// Why a clause cannot be compiled.
#[derive(Clone, Debug)]
pub enum Error {
    /// The clause names a field that the schema does not have.
    FieldNotFound(String),
    /// A phrase needs at least two terms.
    PhraseTooShort,
    /// A phrase gives a number of positions other than its number of terms.
    OffsetsMismatch,
}

/// What an error says, as a value of specifications.
pub enum Fault {
    MissingField(Seq<char>),
    PhraseTooShort,
    OffsetsMismatch,
}

impl Error {
    pub open spec fn fault(self) -> Fault {
        match self {
            Error::FieldNotFound(f) => Fault::MissingField(f@),
            Error::PhraseTooShort => Fault::PhraseTooShort,
            Error::OffsetsMismatch => Fault::OffsetsMismatch,
        }
    }

    /// The text of the error.
    pub fn message(&self) -> (r: String)
        ensures
            self is FieldNotFound ==> r@ == "Field: "@ + self->FieldNotFound_0@ + " does not exist"@,
            self is PhraseTooShort ==> r@ == "Phrase Query must have more than 1 term"@,
            self is OffsetsMismatch ==> r@ == "Phrase Query must have as many offsets as terms"@,
    {
        match self {
            Error::FieldNotFound(f) => String::from_str("Field: ").concat(f.as_str()).concat(" does not exist"),
            Error::PhraseTooShort => String::from_str("Phrase Query must have more than 1 term"),
            Error::OffsetsMismatch => String::from_str("Phrase Query must have as many offsets as terms"),
        }
    }
}

/// A text term: the id of a field and the text it holds.
#[derive(Clone, Debug)]
pub struct FieldTerm {
    pub field: u32,
    pub text: String,
}

/// One side of a compiled range.
#[derive(Clone, Copy, Debug, PartialEq, Eq, Structural)]
pub enum RangeBound {
    Included(i64),
    Excluded(i64),
    Unbounded,
}

/// A clause compiled against a schema: every field is resolved to its id.
#[derive(Debug)]
pub enum CompiledQuery {
    Term { term: FieldTerm },
    Fuzzy { term: FieldTerm, distance: u8, transposition: bool },
    Phrase { terms: Vec<(usize, FieldTerm)> },
    Regex { field: u32, pattern: String },
    Range { field: u32, lower: RangeBound, upper: RangeBound },
    Boolean { clauses: Vec<(Occur, CompiledQuery)> },
    Raw { query: String },
    All,
}

/// A compiled aggregation directive.
#[derive(Clone, Copy, Debug, PartialEq, Eq, Structural)]
pub enum CompiledAggregate {
    Sum { field: u32 },
}

/// The field that a clause other than a boolean, raw or match-all one names.
pub open spec fn clause_field(q: Query) -> Option<Seq<char>> {
    match q {
        Query::Fuzzy(f) => Some(f.fuzzy.field@),
        Query::Exact(t) => Some(t.term.field@),
        Query::Phrase(p) => Some(p.phrase.field@),
        Query::Regex(r) => Some(r.regex.field@),
        Query::Range(r) => Some(r.range.field@),
        _ => None,
    }
}

/// What is wrong with a phrase's terms, if anything.
pub open spec fn phrase_fault(p: TermPair) -> Option<Fault> {
    if p.terms@.len() < 2 {
        Some(Fault::PhraseTooShort)
    } else if p.offsets is Some && p.offsets->Some_0@.len() != p.terms@.len() {
        Some(Fault::OffsetsMismatch)
    } else {
        None
    }
}

/// Why a clause does not compile against a schema with `fields`, if it does not:
/// a leaf fails on its field first; a boolean clause fails as its first failing
/// sub-clause does.
pub open spec fn query_fault(q: Query, fields: Map<Seq<char>, u32>) -> Option<Fault>
    decreases q, 0int,
{
    match q {
        Query::Boolean { bool } => clauses_fault(bool.clauses, 0, fields),
        Query::Raw { .. } => None,
        Query::All => None,
        _ => {
            let f = clause_field(q)->Some_0;
            if !fields.contains_key(f) {
                Some(Fault::MissingField(f))
            } else if q is Phrase {
                phrase_fault(q->Phrase_0.phrase.value)
            } else {
                None
            }
        },
    }
}

/// The fault of the first of the sub-clauses `cs[i..]` that does not compile.
pub open spec fn clauses_fault(cs: Vec<(Occur, Query)>, i: int, fields: Map<Seq<char>, u32>) -> Option<Fault>
    decreases cs, 1int + cs.len() - i,
    when 0 <= i <= cs.len()
{
    if i >= cs.len() {
        None
    } else {
        match query_fault(cs[i].1, fields) {
            Some(f) => Some(f),
            None => clauses_fault(cs, i + 1, fields),
        }
    }
}


/// The lower side of a range: `gt` excludes its bound, `gte` includes it.
pub open spec fn lower_bound(r: Ranges) -> RangeBound {
    match (r.gt, r.gte) {
        (Some(v), _) => RangeBound::Excluded(v),
        (None, Some(v)) => RangeBound::Included(v),
        (None, None) => RangeBound::Unbounded,
    }
}

/// The upper side of a range: `lt` excludes its bound, `lte` includes it.
pub open spec fn upper_bound(r: Ranges) -> RangeBound {
    match (r.lt, r.lte) {
        (Some(v), _) => RangeBound::Excluded(v),
        (None, Some(v)) => RangeBound::Included(v),
        (None, None) => RangeBound::Unbounded,
    }
}

/// The position of the `j`-th term of a phrase: its given offset, else `j`.
pub open spec fn phrase_offset(p: TermPair, j: int) -> int {
    match p.offsets {
        Some(o) => o@[j] as int,
        None => j,
    }
}

/// `c` is the plan of clause `q` compiled against a schema with `fields`:
/// every field name replaced by its id, every value carried over as it is.
pub open spec fn compiled_as(q: Query, fields: Map<Seq<char>, u32>, c: CompiledQuery) -> bool
    decreases q,
{
    match q {
        Query::Boolean { bool } => {
            &&& c is Boolean
            &&& c->Boolean_clauses@.len() == bool.clauses@.len()
            &&& forall|j: int|
                0 <= j < bool.clauses@.len() ==> {
                    &&& (#[trigger] c->Boolean_clauses@[j]).0 == bool.clauses[j].0
                    &&& compiled_as(bool.clauses[j].1, fields, c->Boolean_clauses@[j].1)
                }
        },
        Query::Fuzzy(f) => c == (CompiledQuery::Fuzzy {
            term: FieldTerm { field: fields[f.fuzzy.field@], text: f.fuzzy.value.value },
            distance: f.fuzzy.value.distance,
            transposition: f.fuzzy.value.transposition,
        }),
        Query::Exact(t) => c == (CompiledQuery::Term {
            term: FieldTerm { field: fields[t.term.field@], text: t.term.value },
        }),
        Query::Phrase(p) => {
            let pair = p.phrase.value;
            &&& c is Phrase
            &&& c->Phrase_terms@.len() == pair.terms@.len()
            &&& forall|j: int|
                0 <= j < pair.terms@.len() ==> {
                    &&& (#[trigger] c->Phrase_terms@[j]).0 == phrase_offset(pair, j)
                    &&& c->Phrase_terms@[j].1 == (FieldTerm { field: fields[p.phrase.field@], text: pair.terms@[j] })
                }
        },
        Query::Regex(r) => c == (CompiledQuery::Regex { field: fields[r.regex.field@], pattern: r.regex.value }),
        Query::Range(r) => c == (CompiledQuery::Range {
            field: fields[r.range.field@],
            lower: lower_bound(r.range.value),
            upper: upper_bound(r.range.value),
        }),
        Query::Raw { raw } => c == (CompiledQuery::Raw { query: raw }),
        Query::All => c is All,
    }
}

/// What compiling `q` against a schema with `fields` gives: the plan when no
/// fault is found, else the error of the first fault.
pub open spec fn compile_result(q: Query, fields: Map<Seq<char>, u32>, r: Result<CompiledQuery, Error>) -> bool {
    match r {
        Ok(c) => query_fault(q, fields) is None && compiled_as(q, fields, c),
        Err(e) => query_fault(q, fields) == Some(e.fault()),
    }
}

/// Resolves a field name against the schema.
fn resolve_field(schema: &tantivy::schema::Schema, k: &String) -> (r: Result<u32, Error>)
    ensures
        match r {
            Ok(id) => schema_fields(*schema).contains_key(k@) && id == schema_fields(*schema)[k@],
            Err(e) => !schema_fields(*schema).contains_key(k@) && e.fault() == Fault::MissingField(k@),
        },
{
    match get_field(schema, k.as_str()) {
        Some(id) => Ok(id),
        None => Err(Error::FieldNotFound(k.clone())),
    }
}

/// The text term of field `k` holding `v`, or an error naming `k` when the
/// schema has no such field.
fn make_field_value(schema: &tantivy::schema::Schema, k: &String, v: &String) -> (r: Result<FieldTerm, Error>)
    ensures
        match r {
            Ok(t) => schema_fields(*schema).contains_key(k@) && t == (FieldTerm {
                field: schema_fields(*schema)[k@],
                text: *v,
            }),
            Err(e) => !schema_fields(*schema).contains_key(k@) && e.fault() == Fault::MissingField(k@),
        },
{
    let field = resolve_field(schema, k)?;
    Ok(FieldTerm { field, text: v.clone() })
}


impl TermPair {
    /// The terms of a phrase in field `field`, each with its position.
    fn positioned_terms(&self, field: u32) -> (r: Result<Vec<(usize, FieldTerm)>, Error>)
        ensures
            match r {
                Ok(ts) => phrase_fault(*self) is None && ts@.len() == self.terms@.len() && forall|j: int|
                    0 <= j < self.terms@.len() ==> {
                        &&& (#[trigger] ts@[j]).0 == phrase_offset(*self, j)
                        &&& ts@[j].1 == (FieldTerm { field, text: self.terms@[j] })
                    },
                Err(e) => phrase_fault(*self) == Some(e.fault()),
            },
    {
        let n = self.terms.len();
        if n < 2 {
            return Err(Error::PhraseTooShort);
        }
        if let Some(o) = &self.offsets {
            if o.len() != n {
                return Err(Error::OffsetsMismatch);
            }
        }
        let mut ts: Vec<(usize, FieldTerm)> = Vec::new();
        let mut i: usize = 0;
        while i < n
            invariant
                n == self.terms@.len(),
                i <= n,
                phrase_fault(*self) is None,
                ts@.len() == i,
                forall|j: int|
                    0 <= j < i ==> {
                        &&& (#[trigger] ts@[j]).0 == phrase_offset(*self, j)
                        &&& ts@[j].1 == (FieldTerm { field, text: self.terms@[j] })
                    },
            decreases n - i,
        {
            let pos: usize = match &self.offsets {
                Some(o) => o[i],
                None => i,
            };
            ts.push((pos, FieldTerm { field, text: self.terms[i].clone() }));
            i = i + 1;
        }
        Ok(ts)
    }
}

impl Ranges {
    /// The two sides of the range.
    pub fn bounds(&self) -> (r: (RangeBound, RangeBound))
        ensures
            r.0 == lower_bound(*self),
            r.1 == upper_bound(*self),
    {
        let lower = match (self.gt, self.gte) {
            (Some(v), _) => RangeBound::Excluded(v),
            (None, Some(v)) => RangeBound::Included(v),
            (None, None) => RangeBound::Unbounded,
        };
        let upper = match (self.lt, self.lte) {
            (Some(v), _) => RangeBound::Excluded(v),
            (None, Some(v)) => RangeBound::Included(v),
            (None, None) => RangeBound::Unbounded,
        };
        (lower, upper)
    }
}

/// Compilation of a request part against a schema into a plan for the engine.
pub trait CreateQuery: Sized {
    /// The clause that this value compiles as.
    spec fn clause(&self) -> Query;

    fn create_query(&self, schema: &tantivy::schema::Schema) -> (r: Result<CompiledQuery, Error>)
        ensures
            compile_result(self.clause(), schema_fields(*schema), r),
    ;
}

impl CreateQuery for Query {
    open spec fn clause(&self) -> Query {
        *self
    }

    /// Compiles the clause against `schema`: leaves resolve their field, a
    /// boolean clause compiles its sub-clauses in order and stops at the first
    /// that fails.
    fn create_query(&self, schema: &tantivy::schema::Schema) -> (r: Result<CompiledQuery, Error>)
        decreases self,
    {
        match self {
            Query::Boolean { bool } => {
                let cs = &bool.clauses;
                let ghost fields = schema_fields(*schema);
                let mut out: Vec<(Occur, CompiledQuery)> = Vec::new();
                let mut i: usize = 0;
                while i < cs.len()
                    invariant
                        *self is Boolean,
                        *cs == self->Boolean_bool.clauses,
                        fields == schema_fields(*schema),
                        i <= cs@.len(),
                        out@.len() == i,
                        clauses_fault(*cs, 0, fields) == clauses_fault(*cs, i as int, fields),
                        forall|j: int|
                            0 <= j < i ==> {
                                &&& (#[trigger] out@[j]).0 == cs[j].0
                                &&& compiled_as(cs[j].1, fields, out@[j].1)
                            },
                    decreases cs@.len() - i,
                {
                    proof {
                        lemma_child_decreases(*self, i as int);
                    }
                    match cs[i].1.create_query(schema) {
                        Ok(c) => {
                            out.push((cs[i].0, c));
                        },
                        Err(e) => {
                            assert(clauses_fault(*cs, i as int, fields) == Some(e.fault()));
                            return Err(e);
                        },
                    }
                    i = i + 1;
                }
                Ok(CompiledQuery::Boolean { clauses: out })
            },
            Query::Fuzzy(f) => {
                let term = make_field_value(schema, &f.fuzzy.field, &f.fuzzy.value.value)?;
                Ok(CompiledQuery::Fuzzy {
                    term,
                    distance: f.fuzzy.value.distance,
                    transposition: f.fuzzy.value.transposition,
                })
            },
            Query::Exact(t) => {
                let term = make_field_value(schema, &t.term.field, &t.term.value)?;
                Ok(CompiledQuery::Term { term })
            },
            Query::Phrase(p) => {
                let field = resolve_field(schema, &p.phrase.field)?;
                let terms = p.phrase.value.positioned_terms(field)?;
                Ok(CompiledQuery::Phrase { terms })
            },
            Query::Regex(r) => {
                let field = resolve_field(schema, &r.regex.field)?;
                Ok(CompiledQuery::Regex { field, pattern: r.regex.value.clone() })
            },
            Query::Range(r) => {
                let field = resolve_field(schema, &r.range.field)?;
                let (lower, upper) = r.range.value.bounds();
                Ok(CompiledQuery::Range { field, lower, upper })
            },
            Query::Raw { raw } => Ok(CompiledQuery::Raw { query: raw.clone() }),
            Query::All => Ok(CompiledQuery::All),
        }
    }
}


proof fn lemma_child_decreases(q: Query, i: int)
    requires
        q is Boolean,
        0 <= i < q->Boolean_bool.clauses@.len(),
    ensures
        decreases_to!(q => q->Boolean_bool.clauses[i].1),
{
    broadcast use vstd::std_specs::vec::axiom_vec_index_decreases;
    assert(decreases_to!(q => q->Boolean_bool));
    assert(decreases_to!(q->Boolean_bool => q->Boolean_bool.clauses));
    assert(decreases_to!(q->Boolean_bool.clauses => q->Boolean_bool.clauses[i]));
    assert(decreases_to!(q->Boolean_bool.clauses[i] => q->Boolean_bool.clauses[i].1));
}


impl Aggregates {
    /// Compiles the directive against `schema`, resolving its field.
    pub fn create_agg(&self, schema: &tantivy::schema::Schema) -> (r: Result<CompiledAggregate, Error>)
        ensures
            match r {
                Ok(CompiledAggregate::Sum { field }) => {
                    &&& schema_fields(*schema).contains_key(self->SumAgg_field@)
                    &&& field == schema_fields(*schema)[self->SumAgg_field@]
                },
                Err(e) => {
                    &&& !schema_fields(*schema).contains_key(self->SumAgg_field@)
                    &&& e.fault() == Fault::MissingField(self->SumAgg_field@)
                },
            },
    {
        match self {
            Aggregates::SumAgg { field } => {
                let id = resolve_field(schema, field)?;
                Ok(CompiledAggregate::Sum { field: id })
            },
        }
    }
}

/// The faults of the sub-clauses `cs[i..]`: none at all exactly when each of
/// them compiles, else the fault of the first that does not.
proof fn lemma_clauses_fault(cs: Vec<(Occur, Query)>, i: int, fields: Map<Seq<char>, u32>)
    requires
        0 <= i <= cs@.len(),
    ensures
        clauses_fault(cs, i, fields) is None <==> forall|j: int|
            i <= j < cs@.len() ==> (#[trigger] query_fault(cs[j].1, fields)) is None,
        clauses_fault(cs, i, fields) is Some ==> exists|k: int|
            i <= k < cs@.len() && (forall|j: int| i <= j < k ==> (#[trigger] query_fault(cs[j].1, fields)) is None)
                && clauses_fault(cs, i, fields) == query_fault(cs[k].1, fields),
    decreases cs@.len() - i,
{
    if i < cs@.len() {
        lemma_clauses_fault(cs, i + 1, fields);
        if query_fault(cs[i].1, fields) is None {
            if clauses_fault(cs, i, fields) is Some {
                let k = choose|k: int|
                    i + 1 <= k < cs@.len() && (forall|j: int| i + 1 <= j < k ==> (#[trigger] query_fault(cs[j].1, fields)) is None)
                        && clauses_fault(cs, i + 1, fields) == query_fault(cs[k].1, fields);
                assert(forall|j: int| i <= j < k ==> (#[trigger] query_fault(cs[j].1, fields)) is None);
            }
        } else {
            assert(forall|j: int| i <= j < i ==> (#[trigger] query_fault(cs[j].1, fields)) is None);
        }
    }
}

/// A boolean clause compiles exactly when each of its sub-clauses compiles;
/// when it does not, its error is that of its first failing sub-clause.
pub proof fn lemma_boolean_composes(q: Query, fields: Map<Seq<char>, u32>)
    requires
        q is Boolean,
    ensures
        query_fault(q, fields) is None <==> forall|j: int|
            0 <= j < q->Boolean_bool.clauses@.len() ==> (#[trigger] query_fault(q->Boolean_bool.clauses[j].1, fields)) is None,
        query_fault(q, fields) is Some ==> exists|k: int|
            0 <= k < q->Boolean_bool.clauses@.len()
                && (forall|j: int| 0 <= j < k ==> (#[trigger] query_fault(q->Boolean_bool.clauses[j].1, fields)) is None)
                && query_fault(q, fields) == query_fault(q->Boolean_bool.clauses[k].1, fields),
{
    lemma_clauses_fault(q->Boolean_bool.clauses, 0, fields);
}

/// A clause that names a field the schema lacks fails to compile, with an
/// error naming that field.
pub proof fn lemma_unknown_field(q: Query, fields: Map<Seq<char>, u32>, r: Result<CompiledQuery, Error>)
    requires
        clause_field(q) is Some,
        !fields.contains_key(clause_field(q)->Some_0),
        compile_result(q, fields, r),
    ensures
        r is Err,
        r->Err_0.fault() == Fault::MissingField(clause_field(q)->Some_0),
{
}


/// The kinds of clause, told apart by the one key of a query object.
#[derive(Clone, Copy, Debug, PartialEq, Eq, Structural)]
pub enum ClauseKind {
    Boolean,
    Fuzzy,
    Exact,
    Phrase,
    Regex,
    Range,
    Raw,
    All,
}

/// The kind of clause that a query object with the key `k` holds, if any.
pub open spec fn kind_of_key(k: Seq<char>) -> Option<ClauseKind> {
    if k == "bool"@ {
        Some(ClauseKind::Boolean)
    } else if k == "fuzzy"@ {
        Some(ClauseKind::Fuzzy)
    } else if k == "exact_term"@ {
        Some(ClauseKind::Exact)
    } else if k == "phrase"@ {
        Some(ClauseKind::Phrase)
    } else if k == "regex"@ {
        Some(ClauseKind::Regex)
    } else if k == "range"@ {
        Some(ClauseKind::Range)
    } else if k == "raw"@ {
        Some(ClauseKind::Raw)
    } else if k == "all"@ {
        Some(ClauseKind::All)
    } else {
        None
    }
}

/// Whether two strings hold the same characters.
fn same_text(a: &str, b: &str) -> (r: bool)
    ensures
        r == (a@ == b@),
{
    let n = a.unicode_len();
    if n != b.unicode_len() {
        return false;
    }
    let mut i: usize = 0;
    while i < n
        invariant
            n == a@.len(),
            n == b@.len(),
            i <= n,
            forall|j: int| 0 <= j < i ==> a@[j] == b@[j],
        decreases n - i,
    {
        if a.get_char(i) != b.get_char(i) {
            return false;
        }
        i = i + 1;
    }
    assert(a@ =~= b@);
    true
}

/// The kind of clause that a query object with the key `key` holds; `None`
/// for a key that no clause has.
pub fn clause_kind(key: &str) -> (r: Option<ClauseKind>)
    ensures
        r == kind_of_key(key@),
{
    if same_text(key, "bool") {
        Some(ClauseKind::Boolean)
    } else if same_text(key, "fuzzy") {
        Some(ClauseKind::Fuzzy)
    } else if same_text(key, "exact_term") {
        Some(ClauseKind::Exact)
    } else if same_text(key, "phrase") {
        Some(ClauseKind::Phrase)
    } else if same_text(key, "regex") {
        Some(ClauseKind::Regex)
    } else if same_text(key, "range") {
        Some(ClauseKind::Range)
    } else if same_text(key, "raw") {
        Some(ClauseKind::Raw)
    } else if same_text(key, "all") {
        Some(ClauseKind::All)
    } else {
        None
    }
}

/// The grammar is unambiguous: two different keys never select the same kind
/// of clause.
pub proof fn lemma_keys_select_one_kind(k1: Seq<char>, k2: Seq<char>)
    requires
        kind_of_key(k1) is Some,
        kind_of_key(k1) == kind_of_key(k2),
    ensures
        k1 == k2,
{
}

} // verus!
