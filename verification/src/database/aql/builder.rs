//! The query builder: a query head (`FOR .. IN ..`) followed by steps.

use vstd::prelude::*;
use vstd::string::StringExecFns;
use crate::text::decimal;
use crate::database::mapping::AQLMapping;
use crate::database::aql::json::{json_array_text, json_array_to_string};
use crate::database::aql::steps::{
    AqlCollect, AqlInsert, AqlLimit, AqlRemove, AqlReplace, AqlReturn, AqlSort, AqlUpdate,
    AqlUpsert,
};

verus! {

/// The number of variables a query can bind.
pub const AQL_MAX_VARIABLES: usize = 100;

/// The reasons a query cannot be built.
#[derive(Debug, Clone, Copy, PartialEq, Eq, Structural)]
pub enum AqlError {
    /// The query would bind more than `AQL_MAX_VARIABLES` variables.
    TooManyVariables,
}

impl AqlError {
    /// The HTTP status that answers a request failing with this error.
    pub fn status_code(&self) -> (r: u16)
        ensures
            r == 400,
    {
        400
    }

    /// The message of this error.
    pub fn message(&self) -> (r: &'static str)
        ensures
            r@ == "Too much variables to perform the query"@,
    {
        "Too much variables to perform the query"
    }
}

/// The parameter name (`@v<index>`) a query uses for its variable number `index`.
pub open spec fn variable_id(index: nat) -> Seq<char> {
    seq!['@', 'v'] + decimal(index)
}

/// The name (`v<index>`) under which variable number `index` is bound.
pub open spec fn variable_bind_name(index: nat) -> Seq<char> {
    seq!['v'] + decimal(index)
}

/// The name of inline variable number `index` (`_<index>`).
pub open spec fn inline_variable(index: nat) -> Seq<char> {
    seq!['_'] + decimal(index)
}

/// The name under which variable number `index` is bound (`v<index>`).
pub fn variable_name(index: usize) -> (r: String)
    ensures
        r@ == variable_bind_name(index as nat),
{
    proof {
        reveal_strlit("v");
    }
    let mut name = String::from_str("v");
    crate::text::push_decimal(&mut name, index as u64);
    name
}

/// The name of inline variable number `index` (`_<index>`); there are
/// `AQL_MAX_VARIABLES` of them.
pub fn get_aql_inline_variable(index: usize) -> (r: String)
    requires
        index < AQL_MAX_VARIABLES,
    ensures
        r@ == inline_variable(index as nat),
{
    proof {
        reveal_strlit("_");
    }
    let mut name = String::from_str("_");
    crate::text::push_decimal(&mut name, index as u64);
    name
}

/// The criteria of a `SORT`, separated by `, `.
pub open spec fn sort_list_text(sorts: Seq<AqlSort>) -> Seq<char>
    decreases sorts.len(),
{
    if sorts.len() == 0 {
        Seq::empty()
    } else if sorts.len() == 1 {
        sorts[0].query_text()
    } else {
        sort_list_text(sorts.drop_last()) + ", "@ + sorts.last().query_text()
    }
}

/// The text of a sequence of steps, one after the other.
pub open spec fn steps_text<'a>(steps: Seq<AqlKind<'a>>) -> Seq<char>
    decreases steps,
{
    if steps.len() == 0 {
        Seq::empty()
    } else {
        steps_text(steps.drop_last()) + steps.last().query_text()
    }
}

/// Whether every sub-query among these steps binds no variable.
pub open spec fn steps_buildable<'a>(steps: Seq<AqlKind<'a>>) -> bool
    decreases steps,
{
    if steps.len() == 0 {
        true
    } else {
        steps_buildable(steps.drop_last()) && steps.last().buildable()
    }
}

proof fn lemma_steps_buildable_index<'a>(steps: Seq<AqlKind<'a>>, i: int)
    requires
        steps_buildable(steps),
        0 <= i < steps.len(),
    ensures
        steps[i].buildable(),
    decreases steps.len(),
{
    if i < steps.len() - 1 {
        lemma_steps_buildable_index(steps.drop_last(), i);
    }
}

/// The expression a `LET` binds.
pub enum AqlLetKind<'a> {
    Expression(String),
    Aql(AqlBuilder<'a>),
}

/// `LET <variable> = <expression>`.
pub struct AqlLet<'a> {
    pub variable: String,
    pub expression: AqlLetKind<'a>,
}

impl<'a> AqlLet<'a> {
    /// The text this step adds to a query.
    pub open spec fn query_text(&self) -> Seq<char>
        decreases self,
    {
        " LET "@ + self.variable@ + " = "@ + match self.expression {
            AqlLetKind::Expression(v) => v@,
            AqlLetKind::Aql(b) => "("@ + b.query_text() + ")"@,
        }
    }

    /// Whether a sub-query here binds no variable, as sub-queries must.
    pub open spec fn buildable(&self) -> bool
        decreases self,
    {
        match self.expression {
            AqlLetKind::Expression(_) => true,
            AqlLetKind::Aql(b) => b.variable_count() == 0 && b.buildable(),
        }
    }

    /// Whether a sub-query here binds no variable.
    pub fn is_buildable(&self) -> (r: bool)
        ensures
            r == self.buildable(),
        decreases self,
    {
        match &self.expression {
            AqlLetKind::Expression(_) => true,
            AqlLetKind::Aql(b) => b.vars.len() == 0 && b.is_buildable(),
        }
    }

    /// Appends this step to `query`.
    pub fn build_query(&self, query: &mut String)
        requires
            self.buildable(),
        ensures
            final(query)@ == old(query)@ + self.query_text(),
        decreases self,
    {
        let ghost start = query@;
        query.append(" LET ");
        query.append(self.variable.as_str());
        query.append(" = ");
        match &self.expression {
            AqlLetKind::Expression(v) => {
                query.append(v.as_str());
            },
            AqlLetKind::Aql(v) => {
                let content = v.build_query();
                query.append("(");
                query.append(content.as_str());
                query.append(")");
            },
        }
        assert(query@ =~= start + self.query_text());
    }
}

/// A step of a query.
pub enum AqlKind<'a> {
    Return(AqlReturn),
    Filter(String),
    Sort(Vec<AqlSort>),
    Limit(AqlLimit),
    Let(AqlLet<'a>),
    Remove(AqlRemove<'a>),
    Update(AqlUpdate<'a>),
    Replace(AqlReplace<'a>),
    Insert(AqlInsert<'a>),
    Upsert(AqlUpsert<'a>),
    Collect(AqlCollect<'a>),
}

impl<'a> AqlKind<'a> {
    /// The text this step adds to a query.
    pub open spec fn query_text(&self) -> Seq<char>
        decreases self,
    {
        match self {
            AqlKind::Return(v) => v.query_text(),
            AqlKind::Filter(v) => " FILTER "@ + v@,
            AqlKind::Sort(v) => if v@.len() == 0 {
                Seq::empty()
            } else {
                " SORT "@ + sort_list_text(v@)
            },
            AqlKind::Limit(v) => v.query_text(),
            AqlKind::Let(v) => v.query_text(),
            AqlKind::Remove(v) => v.query_text(),
            AqlKind::Update(v) => v.query_text(),
            AqlKind::Replace(v) => v.query_text(),
            AqlKind::Insert(v) => v.query_text(),
            AqlKind::Upsert(v) => v.query_text(),
            AqlKind::Collect(v) => v.query_text(),
        }
    }

    /// Whether a sub-query in this step binds no variable.
    pub open spec fn buildable(&self) -> bool
        decreases self,
    {
        match self {
            AqlKind::Let(v) => v.buildable(),
            _ => true,
        }
    }

    /// Whether a sub-query in this step binds no variable.
    pub fn is_buildable(&self) -> (r: bool)
        ensures
            r == self.buildable(),
        decreases self,
    {
        match self {
            AqlKind::Let(v) => v.is_buildable(),
            _ => true,
        }
    }

    /// Appends this step to `query`.
    pub fn build_query(&self, query: &mut String)
        requires
            self.buildable(),
        ensures
            final(query)@ == old(query)@ + self.query_text(),
        decreases self,
    {
        match self {
            AqlKind::Return(v) => v.build_query(query),
            AqlKind::Filter(v) => {
                query.append(" FILTER ");
                query.append(v.as_str());
            },
            AqlKind::Sort(v) => {
                if v.len() == 0 {
                    return;
                }
                let ghost start = query@;
                query.append(" SORT ");
                let ghost head = query@;
                v[0].build_query(query);
                let mut i: usize = 1;
                while i < v.len()
                    invariant
                        1 <= i <= v@.len(),
                        query@ == head + sort_list_text(v@.take(i as int)),
                    decreases v@.len() - i,
                {
                    proof {
                        assert(v@.take(i as int + 1).drop_last() == v@.take(i as int));
                    }
                    query.append(", ");
                    v[i].build_query(query);
                    i = i + 1;
                }
                proof {
                    assert(v@.take(i as int) == v@);
                }
            },
            AqlKind::Limit(v) => v.build_query(query),
            AqlKind::Let(v) => v.build_query(query),
            AqlKind::Remove(v) => v.build_query(query),
            AqlKind::Update(v) => v.build_query(query),
            AqlKind::Replace(v) => v.build_query(query),
            AqlKind::Insert(v) => v.build_query(query),
            AqlKind::Upsert(v) => v.build_query(query),
            AqlKind::Collect(v) => v.build_query(query),
        }
    }
}

/// Where the rows of a query come from.
enum AqlBuilderKind<'a> {
    Plain,
    Collection(&'a str),
    List(Vec<serde_json::Value>),
    Text(String),
}

/// A query under construction: a head, its steps and the variables it binds.
pub struct AqlBuilder<'a> {
    alias: &'a str,
    kind: AqlBuilderKind<'a>,
    batch_size: Option<u32>,
    full_count: bool,
    handle_write_conflicts: bool,
    global_limit: u64,
    steps: Vec<AqlKind<'a>>,
    vars: Vec<serde_json::Value>,
}

impl<'a> AqlBuilder<'a> {
    /// The head of the query: empty, `FOR <alias> IN <collection>`,
    /// `FOR <alias> IN <JSON list>` or `FOR <alias> IN <list text>`.
    pub closed spec fn head_text(&self) -> Seq<char> {
        match self.kind {
            AqlBuilderKind::Plain => Seq::empty(),
            AqlBuilderKind::Collection(c) => "FOR "@ + self.alias@ + " IN "@ + c@,
            AqlBuilderKind::List(l) => "FOR "@ + self.alias@ + " IN "@ + json_array_text(l@),
            AqlBuilderKind::Text(t) => "FOR "@ + self.alias@ + " IN "@ + t@,
        }
    }

    /// Whether the rows come from a list of values.
    pub closed spec fn is_list(&self) -> bool {
        self.kind is List
    }

    /// The steps added so far, in order.
    pub closed spec fn steps(&self) -> Seq<AqlKind<'a>> {
        self.steps@
    }

    /// The values bound so far; value number `i` is bound as `@v<i>`.
    pub closed spec fn variables(&self) -> Seq<serde_json::Value> {
        self.vars@
    }

    /// The number of variables bound so far.
    pub open spec fn variable_count(&self) -> nat {
        self.variables().len()
    }

    pub closed spec fn spec_batch_size(&self) -> Option<u32> {
        self.batch_size
    }

    pub closed spec fn spec_full_count(&self) -> bool {
        self.full_count
    }

    pub closed spec fn spec_handle_write_conflicts(&self) -> bool {
        self.handle_write_conflicts
    }

    pub closed spec fn spec_global_limit(&self) -> u64 {
        self.global_limit
    }

    /// The text of the whole query.
    pub open spec fn query_text(&self) -> Seq<char>
        decreases self,
    {
        self.head_text() + steps_text(self.steps())
    }

    /// Whether every sub-query of this query binds no variable.
    pub open spec fn buildable(&self) -> bool
        decreases self,
    {
        steps_buildable(self.steps())
    }

    /// Whether `other` has the head, the variables and the settings of `self`.
    pub closed spec fn same_setup(&self, other: &Self) -> bool {
        &&& self.alias == other.alias
        &&& self.kind == other.kind
        &&& self.batch_size == other.batch_size
        &&& self.full_count == other.full_count
        &&& self.handle_write_conflicts == other.handle_write_conflicts
        &&& self.global_limit == other.global_limit
        &&& self.vars@ == other.vars@
    }

    /// Whether `other` differs from `self` only by one more step, `step`.
    pub open spec fn with_step(&self, other: &Self, step: AqlKind<'a>) -> bool {
        &&& self.same_setup(other)
        &&& other.steps() == self.steps().push(step)
    }

    // CONSTRUCTORS -----------------------------------------------------------

    /// A query without a head.
    pub fn new_simple() -> (b: AqlBuilder<'a>)
        ensures
            b.head_text() == Seq::<char>::empty(),
            !b.is_list(),
            b.steps() == Seq::<AqlKind<'a>>::empty(),
            b.variable_count() == 0,
            b.spec_batch_size() is None,
            !b.spec_full_count(),
            !b.spec_handle_write_conflicts(),
            b.spec_global_limit() == 0,
    {
        AqlBuilder {
            alias: "",
            kind: AqlBuilderKind::Plain,
            batch_size: None,
            full_count: false,
            handle_write_conflicts: false,
            global_limit: 0,
            steps: Vec::new(),
            vars: Vec::new(),
        }
    }

    /// A query over the documents of `collection`, each named `alias`.
    pub fn new_for_in_collection(alias: &'a str, collection: &'a str) -> (b: AqlBuilder<'a>)
        ensures
            b.head_text() == "FOR "@ + alias@ + " IN "@ + collection@,
            !b.is_list(),
            b.steps() == Seq::<AqlKind<'a>>::empty(),
            b.variable_count() == 0,
            b.spec_batch_size() is None,
            !b.spec_full_count(),
            !b.spec_handle_write_conflicts(),
            b.spec_global_limit() == 0,
    {
        AqlBuilder {
            alias,
            kind: AqlBuilderKind::Collection(collection),
            batch_size: None,
            full_count: false,
            handle_write_conflicts: false,
            global_limit: 0,
            steps: Vec::new(),
            vars: Vec::new(),
        }
    }

    /// A query over the values of the list whose AQL text is `list_text`,
    /// each named `alias`.
    pub fn new_for_in_text(alias: &'a str, list_text: String) -> (b: AqlBuilder<'a>)
        ensures
            b.head_text() == "FOR "@ + alias@ + " IN "@ + list_text@,
            !b.is_list(),
            b.steps() == Seq::<AqlKind<'a>>::empty(),
            b.variable_count() == 0,
            b.spec_batch_size() is None,
            !b.spec_full_count(),
            !b.spec_handle_write_conflicts(),
            b.spec_global_limit() == 0,
    {
        AqlBuilder {
            alias,
            kind: AqlBuilderKind::Text(list_text),
            batch_size: None,
            full_count: false,
            handle_write_conflicts: false,
            global_limit: 0,
            steps: Vec::new(),
            vars: Vec::new(),
        }
    }

    /// A query over the values of `list`, each named `alias`.
    pub fn new_for_in_list(alias: &'a str, list: Vec<serde_json::Value>) -> (b: AqlBuilder<'a>)
        ensures
            b.head_text() == "FOR "@ + alias@ + " IN "@ + json_array_text(list@),
            b.is_list(),
            b.steps() == Seq::<AqlKind<'a>>::empty(),
            b.variable_count() == 0,
            b.spec_batch_size() is None,
            !b.spec_full_count(),
            !b.spec_handle_write_conflicts(),
            b.spec_global_limit() == 0,
    {
        AqlBuilder {
            alias,
            kind: AqlBuilderKind::List(list),
            batch_size: None,
            full_count: false,
            handle_write_conflicts: false,
            global_limit: 0,
            steps: Vec::new(),
            vars: Vec::new(),
        }
    }

    // GETTERS ----------------------------------------------------------------

    pub fn batch_size(&self) -> (r: Option<u32>)
        ensures
            r == self.spec_batch_size(),
    {
        self.batch_size
    }

    pub fn full_count(&self) -> (r: bool)
        ensures
            r == self.spec_full_count(),
    {
        self.full_count
    }

    pub fn handle_write_conflicts(&self) -> (r: bool)
        ensures
            r == self.spec_handle_write_conflicts(),
    {
        self.handle_write_conflicts
    }

    pub fn global_limit(&self) -> (r: u64)
        ensures
            r == self.spec_global_limit(),
    {
        self.global_limit
    }

    /// The values bound so far, in the order of their names.
    pub fn variable_values(&self) -> (r: &Vec<serde_json::Value>)
        ensures
            r@ == self.variables(),
    {
        &self.vars
    }

    // SETTERS ----------------------------------------------------------------

    pub fn set_batch_size(&mut self, batch_size: Option<u32>)
        ensures
            final(self).spec_batch_size() == batch_size,
            final(self).spec_full_count() == old(self).spec_full_count(),
            final(self).spec_handle_write_conflicts() == old(self).spec_handle_write_conflicts(),
            final(self).spec_global_limit() == old(self).spec_global_limit(),
            final(self).head_text() == old(self).head_text(),
            final(self).is_list() == old(self).is_list(),
            final(self).steps() == old(self).steps(),
            final(self).variables() == old(self).variables(),
    {
        self.batch_size = batch_size;
    }

    pub fn set_full_count(&mut self, full_count: bool)
        ensures
            final(self).spec_batch_size() == old(self).spec_batch_size(),
            final(self).spec_full_count() == full_count,
            final(self).spec_handle_write_conflicts() == old(self).spec_handle_write_conflicts(),
            final(self).spec_global_limit() == old(self).spec_global_limit(),
            final(self).head_text() == old(self).head_text(),
            final(self).is_list() == old(self).is_list(),
            final(self).steps() == old(self).steps(),
            final(self).variables() == old(self).variables(),
    {
        self.full_count = full_count;
    }

    pub fn set_handle_write_conflicts(&mut self, handle_write_conflicts: bool)
        ensures
            final(self).spec_batch_size() == old(self).spec_batch_size(),
            final(self).spec_full_count() == old(self).spec_full_count(),
            final(self).spec_handle_write_conflicts() == handle_write_conflicts,
            final(self).spec_global_limit() == old(self).spec_global_limit(),
            final(self).head_text() == old(self).head_text(),
            final(self).is_list() == old(self).is_list(),
            final(self).steps() == old(self).steps(),
            final(self).variables() == old(self).variables(),
    {
        self.handle_write_conflicts = handle_write_conflicts;
    }

    pub fn set_global_limit(&mut self, global_limit: u64)
        ensures
            final(self).spec_batch_size() == old(self).spec_batch_size(),
            final(self).spec_full_count() == old(self).spec_full_count(),
            final(self).spec_handle_write_conflicts() == old(self).spec_handle_write_conflicts(),
            final(self).spec_global_limit() == global_limit,
            final(self).head_text() == old(self).head_text(),
            final(self).is_list() == old(self).is_list(),
            final(self).steps() == old(self).steps(),
            final(self).variables() == old(self).variables(),
    {
        self.global_limit = global_limit;
    }

    /// Whether the query iterates over a list of values.
    pub fn is_list_query(&self) -> (r: bool)
        ensures
            r == self.is_list(),
    {
        matches!(self.kind, AqlBuilderKind::List(_))
    }

    /// Replaces the values a list query iterates over.
    pub fn set_list(&mut self, list: Vec<serde_json::Value>)
        requires
            old(self).is_list(),
        ensures
            final(self).head_text() == "FOR "@ + old(self).alias_text() + " IN "@ + json_array_text(list@),
            final(self).alias_text() == old(self).alias_text(),
            final(self).is_list(),
            final(self).spec_batch_size() == old(self).spec_batch_size(),
            final(self).spec_full_count() == old(self).spec_full_count(),
            final(self).spec_handle_write_conflicts() == old(self).spec_handle_write_conflicts(),
            final(self).spec_global_limit() == old(self).spec_global_limit(),
            final(self).steps() == old(self).steps(),
            final(self).variables() == old(self).variables(),
    {
        self.kind = AqlBuilderKind::List(list);
    }

    /// The name the rows are given.
    pub closed spec fn alias_text(&self) -> Seq<char> {
        self.alias@
    }

    // METHODS ----------------------------------------------------------------

    /// Adds a step.
    pub fn step(&mut self, kind: AqlKind<'a>)
        ensures
            old(self).with_step(final(self), kind),
            final(self).query_text() == old(self).query_text() + kind.query_text(),
            final(self).variable_count() == old(self).variable_count(),
            old(self).buildable() && kind.buildable() ==> final(self).buildable(),
    {
        let ghost before = *self;
        let ghost added = kind;
        self.steps.push(kind);
        proof {
            lemma_step_appends_text(before, *self, added);
        }
    }

    pub fn return_step(&mut self, step: AqlReturn)
        ensures
            old(self).with_step(final(self), AqlKind::Return(step)),
            final(self).query_text() == old(self).query_text() + AqlKind::Return(step).query_text(),
            final(self).variable_count() == old(self).variable_count(),
            old(self).buildable() && AqlKind::Return(step).buildable() ==> final(self).buildable(),
    {
        let ghost before = *self;
        let ghost added = AqlKind::Return(step);
        self.steps.push(AqlKind::Return(step));
        proof {
            lemma_step_appends_text(before, *self, added);
        }
    }

    pub fn filter_step(&mut self, step: String)
        ensures
            old(self).with_step(final(self), AqlKind::Filter(step)),
            final(self).query_text() == old(self).query_text() + AqlKind::Filter(step).query_text(),
            final(self).variable_count() == old(self).variable_count(),
            old(self).buildable() && AqlKind::Filter(step).buildable() ==> final(self).buildable(),
    {
        let ghost before = *self;
        let ghost added = AqlKind::Filter(step);
        self.steps.push(AqlKind::Filter(step));
        proof {
            lemma_step_appends_text(before, *self, added);
        }
    }

    pub fn sort_step(&mut self, step: Vec<AqlSort>)
        ensures
            old(self).with_step(final(self), AqlKind::Sort(step)),
            final(self).query_text() == old(self).query_text() + AqlKind::Sort(step).query_text(),
            final(self).variable_count() == old(self).variable_count(),
            old(self).buildable() && AqlKind::Sort(step).buildable() ==> final(self).buildable(),
    {
        let ghost before = *self;
        let ghost added = AqlKind::Sort(step);
        self.steps.push(AqlKind::Sort(step));
        proof {
            lemma_step_appends_text(before, *self, added);
        }
    }

    pub fn limit_step(&mut self, step: AqlLimit)
        ensures
            old(self).with_step(final(self), AqlKind::Limit(step)),
            final(self).query_text() == old(self).query_text() + AqlKind::Limit(step).query_text(),
            final(self).variable_count() == old(self).variable_count(),
            old(self).buildable() && AqlKind::Limit(step).buildable() ==> final(self).buildable(),
    {
        let ghost before = *self;
        let ghost added = AqlKind::Limit(step);
        self.steps.push(AqlKind::Limit(step));
        proof {
            lemma_step_appends_text(before, *self, added);
        }
    }

    pub fn let_step(&mut self, step: AqlLet<'a>)
        ensures
            old(self).with_step(final(self), AqlKind::Let(step)),
            final(self).query_text() == old(self).query_text() + AqlKind::Let(step).query_text(),
            final(self).variable_count() == old(self).variable_count(),
            old(self).buildable() && AqlKind::Let(step).buildable() ==> final(self).buildable(),
    {
        let ghost before = *self;
        let ghost added = AqlKind::Let(step);
        self.steps.push(AqlKind::Let(step));
        proof {
            lemma_step_appends_text(before, *self, added);
        }
    }

    pub fn remove_step(&mut self, step: AqlRemove<'a>)
        ensures
            old(self).with_step(final(self), AqlKind::Remove(step)),
            final(self).query_text() == old(self).query_text() + AqlKind::Remove(step).query_text(),
            final(self).variable_count() == old(self).variable_count(),
            old(self).buildable() && AqlKind::Remove(step).buildable() ==> final(self).buildable(),
    {
        let ghost before = *self;
        let ghost added = AqlKind::Remove(step);
        self.steps.push(AqlKind::Remove(step));
        proof {
            lemma_step_appends_text(before, *self, added);
        }
    }

    pub fn update_step(&mut self, step: AqlUpdate<'a>)
        ensures
            old(self).with_step(final(self), AqlKind::Update(step)),
            final(self).query_text() == old(self).query_text() + AqlKind::Update(step).query_text(),
            final(self).variable_count() == old(self).variable_count(),
            old(self).buildable() && AqlKind::Update(step).buildable() ==> final(self).buildable(),
    {
        let ghost before = *self;
        let ghost added = AqlKind::Update(step);
        self.steps.push(AqlKind::Update(step));
        proof {
            lemma_step_appends_text(before, *self, added);
        }
    }

    pub fn replace_step(&mut self, step: AqlReplace<'a>)
        ensures
            old(self).with_step(final(self), AqlKind::Replace(step)),
            final(self).query_text() == old(self).query_text() + AqlKind::Replace(step).query_text(),
            final(self).variable_count() == old(self).variable_count(),
            old(self).buildable() && AqlKind::Replace(step).buildable() ==> final(self).buildable(),
    {
        let ghost before = *self;
        let ghost added = AqlKind::Replace(step);
        self.steps.push(AqlKind::Replace(step));
        proof {
            lemma_step_appends_text(before, *self, added);
        }
    }

    pub fn insert_step(&mut self, step: AqlInsert<'a>)
        ensures
            old(self).with_step(final(self), AqlKind::Insert(step)),
            final(self).query_text() == old(self).query_text() + AqlKind::Insert(step).query_text(),
            final(self).variable_count() == old(self).variable_count(),
            old(self).buildable() && AqlKind::Insert(step).buildable() ==> final(self).buildable(),
    {
        let ghost before = *self;
        let ghost added = AqlKind::Insert(step);
        self.steps.push(AqlKind::Insert(step));
        proof {
            lemma_step_appends_text(before, *self, added);
        }
    }

    pub fn upsert_step(&mut self, step: AqlUpsert<'a>)
        ensures
            old(self).with_step(final(self), AqlKind::Upsert(step)),
            final(self).query_text() == old(self).query_text() + AqlKind::Upsert(step).query_text(),
            final(self).variable_count() == old(self).variable_count(),
            old(self).buildable() && AqlKind::Upsert(step).buildable() ==> final(self).buildable(),
    {
        let ghost before = *self;
        let ghost added = AqlKind::Upsert(step);
        self.steps.push(AqlKind::Upsert(step));
        proof {
            lemma_step_appends_text(before, *self, added);
        }
    }

    pub fn collect_step(&mut self, step: AqlCollect<'a>)
        ensures
            old(self).with_step(final(self), AqlKind::Collect(step)),
            final(self).query_text() == old(self).query_text() + AqlKind::Collect(step).query_text(),
            final(self).variable_count() == old(self).variable_count(),
            old(self).buildable() && AqlKind::Collect(step).buildable() ==> final(self).buildable(),
    {
        let ghost before = *self;
        let ghost added = AqlKind::Collect(step);
        self.steps.push(AqlKind::Collect(step));
        proof {
            lemma_step_appends_text(before, *self, added);
        }
    }

    /// Adds a `RETURN` of the mapping of `return_fields` under `variable`,
    /// after the `LET` steps that mapping needs.
    pub fn return_step_with_fields<T: AQLMapping>(&mut self, variable: &str, return_fields: &T)
        requires
            return_fields.mapping_next_id(variable@, 0) <= AQL_MAX_VARIABLES,
        ensures
            old(self).same_setup(&*final(self)),
            final(self).steps().len() > old(self).steps().len(),
            final(self).steps().subrange(0, old(self).steps().len() as int) == old(self).steps(),
            final(self).steps().last() matches AqlKind::Return(r)
                && !r.distinct && r.expression@ == return_fields.mapping_text(variable@, 0),
            forall|i: int| old(self).steps().len() <= i < final(self).steps().len() - 1
                ==> #[trigger] final(self).steps()[i] is Let,
            old(self).buildable() ==> final(self).buildable(),
            final(self).variable_count() == old(self).variable_count(),
            final(self).query_text() == old(self).query_text() + return_fields.lets_text(variable@, 0)
                + " RETURN "@ + return_fields.mapping_text(variable@, 0),
    {
        let ghost before = *self;
        let mut next_id: usize = 0;
        return_fields.include_let_steps(self, variable, &mut next_id);
        let ghost middle = *self;
        let mut buffer = String::new();
        next_id = 0;
        return_fields.map_to_json(&mut buffer, variable, &mut next_id);
        let step = AqlReturn { distinct: false, expression: buffer };
        let ghost added = AqlKind::Return(step);
        self.steps.push(AqlKind::Return(step));
        proof {
            lemma_step_appends_text(middle, *self, added);
            assert(added.query_text() =~= " RETURN "@ + return_fields.mapping_text(variable@, 0));
            assert(self.query_text() =~= before.query_text() + return_fields.lets_text(variable@, 0)
                + " RETURN "@ + return_fields.mapping_text(variable@, 0));
            assert(self.steps().drop_last() == middle.steps());
            assert(self.steps().subrange(0, before.steps().len() as int)
                == middle.steps().subrange(0, before.steps().len() as int));
        }
    }

    /// Binds `value` to the next variable and returns the parameter name
    /// (`@v<n>`) the query uses for it; fails when all
    /// `AQL_MAX_VARIABLES` variables are bound already.
    pub fn add_variable_as_json(&mut self, value: serde_json::Value) -> (r: Result<String, AqlError>)
        ensures
            r is Ok <==> old(self).variable_count() < AQL_MAX_VARIABLES,
            r matches Ok(id) ==> {
                &&& id@ == variable_id(old(self).variable_count())
                &&& final(self).variables() == old(self).variables().push(value)
                &&& final(self).steps() == old(self).steps()
                &&& final(self).head_text() == old(self).head_text()
                &&& final(self).is_list() == old(self).is_list()
                &&& final(self).spec_batch_size() == old(self).spec_batch_size()
                &&& final(self).spec_full_count() == old(self).spec_full_count()
                &&& final(self).spec_handle_write_conflicts() == old(self).spec_handle_write_conflicts()
                &&& final(self).spec_global_limit() == old(self).spec_global_limit()
            },
            r matches Err(e) ==> e == AqlError::TooManyVariables && *final(self) == *old(self),
    {
        let index = self.vars.len();
        if index >= AQL_MAX_VARIABLES {
            return Err(AqlError::TooManyVariables);
        }
        proof {
            reveal_strlit("@v");
        }
        let mut id = String::from_str("@v");
        crate::text::push_decimal(&mut id, index as u64);
        self.vars.push(value);
        Ok(id)
    }

    /// Whether every sub-query of this query binds no variable, as
    /// `build_query` needs.
    pub fn is_buildable(&self) -> (r: bool)
        ensures
            r == self.buildable(),
        decreases self,
    {
        let mut i: usize = 0;
        while i < self.steps.len()
            invariant
                0 <= i <= self.steps@.len(),
                steps_buildable(self.steps@.take(i as int)),
            decreases self.steps@.len() - i,
        {
            proof {
                assert(self.steps@.take(i as int + 1).drop_last() == self.steps@.take(i as int));
            }
            if !self.steps[i].is_buildable() {
                proof {
                    if steps_buildable(self.steps@) {
                        lemma_steps_buildable_index(self.steps@, i as int);
                    }
                }
                return false;
            }
            i = i + 1;
        }
        proof {
            assert(self.steps@.take(i as int) == self.steps@);
        }
        true
    }

    /// Appends the text of the whole query to a new string.
    pub fn build_query(&self) -> (query: String)
        requires
            self.buildable(),
        ensures
            query@ == self.query_text(),
        decreases self,
    {
        let mut query = match &self.kind {
            AqlBuilderKind::Plain => String::new(),
            AqlBuilderKind::Collection(collection) => {
                let mut q = String::from_str("FOR ");
                q.append(self.alias);
                q.append(" IN ");
                q.append(collection);
                q
            },
            AqlBuilderKind::List(list) => {
                let mut q = String::from_str("FOR ");
                q.append(self.alias);
                q.append(" IN ");
                let json = json_array_to_string(list);
                q.append(json.as_str());
                q
            },
            AqlBuilderKind::Text(text) => {
                let mut q = String::from_str("FOR ");
                q.append(self.alias);
                q.append(" IN ");
                q.append(text.as_str());
                q
            },
        };
        let mut i: usize = 0;
        while i < self.steps.len()
            invariant
                0 <= i <= self.steps@.len(),
                self.buildable(),
                query@ == self.head_text() + steps_text(self.steps@.take(i as int)),
            decreases self.steps@.len() - i,
        {
            proof {
                assert(self.steps@.take(i as int + 1).drop_last() == self.steps@.take(i as int));
                lemma_steps_buildable_index(self.steps@, i as int);
            }
            self.steps[i].build_query(&mut query);
            i = i + 1;
        }
        proof {
            assert(self.steps@.take(i as int) == self.steps@);
        }
        query
    }
}

// LAWS -----------------------------------------------------------------------

/// Every query has its own head, variables and settings.
pub proof fn lemma_same_setup_reflexive<'a>(b: AqlBuilder<'a>)
    ensures
        b.same_setup(&b),
{
}

/// Queries set up alike have the same head.
pub proof fn lemma_same_setup_same_head<'a>(a: AqlBuilder<'a>, b: AqlBuilder<'a>)
    requires
        a.same_setup(&b),
    ensures
        a.head_text() == b.head_text(),
        a.is_list() == b.is_list(),
        a.variables() == b.variables(),
{
}

/// The text of the first `k` steps starts the text of all the steps.
pub proof fn lemma_steps_text_prefix<'a>(steps: Seq<AqlKind<'a>>, k: int)
    requires
        0 <= k <= steps.len(),
    ensures
        steps_text(steps.take(k)).len() <= steps_text(steps).len(),
        steps_text(steps).subrange(0, steps_text(steps.take(k)).len() as int) == steps_text(steps.take(k)),
    decreases steps.len(),
{
    if k == steps.len() {
        assert(steps.take(k) =~= steps);
    } else {
        lemma_steps_text_prefix(steps.drop_last(), k);
        assert(steps.drop_last().take(k) =~= steps.take(k));
        let p = steps_text(steps.take(k));
        let d = steps_text(steps.drop_last());
        assert(steps_text(steps) == d + steps.last().query_text());
        assert((d + steps.last().query_text()).subrange(0, p.len() as int) =~= d.subrange(0, p.len() as int));
    }
}

/// A query whose steps extend those of a query set up alike extends its
/// text.
pub proof fn lemma_query_text_prefix<'a>(a: AqlBuilder<'a>, b: AqlBuilder<'a>)
    requires
        a.same_setup(&b),
        a.steps().len() <= b.steps().len(),
        b.steps().subrange(0, a.steps().len() as int) == a.steps(),
    ensures
        a.query_text().len() <= b.query_text().len(),
        b.query_text().subrange(0, a.query_text().len() as int) == a.query_text(),
{
    lemma_steps_text_prefix(b.steps(), a.steps().len() as int);
    assert(b.steps().take(a.steps().len() as int) =~= a.steps());
    let h = b.head_text();
    let p = steps_text(a.steps());
    let t = steps_text(b.steps());
    assert((h + t).subrange(0, (h + p).len() as int) =~= h + p);
}

/// Two queries set up as a third are set up alike.
pub proof fn lemma_same_setup_transitive<'a>(a: AqlBuilder<'a>, b: AqlBuilder<'a>, c: AqlBuilder<'a>)
    requires
        a.same_setup(&b),
        b.same_setup(&c),
    ensures
        a.same_setup(&c),
{
}

/// Adding a step to a query appends the text of that step to the text of the query.
pub proof fn lemma_step_appends_text<'a>(before: AqlBuilder<'a>, after: AqlBuilder<'a>, step: AqlKind<'a>)
    requires
        before.with_step(&after, step),
    ensures
        after.query_text() == before.query_text() + step.query_text(),
        after.variable_count() == before.variable_count(),
        before.buildable() && step.buildable() ==> after.buildable(),
{
    assert(after.steps().drop_last() == before.steps());
    assert(after.head_text() == before.head_text());
}

/// Two variables of one query never share a parameter name.
pub proof fn lemma_variable_ids_distinct(i: nat, j: nat)
    requires
        i != j,
    ensures
        variable_id(i) != variable_id(j),
        variable_bind_name(i) != variable_bind_name(j),
{
    if variable_id(i) == variable_id(j) {
        assert(decimal(i) == variable_id(i).subrange(2, variable_id(i).len() as int));
        assert(decimal(j) == variable_id(j).subrange(2, variable_id(j).len() as int));
        crate::text::lemma_decimal_injective(i, j);
    }
    if variable_bind_name(i) == variable_bind_name(j) {
        assert(decimal(i) == variable_bind_name(i).drop_first());
        assert(decimal(j) == variable_bind_name(j).drop_first());
        crate::text::lemma_decimal_injective(i, j);
    }
}

/// The parameter a query uses for a variable is `@` followed by the name the
/// variable is bound under.
pub proof fn lemma_variable_id_is_bind_name(i: nat)
    ensures
        variable_id(i) == seq!['@'] + variable_bind_name(i),
{
    assert(variable_id(i) =~= seq!['@'] + variable_bind_name(i));
}

/// Two inline variables with different numbers have different names.
pub proof fn lemma_inline_variables_distinct(i: nat, j: nat)
    requires
        i != j,
    ensures
        inline_variable(i) != inline_variable(j),
{
    if inline_variable(i) == inline_variable(j) {
        assert(decimal(i) == inline_variable(i).drop_first());
        assert(decimal(j) == inline_variable(j).drop_first());
        crate::text::lemma_decimal_injective(i, j);
    }
}

} // verus!
