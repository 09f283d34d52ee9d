//! Selectors: immutable, comparable representations of a read query.
//!
//! A selector holds at most one compiled select statement; the empty selector
//! compiles to the empty statement list, a deliberate no-op rather than an
//! error. Selectors compare structurally over the compiled statement, so two
//! different texts that compile alike are one cache key, and nothing is
//! normalized beyond compilation. Bind parameters are an ordered list of
//! name/value pairs and take part in cache-key identity.

use vstd::prelude::*;
use vstd::string::*;

use crate::id::{ID, IdView};
use crate::text::lemma_vec_dv;

pub mod parse;
pub mod print;

verus! {

/// One query target: a whole table, or a single record.
pub enum TargetView {
    Table(Seq<char>),
    Record(IdView),
}

/// The selected columns: everything, or named fields.
pub enum ProjectionView {
    All,
    Fields(Seq<Seq<char>>),
}

/// The mathematical content of one select statement.
#[verifier::ext_equal]
pub struct SelectAstView {
    pub projection: ProjectionView,
    pub what: Seq<TargetView>,
    pub cond: Option<Seq<char>>,
    pub limit: Option<Seq<char>>,
}

/// The mathematical content of a selector: at most one statement.
#[verifier::ext_equal]
pub struct SelectorView {
    pub base: Option<SelectAstView>,
}

impl SelectorView {
    /// The compiled wire query: the list of statements this selector sends.
    pub open spec fn wire(self) -> Seq<SelectAstView> {
        match self.base {
            None => Seq::empty(),
            Some(ast) => seq![ast],
        }
    }
}

/// Selectors that compile to the same wire query are the same selector.
pub proof fn lemma_wire_injective(a: SelectorView, b: SelectorView)
    requires
        a.wire() == b.wire(),
    ensures
        a == b,
{
    match (a.base, b.base) {
        (Some(x), Some(y)) => {
            assert(a.wire()[0] == b.wire()[0]);
            assert(a =~= b);
        },
        (None, None) => {
            assert(a =~= b);
        },
        (Some(x), None) => {
            assert(a.wire().len() == 1 && b.wire().len() == 0);
        },
        (None, Some(y)) => {
            assert(a.wire().len() == 0 && b.wire().len() == 1);
        },
    }
}

/// One query target.
#[derive(Debug)]
pub enum Target {
    Table(String),
    Record(ID),
}

impl View for Target {
    type V = TargetView;

    open spec fn view(&self) -> TargetView {
        match self {
            Target::Table(t) => TargetView::Table(t@),
            Target::Record(i) => TargetView::Record(i@),
        }
    }
}

impl DeepView for Target {
    type V = TargetView;

    open spec fn deep_view(&self) -> TargetView {
        self.view()
    }
}

/// The selected columns.
#[derive(Debug)]
pub enum Projection {
    All,
    Fields(Vec<String>),
}

impl View for Projection {
    type V = ProjectionView;

    open spec fn view(&self) -> ProjectionView {
        match self {
            Projection::All => ProjectionView::All,
            Projection::Fields(f) => ProjectionView::Fields(f.deep_view()),
        }
    }
}

/// One select statement: columns, targets, an optional raw filter condition,
/// and an optional row limit held as its decimal text.
#[derive(Debug)]
pub struct SelectAst {
    pub projection: Projection,
    pub what: Vec<Target>,
    pub cond: Option<String>,
    pub limit: Option<String>,
}

impl View for SelectAst {
    type V = SelectAstView;

    open spec fn view(&self) -> SelectAstView {
        SelectAstView {
            projection: self.projection@,
            what: self.what.deep_view(),
            cond: match self.cond {
                Some(c) => Some(c@),
                None => None,
            },
            limit: match self.limit {
                Some(l) => Some(l@),
                None => None,
            },
        }
    }
}

/// An immutable compiled read query; the unit of cache-key identity.
#[derive(Debug)]
pub struct Selector {
    pub base: Option<SelectAst>,
}

impl View for Selector {
    type V = SelectorView;

    open spec fn view(&self) -> SelectorView {
        SelectorView {
            base: match self.base {
                Some(ast) => Some(ast@),
                None => None,
            },
        }
    }
}

/// Ordered bind parameters, bound positionally at execution time.
#[derive(Debug)]
pub struct Parameters {
    pub params: Vec<(String, String)>,
}

impl View for Parameters {
    type V = Seq<(Seq<char>, Seq<char>)>;

    open spec fn view(&self) -> Seq<(Seq<char>, Seq<char>)> {
        self.params.deep_view()
    }
}

/// Whether two strings hold the same text.
pub fn text_eq(a: &String, b: &String) -> (r: bool)
    ensures
        r == (a@ == b@),
{
    a.eq(b)
}

fn text_vec_eq(a: &Vec<String>, b: &Vec<String>) -> (r: bool)
    ensures
        r == (a.deep_view() == b.deep_view()),
{
    proof {
        lemma_vec_dv(*a);
        lemma_vec_dv(*b);
    }
    if a.len() != b.len() {
        return false;
    }
    let n = a.len();
    let mut i: usize = 0;
    while i < n
        invariant
            n == a.len() == b.len(),
            0 <= i <= n,
            forall|j: int| 0 <= j < i ==> a.deep_view()[j] == b.deep_view()[j],
        decreases n - i,
    {
        proof {
            lemma_vec_dv(*a);
            lemma_vec_dv(*b);
        }
        if !text_eq(&a[i], &b[i]) {
            proof {
                assert(a.deep_view()[i as int] == a@[i as int]@);
                assert(b.deep_view()[i as int] == b@[i as int]@);
            }
            return false;
        }
        i = i + 1;
    }
    proof {
        assert(a.deep_view() =~= b.deep_view());
    }
    true
}

fn target_eq(a: &Target, b: &Target) -> (r: bool)
    ensures
        r == (a@ == b@),
{
    match (a, b) {
        (Target::Table(x), Target::Table(y)) => text_eq(x, y),
        (Target::Record(x), Target::Record(y)) => x.same_as(y),
        _ => false,
    }
}

fn target_vec_eq(a: &Vec<Target>, b: &Vec<Target>) -> (r: bool)
    ensures
        r == (a.deep_view() == b.deep_view()),
{
    proof {
        lemma_vec_dv(*a);
        lemma_vec_dv(*b);
    }
    if a.len() != b.len() {
        return false;
    }
    let n = a.len();
    let mut i: usize = 0;
    while i < n
        invariant
            n == a.len() == b.len(),
            0 <= i <= n,
            forall|j: int| 0 <= j < i ==> a.deep_view()[j] == b.deep_view()[j],
        decreases n - i,
    {
        proof {
            lemma_vec_dv(*a);
            lemma_vec_dv(*b);
        }
        if !target_eq(&a[i], &b[i]) {
            proof {
                assert(a.deep_view()[i as int] == a@[i as int]@);
                assert(b.deep_view()[i as int] == b@[i as int]@);
            }
            return false;
        }
        i = i + 1;
    }
    proof {
        assert(a.deep_view() =~= b.deep_view());
    }
    true
}

fn projection_eq(a: &Projection, b: &Projection) -> (r: bool)
    ensures
        r == (a@ == b@),
{
    match (a, b) {
        (Projection::All, Projection::All) => true,
        (Projection::Fields(x), Projection::Fields(y)) => text_vec_eq(x, y),
        _ => false,
    }
}

fn opt_text_eq(a: &Option<String>, b: &Option<String>) -> (r: bool)
    ensures
        r == ((match a {
            Some(x) => Some(x@),
            None => None,
        }) == (match b {
            Some(y) => Some(y@),
            None => None,
        })),
{
    match (a, b) {
        (Some(x), Some(y)) => text_eq(x, y),
        (None, None) => true,
        _ => false,
    }
}

fn ast_eq(a: &SelectAst, b: &SelectAst) -> (r: bool)
    ensures
        r == (a@ == b@),
{
    let r = projection_eq(&a.projection, &b.projection) && target_vec_eq(&a.what, &b.what)
        && opt_text_eq(&a.cond, &b.cond) && opt_text_eq(&a.limit, &b.limit);
    proof {
        if r {
            assert(a@ =~= b@);
        }
    }
    r
}

/// Whether two selectors compile to the same wire query: structural equality
/// over the compiled statement.
pub fn selector_eq(a: &Selector, b: &Selector) -> (r: bool)
    ensures
        r == (a@ == b@),
{
    let r = match (&a.base, &b.base) {
        (Some(x), Some(y)) => ast_eq(x, y),
        (None, None) => true,
        _ => false,
    };
    proof {
        if r {
            assert(a@ =~= b@);
        }
    }
    r
}

/// Whether two parameter lists hold the same pairs in the same order.
pub fn parameters_eq(a: &Parameters, b: &Parameters) -> (r: bool)
    ensures
        r == (a@ == b@),
{
    proof {
        lemma_vec_dv(a.params);
        lemma_vec_dv(b.params);
    }
    if a.params.len() != b.params.len() {
        return false;
    }
    let n = a.params.len();
    let mut i: usize = 0;
    while i < n
        invariant
            n == a.params.len() == b.params.len(),
            0 <= i <= n,
            forall|j: int| 0 <= j < i ==> a@[j] == b@[j],
        decreases n - i,
    {
        proof {
            lemma_vec_dv(a.params);
            lemma_vec_dv(b.params);
            assert(a@[i as int] == (a.params@[i as int].0@, a.params@[i as int].1@));
            assert(b@[i as int] == (b.params@[i as int].0@, b.params@[i as int].1@));
        }
        if !text_eq(&a.params[i].0, &b.params[i].0) || !text_eq(&a.params[i].1, &b.params[i].1) {
            return false;
        }
        i = i + 1;
    }
    proof {
        assert(a@ =~= b@);
    }
    true
}

impl Target {
    /// An identical copy.
    pub fn duplicate(&self) -> (r: Target)
        ensures
            r@ == self@,
    {
        match self {
            Target::Table(t) => Target::Table(t.clone()),
            Target::Record(i) => Target::Record(i.duplicate()),
        }
    }
}

impl Projection {
    /// An identical copy.
    pub fn duplicate(&self) -> (r: Projection)
        ensures
            r@ == self@,
    {
        match self {
            Projection::All => Projection::All,
            Projection::Fields(f) => {
                let mut out: Vec<String> = Vec::new();
                let n = f.len();
                let mut i: usize = 0;
                while i < n
                    invariant
                        n == f.len(),
                        0 <= i <= n,
                        out.deep_view() =~= f.deep_view().subrange(0, i as int),
                    decreases n - i,
                {
                    let ghost pre = out;
                    out.push(f[i].clone());
                    proof {
                        lemma_vec_dv(pre);
                        lemma_vec_dv(out);
                        lemma_vec_dv(*f);
                        assert(out.deep_view() =~= f.deep_view().subrange(0, i + 1));
                    }
                    i = i + 1;
                }
                proof {
                    assert(f.deep_view().subrange(0, n as int) =~= f.deep_view());
                }
                Projection::Fields(out)
            },
        }
    }
}

fn duplicate_opt_text(o: &Option<String>) -> (r: Option<String>)
    ensures
        (match o {
            Some(x) => Some(x@),
            None => None::<Seq<char>>,
        }) == (match r {
            Some(y) => Some(y@),
            None => None::<Seq<char>>,
        }),
{
    match o {
        Some(x) => Some(x.clone()),
        None => None,
    }
}

impl SelectAst {
    /// An identical copy.
    pub fn duplicate(&self) -> (r: SelectAst)
        ensures
            r@ == self@,
    {
        let mut what: Vec<Target> = Vec::new();
        let n = self.what.len();
        let mut i: usize = 0;
        while i < n
            invariant
                n == self.what.len(),
                0 <= i <= n,
                what.deep_view() =~= self.what.deep_view().subrange(0, i as int),
            decreases n - i,
        {
            let dup = self.what[i].duplicate();
            let ghost pre = what;
            what.push(dup);
            proof {
                lemma_vec_dv(pre);
                lemma_vec_dv(what);
                lemma_vec_dv(self.what);
                assert(what.deep_view() =~= self.what.deep_view().subrange(0, i + 1));
            }
            i = i + 1;
        }
        proof {
            assert(self.what.deep_view().subrange(0, n as int) =~= self.what.deep_view());
        }
        let r = SelectAst {
            projection: self.projection.duplicate(),
            what,
            cond: duplicate_opt_text(&self.cond),
            limit: duplicate_opt_text(&self.limit),
        };
        proof {
            assert(r@ =~= self@);
        }
        r
    }
}

impl Selector {
    /// The selector that compiles to the empty statement list.
    pub fn empty() -> (r: Selector)
        ensures
            r@ == (SelectorView { base: None }),
    {
        Selector { base: None }
    }

    /// A selector scoped to exactly one record: select everything from it.
    pub fn from_record_id(id: ID) -> (r: Selector)
        ensures
            r@ == (SelectorView {
                base: Some(
                    SelectAstView {
                        projection: ProjectionView::All,
                        what: seq![TargetView::Record(id@)],
                        cond: None,
                        limit: None,
                    },
                ),
            }),
    {
        let mut what: Vec<Target> = Vec::new();
        what.push(Target::Record(id));
        let r = Selector {
            base: Some(SelectAst { projection: Projection::All, what, cond: None, limit: None }),
        };
        proof {
            assert(what.deep_view() =~= seq![TargetView::Record(id@)]);
            assert(r@ =~= (SelectorView {
                base: Some(
                    SelectAstView {
                        projection: ProjectionView::All,
                        what: seq![TargetView::Record(id@)],
                        cond: None,
                        limit: None,
                    },
                ),
            }));
        }
        r
    }

    /// The statement of a non-empty selector.
    pub fn statement(&self) -> (r: Option<&SelectAst>)
        ensures
            r is Some <==> self@.base is Some,
            r is Some ==> r->0@ == self@.base->0,
    {
        match &self.base {
            Some(ast) => Some(ast),
            None => None,
        }
    }

    /// An identical copy.
    pub fn duplicate(&self) -> (r: Selector)
        ensures
            r@ == self@,
    {
        let r = match &self.base {
            Some(ast) => Selector { base: Some(ast.duplicate()) },
            None => Selector { base: None },
        };
        proof {
            assert(r@ =~= self@);
        }
        r
    }

    /// The same statement re-aimed at exactly one record: the target list
    /// becomes that record, everything else is kept. The empty selector has
    /// no statement to re-aim.
    pub fn scoped_to(&self, id: &ID) -> (r: Option<Selector>)
        ensures
            r is Some <==> self@.base is Some,
            r is Some ==> r->0@ == (SelectorView {
                base: Some(
                    SelectAstView {
                        projection: self@.base->0.projection,
                        what: seq![TargetView::Record(id@)],
                        cond: self@.base->0.cond,
                        limit: self@.base->0.limit,
                    },
                ),
            }),
    {
        match &self.base {
            Some(ast) => {
                let mut what: Vec<Target> = Vec::new();
                what.push(Target::Record(id.duplicate()));
                let out = Selector {
                    base: Some(
                        SelectAst {
                            projection: ast.projection.duplicate(),
                            what,
                            cond: duplicate_opt_text(&ast.cond),
                            limit: duplicate_opt_text(&ast.limit),
                        },
                    ),
                };
                proof {
                    assert(what.deep_view() =~= seq![TargetView::Record(id@)]);
                    assert(out@ =~= (SelectorView {
                        base: Some(
                            SelectAstView {
                                projection: self@.base->0.projection,
                                what: seq![TargetView::Record(id@)],
                                cond: self@.base->0.cond,
                                limit: self@.base->0.limit,
                            },
                        ),
                    }));
                }
                Some(out)
            },
            None => None,
        }
    }

    /// The same statement limited to one row, for single-record consumers.
    /// The empty selector has no statement to limit.
    pub fn limited_to_one(&self) -> (r: Option<Selector>)
        ensures
            r is Some <==> self@.base is Some,
            r is Some ==> r->0@ == (SelectorView {
                base: Some(
                    SelectAstView {
                        projection: self@.base->0.projection,
                        what: self@.base->0.what,
                        cond: self@.base->0.cond,
                        limit: Some(seq!['1']),
                    },
                ),
            }),
    {
        match &self.base {
            Some(ast) => {
                let one = String::from_str("1");
                proof {
                    reveal_strlit("1");
                    assert(one@ =~= seq!['1']);
                }
                let copy = ast.duplicate();
                let out = Selector {
                    base: Some(
                        SelectAst {
                            projection: copy.projection,
                            what: copy.what,
                            cond: copy.cond,
                            limit: Some(one),
                        },
                    ),
                };
                proof {
                    assert(out@ =~= (SelectorView {
                        base: Some(
                            SelectAstView {
                                projection: self@.base->0.projection,
                                what: self@.base->0.what,
                                cond: self@.base->0.cond,
                                limit: Some(seq!['1']),
                            },
                        ),
                    }));
                }
                Some(out)
            },
            None => None,
        }
    }
}

impl Parameters {
    /// No parameters.
    pub fn empty() -> (r: Parameters)
        ensures
            r@ == Seq::<(Seq<char>, Seq<char>)>::empty(),
    {
        let params: Vec<(String, String)> = Vec::new();
        let r = Parameters { params };
        proof {
            assert(r@ =~= Seq::<(Seq<char>, Seq<char>)>::empty());
        }
        r
    }

    /// One bound pair.
    pub fn single(name: String, value: String) -> (r: Parameters)
        ensures
            r@ == seq![(name@, value@)],
    {
        let mut params: Vec<(String, String)> = Vec::new();
        params.push((name, value));
        let r = Parameters { params };
        proof {
            assert(r@ =~= seq![(r.params[0].0@, r.params[0].1@)]);
        }
        r
    }

    /// Bind one more pair after the existing ones.
    pub fn push_param(&mut self, name: String, value: String)
        ensures
            final(self)@ == old(self)@.push((name@, value@)),
    {
        let ghost before = self@;
        self.params.push((name, value));
        proof {
            assert(self@ =~= before.push((self.params@.last().0@, self.params@.last().1@)));
        }
    }

    /// An identical copy.
    pub fn duplicate(&self) -> (r: Parameters)
        ensures
            r@ == self@,
    {
        let mut params: Vec<(String, String)> = Vec::new();
        let n = self.params.len();
        let mut i: usize = 0;
        while i < n
            invariant
                n == self.params.len(),
                0 <= i <= n,
                params.deep_view() =~= self.params.deep_view().subrange(0, i as int),
            decreases n - i,
        {
            let ghost pre = params;
            params.push((self.params[i].0.clone(), self.params[i].1.clone()));
            proof {
                lemma_vec_dv(pre);
                lemma_vec_dv(params);
                lemma_vec_dv(self.params);
                assert(params.deep_view() =~= self.params.deep_view().subrange(0, i + 1));
            }
            i = i + 1;
        }
        proof {
            assert(self.params.deep_view().subrange(0, n as int) =~= self.params.deep_view());
        }
        Parameters { params }
    }

    /// How many pairs are bound.
    pub fn len(&self) -> (n: usize)
        ensures
            n == self@.len(),
    {
        self.params.len()
    }
}

} // verus!
