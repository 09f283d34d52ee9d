//! Parsing selector text into the compiled statement.
//!
//! The text grammar is a deliberately small select dialect, written with
//! uppercase keywords and single spaces between tokens:
//!
//! ```text
//! SELECT <fields> FROM <targets> [WHERE <condition>] [LIMIT <count>]
//! ```
//!
//! `<fields>` is `*` or a comma-joined list of identifiers; `<targets>` is a
//! comma-joined list of `table` or `table:key` names; the condition is free
//! tokens kept as raw text; the count is a canonical decimal. Empty text is
//! the empty selector, a valid no-op. Anything else fails with a parse
//! error — exactly when the grammar below says so.

use vstd::prelude::*;
use vstd::string::*;

use crate::error::SurrealError;
use crate::id::{ID, IdView};
use crate::selector::{
    Projection, ProjectionView, SelectAst, SelectAstView, Selector, SelectorView, Target,
    TargetView,
};
use crate::text::{lemma_split_free_of_sep, lemma_vec_dv, join_with, spec_join, spec_split, split_on};

verus! {

pub open spec fn kw_select() -> Seq<char> {
    seq!['S', 'E', 'L', 'E', 'C', 'T']
}

pub open spec fn kw_from() -> Seq<char> {
    seq!['F', 'R', 'O', 'M']
}

pub open spec fn kw_where() -> Seq<char> {
    seq!['W', 'H', 'E', 'R', 'E']
}

pub open spec fn kw_limit() -> Seq<char> {
    seq!['L', 'I', 'M', 'I', 'T']
}

/// Identifier characters: ASCII letters, digits and underscore.
pub open spec fn is_ident_char(c: char) -> bool {
    ('a' as u32 <= c as u32 && c as u32 <= 'z' as u32) || ('A' as u32 <= c as u32 && c as u32
        <= 'Z' as u32) || ('0' as u32 <= c as u32 && c as u32 <= '9' as u32) || c == '_'
}

/// A non-empty run of identifier characters.
pub open spec fn is_ident(t: Seq<char>) -> bool {
    t.len() > 0 && forall|j: int| 0 <= j < t.len() ==> is_ident_char(t[j])
}

/// A canonical decimal count: digits only, no spurious leading zero.
pub open spec fn is_limit_count(t: Seq<char>) -> bool {
    &&& t.len() > 0
    &&& forall|j: int| 0 <= j < t.len() ==> '0' as u32 <= (#[trigger] t[j]) as u32 <= '9' as u32
    &&& (t[0] != '0' || t.len() == 1)
}

/// What the fields token means, if anything.
pub open spec fn spec_parse_projection(t: Seq<char>) -> Option<ProjectionView> {
    if t == seq!['*'] {
        Some(ProjectionView::All)
    } else if forall|i: int|
        0 <= i < spec_split(t, ',').len() ==> is_ident(#[trigger] spec_split(t, ',')[i]) {
        Some(ProjectionView::Fields(spec_split(t, ',')))
    } else {
        None
    }
}

/// What one target name means, if anything.
pub open spec fn spec_parse_target(t: Seq<char>) -> Option<TargetView> {
    let parts = spec_split(t, ':');
    if parts.len() == 1 && is_ident(parts[0]) {
        Some(TargetView::Table(parts[0]))
    } else if parts.len() == 2 && is_ident(parts[0]) && is_ident(parts[1]) {
        Some(TargetView::Record(IdView { table: parts[0], key: parts[1] }))
    } else {
        None
    }
}

/// What the targets token means, if anything.
pub open spec fn spec_parse_targets(t: Seq<char>) -> Option<Seq<TargetView>> {
    let items = spec_split(t, ',');
    if forall|i: int| 0 <= i < items.len() ==> spec_parse_target(#[trigger] items[i]) is Some {
        Some(Seq::new(items.len(), |i: int| spec_parse_target(items[i])->0))
    } else {
        None
    }
}

/// Condition tokens: at least one, none empty, none the `LIMIT` keyword.
pub open spec fn valid_cond_tokens(toks: Seq<Seq<char>>) -> bool {
    &&& toks.len() >= 1
    &&& forall|i: int| 0 <= i < toks.len() ==> (#[trigger] toks[i]).len() > 0
    &&& forall|i: int| 0 <= i < toks.len() ==> #[trigger] toks[i] != kw_limit()
}

/// What the tokens after the targets mean: an optional condition and an
/// optional row limit.
pub open spec fn spec_parse_tail(rest: Seq<Seq<char>>) -> Option<
    (Option<Seq<char>>, Option<Seq<char>>),
> {
    if rest.len() == 0 {
        Some((None, None))
    } else if rest[0] == kw_where() {
        let body = rest.subrange(1, rest.len() as int);
        if body.len() >= 2 && body[body.len() - 2] == kw_limit() {
            let cond_toks = body.subrange(0, body.len() - 2);
            if valid_cond_tokens(cond_toks) && is_limit_count(body.last()) {
                Some((Some(spec_join(cond_toks, ' ')), Some(body.last())))
            } else {
                None
            }
        } else if valid_cond_tokens(body) {
            Some((Some(spec_join(body, ' ')), None))
        } else {
            None
        }
    } else if rest[0] == kw_limit() {
        if rest.len() == 2 && is_limit_count(rest[1]) {
            Some((None, Some(rest[1])))
        } else {
            None
        }
    } else {
        None
    }
}

/// What a whole token list means, if anything.
pub open spec fn spec_parse_tokens(toks: Seq<Seq<char>>) -> Option<SelectAstView> {
    if toks.len() >= 4 && toks[0] == kw_select() && toks[2] == kw_from() {
        let p = spec_parse_projection(toks[1]);
        let w = spec_parse_targets(toks[3]);
        let t = spec_parse_tail(toks.subrange(4, toks.len() as int));
        if p is Some && w is Some && t is Some {
            Some(SelectAstView { projection: p->0, what: w->0, cond: (t->0).0, limit: (t->0).1 })
        } else {
            None
        }
    } else {
        None
    }
}

/// What selector text means: empty text is the empty selector; anything else
/// must tokenize on single spaces into the grammar above.
pub open spec fn spec_from_text(s: Seq<char>) -> Option<SelectorView> {
    if s.len() == 0 {
        Some(SelectorView { base: None })
    } else {
        match spec_parse_tokens(spec_split(s, ' ')) {
            Some(ast) => Some(SelectorView { base: Some(ast) }),
            None => None,
        }
    }
}

/// The text of an optional token pair, for contracts about parse results.
pub open spec fn opt_text(o: Option<String>) -> Option<Seq<char>> {
    match o {
        Some(s) => Some(s@),
        None => None,
    }
}

fn token_is(t: &String, lit: &str) -> (r: bool)
    ensures
        r == (t@ == lit@),
{
    t.eq(&lit.to_owned())
}

fn is_ident_token(t: &String) -> (r: bool)
    ensures
        r == is_ident(t@),
{
    let s = t.as_str();
    let n = s.unicode_len();
    if n == 0 {
        return false;
    }
    let mut i: usize = 0;
    while i < n
        invariant
            n == s@.len(),
            s@ == t@,
            0 <= i <= n,
            forall|j: int| 0 <= j < i ==> is_ident_char(s@[j]),
        decreases n - i,
    {
        let c = s.get_char(i);
        let u = c as u32;
        let lower = 'a' as u32 <= u && u <= 'z' as u32;
        let upper = 'A' as u32 <= u && u <= 'Z' as u32;
        let digit = '0' as u32 <= u && u <= '9' as u32;
        if !(lower || upper || digit || c == '_') {
            proof {
                assert(!is_ident_char(s@[i as int]));
                assert(!is_ident(t@)) by {
                    if is_ident(t@) {
                        assert(is_ident_char(t@[i as int]));
                    }
                }
            }
            return false;
        }
        i = i + 1;
    }
    true
}

fn is_limit_token(t: &String) -> (r: bool)
    ensures
        r == is_limit_count(t@),
{
    let s = t.as_str();
    let n = s.unicode_len();
    if n == 0 {
        return false;
    }
    if s.get_char(0) == '0' && n != 1 {
        return false;
    }
    let mut i: usize = 0;
    while i < n
        invariant
            n == s@.len(),
            s@ == t@,
            0 <= i <= n,
            forall|j: int| 0 <= j < i ==> '0' as u32 <= (#[trigger] s@[j]) as u32 <= '9' as u32,
        decreases n - i,
    {
        let c = s.get_char(i);
        let u = c as u32;
        if !('0' as u32 <= u && u <= '9' as u32) {
            proof {
                assert(s@[i as int] == c && !('0' as u32 <= c as u32 <= '9' as u32));
                assert(!is_limit_count(t@)) by {
                    if is_limit_count(t@) {
                        assert('0' as u32 <= t@[i as int] as u32 <= '9' as u32);
                    }
                }
            }
            return false;
        }
        i = i + 1;
    }
    true
}

fn parse_projection(t: &String) -> (r: Option<Projection>)
    ensures
        r is Some <==> spec_parse_projection(t@) is Some,
        r is Some ==> r->0@ == spec_parse_projection(t@)->0,
{
    proof {
        reveal_strlit("*");
        assert("*"@ =~= seq!['*']);
    }
    if token_is(t, "*") {
        return Some(Projection::All);
    }
    let fields = split_on(t.as_str(), ',');
    let n = fields.len();
    let mut i: usize = 0;
    proof {
        lemma_vec_dv(fields);
    }
    while i < n
        invariant
            n == fields.len(),
            0 <= i <= n,
            t@ != seq!['*'],
            fields.deep_view() == spec_split(t@, ','),
            forall|j: int| 0 <= j < i ==> is_ident(#[trigger] spec_split(t@, ',')[j]),
        decreases n - i,
    {
        proof {
            lemma_vec_dv(fields);
        }
        if !is_ident_token(&fields[i]) {
            proof {
                assert(fields.deep_view()[i as int] == fields@[i as int]@);
                assert(!is_ident(spec_split(t@, ',')[i as int]));
                assert(spec_parse_projection(t@) is None) by {
                    if (forall|k: int|
                        0 <= k < spec_split(t@, ',').len() ==> is_ident(
                            #[trigger] spec_split(t@, ',')[k],
                        )) {
                        assert(is_ident(spec_split(t@, ',')[i as int]));
                    }
                }
            }
            return None;
        }
        i = i + 1;
    }
    Some(Projection::Fields(fields))
}

fn parse_target(t: &String) -> (r: Option<Target>)
    ensures
        r is Some <==> spec_parse_target(t@) is Some,
        r is Some ==> r->0@ == spec_parse_target(t@)->0,
{
    let mut parts = split_on(t.as_str(), ':');
    proof {
        lemma_vec_dv(parts);
        lemma_split_free_of_sep(t@, ':');
    }
    if parts.len() == 1 {
        let part = parts.pop().unwrap();
        if is_ident_token(&part) {
            Some(Target::Table(part))
        } else {
            None
        }
    } else if parts.len() == 2 {
        let key = parts.pop().unwrap();
        let table = parts.pop().unwrap();
        if is_ident_token(&table) && is_ident_token(&key) {
            match ID::new(table, key) {
                Ok(id) => Some(Target::Record(id)),
                Err(_) => {
                    proof {
                        assert(false);
                    }
                    None
                },
            }
        } else {
            None
        }
    } else {
        None
    }
}

fn parse_targets(t: &String) -> (r: Option<Vec<Target>>)
    ensures
        r is Some <==> spec_parse_targets(t@) is Some,
        r is Some ==> r->0.deep_view() == spec_parse_targets(t@)->0,
{
    let items = split_on(t.as_str(), ',');
    let n = items.len();
    let mut out: Vec<Target> = Vec::new();
    let mut i: usize = 0;
    proof {
        lemma_vec_dv(items);
    }
    while i < n
        invariant
            n == items.len(),
            0 <= i <= n,
            out.len() == i,
            items.deep_view() == spec_split(t@, ','),
            forall|j: int|
                0 <= j < i ==> spec_parse_target(#[trigger] spec_split(t@, ',')[j]) is Some,
            forall|j: int|
                0 <= j < i ==> #[trigger] out@[j]@ == spec_parse_target(
                    spec_split(t@, ',')[j],
                )->0,
        decreases n - i,
    {
        proof {
            lemma_vec_dv(items);
        }
        match parse_target(&items[i]) {
            Some(tg) => {
                out.push(tg);
            },
            None => {
                proof {
                    assert(items.deep_view()[i as int] == items@[i as int]@);
                    assert(spec_parse_target(spec_split(t@, ',')[i as int]) is None);
                }
                return None;
            },
        }
        i = i + 1;
    }
    proof {
        lemma_vec_dv(out);
        assert(out.deep_view() =~= spec_parse_targets(t@)->0);
    }
    Some(out)
}

fn copy_range(v: &Vec<String>, from: usize, to: usize) -> (r: Vec<String>)
    requires
        from <= to <= v.len(),
    ensures
        r.deep_view() == v.deep_view().subrange(from as int, to as int),
{
    let mut r: Vec<String> = Vec::new();
    let mut i: usize = from;
    while i < to
        invariant
            from <= i <= to <= v.len(),
            r.deep_view() =~= v.deep_view().subrange(from as int, i as int),
        decreases to - i,
    {
        let ghost pre = r;
        r.push(v[i].clone());
        proof {
            lemma_vec_dv(pre);
            lemma_vec_dv(r);
            lemma_vec_dv(*v);
            assert(r.deep_view() =~= v.deep_view().subrange(from as int, i + 1));
        }
        i = i + 1;
    }
    r
}

fn check_cond_tokens(toks: &Vec<String>) -> (r: bool)
    ensures
        r == valid_cond_tokens(toks.deep_view()),
{
    proof {
        lemma_vec_dv(*toks);
        reveal_strlit("LIMIT");
        assert("LIMIT"@ =~= kw_limit());
    }
    if toks.len() == 0 {
        return false;
    }
    let n = toks.len();
    let mut i: usize = 0;
    while i < n
        invariant
            n == toks.len(),
            0 <= i <= n,
            forall|j: int| 0 <= j < i ==> (#[trigger] toks.deep_view()[j]).len() > 0,
            forall|j: int| 0 <= j < i ==> #[trigger] toks.deep_view()[j] != kw_limit(),
        decreases n - i,
    {
        proof {
            lemma_vec_dv(*toks);
            reveal_strlit("LIMIT");
            assert("LIMIT"@ =~= kw_limit());
        }
        if toks[i].as_str().is_empty() || token_is(&toks[i], "LIMIT") {
            proof {
                assert(toks.deep_view()[i as int] == toks@[i as int]@);
            }
            return false;
        }
        i = i + 1;
    }
    true
}

fn parse_tail(rest: &Vec<String>) -> (r: Option<(Option<String>, Option<String>)>)
    ensures
        r is Some <==> spec_parse_tail(rest.deep_view()) is Some,
        r is Some ==> opt_text((r->0).0) == (spec_parse_tail(rest.deep_view())->0).0,
        r is Some ==> opt_text((r->0).1) == (spec_parse_tail(rest.deep_view())->0).1,
{
    proof {
        lemma_vec_dv(*rest);
        reveal_strlit("WHERE");
        reveal_strlit("LIMIT");
        assert("WHERE"@ =~= kw_where());
        assert("LIMIT"@ =~= kw_limit());
    }
    if rest.len() == 0 {
        return Some((None, None));
    }
    if token_is(&rest[0], "WHERE") {
        let body = copy_range(rest, 1, rest.len());
        proof {
            lemma_vec_dv(body);
        }
        let blen = body.len();
        if blen >= 2 && token_is(&body[blen - 2], "LIMIT") {
            let cond_toks = copy_range(&body, 0, blen - 2);
            if check_cond_tokens(&cond_toks) && is_limit_token(&body[blen - 1]) {
                proof {
                    reveal_strlit(" ");
                    assert(" "@ =~= seq![' ']);
                    assert(body.deep_view().last() == body.deep_view()[blen - 1]);
                }
                let cond = join_with(&cond_toks, ' ', " ");
                Some((Some(cond), Some(body[blen - 1].clone())))
            } else {
                None
            }
        } else if check_cond_tokens(&body) {
            proof {
                reveal_strlit(" ");
                assert(" "@ =~= seq![' ']);
            }
            let cond = join_with(&body, ' ', " ");
            Some((Some(cond), None))
        } else {
            None
        }
    } else if token_is(&rest[0], "LIMIT") {
        if rest.len() == 2 && is_limit_token(&rest[1]) {
            Some((None, Some(rest[1].clone())))
        } else {
            None
        }
    } else {
        None
    }
}

impl Selector {
    /// Parse selector text. Empty text is the valid empty selector; any
    /// other text must fit the select grammar, else the call fails with a
    /// parse error.
    pub fn from_text(s: &str) -> (r: Result<Selector, SurrealError>)
        ensures
            r is Ok <==> spec_from_text(s@) is Some,
            r is Ok ==> r->Ok_0@ == spec_from_text(s@)->0,
            r is Err ==> r->Err_0 is Parse,
    {
        if s.is_empty() {
            return Ok(Selector::empty());
        }
        let toks = split_on(s, ' ');
        proof {
            lemma_vec_dv(toks);
            reveal_strlit("SELECT");
            reveal_strlit("FROM");
            assert("SELECT"@ =~= kw_select());
            assert("FROM"@ =~= kw_from());
        }
        if toks.len() >= 4 && token_is(&toks[0], "SELECT") && token_is(&toks[2], "FROM") {
            let projection = parse_projection(&toks[1]);
            let what = parse_targets(&toks[3]);
            let rest = copy_range(&toks, 4, toks.len());
            let tail = parse_tail(&rest);
            match (projection, what, tail) {
                (Some(projection), Some(what), Some((cond, limit))) => {
                    let ast = SelectAst { projection, what, cond, limit };
                    let r = Selector { base: Some(ast) };
                    proof {
                        let spec_ast = spec_parse_tokens(toks.deep_view())->0;
                        assert(ast@ =~= spec_ast);
                        assert(r@ =~= spec_from_text(s@)->0);
                    }
                    Ok(r)
                },
                _ => Err(
                    SurrealError::Parse(
                        String::from_str("selector text does not fit the select grammar"),
                    ),
                ),
            }
        } else {
            Err(
                SurrealError::Parse(
                    String::from_str("selector text does not fit the select grammar"),
                ),
            )
        }
    }
}

} // verus!
