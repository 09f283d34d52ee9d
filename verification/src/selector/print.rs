//! Rendering a selector back to wire text, for the transport to send.

use vstd::prelude::*;
use vstd::string::*;

use crate::selector::parse::{
    kw_from, kw_limit, kw_select, kw_where, spec_from_text, spec_parse_projection,
    spec_parse_tail, spec_parse_target, spec_parse_targets, spec_parse_tokens,
};
use crate::selector::{
    ProjectionView, Projection, SelectAstView, Selector, SelectorView, Target, TargetView,
};
use crate::text::{
    join_with, lemma_join_concat, lemma_join_split, lemma_split_len, lemma_vec_dv, spec_join,
    spec_split,
};

verus! {

/// The text of one target name.
pub open spec fn spec_target_text(t: TargetView) -> Seq<char> {
    match t {
        TargetView::Table(name) => name,
        TargetView::Record(id) => id.compact(),
    }
}

/// The text of the fields clause.
pub open spec fn spec_projection_text(p: ProjectionView) -> Seq<char> {
    match p {
        ProjectionView::All => seq!['*'],
        ProjectionView::Fields(f) => spec_join(f, ','),
    }
}

/// The text of the optional condition and limit clauses.
pub open spec fn spec_tail_text(cond: Option<Seq<char>>, limit: Option<Seq<char>>) -> Seq<char> {
    (match cond {
        Some(c) => seq![' '] + kw_where() + seq![' '] + c,
        None => Seq::<char>::empty(),
    }) + (match limit {
        Some(l) => seq![' '] + kw_limit() + seq![' '] + l,
        None => Seq::<char>::empty(),
    })
}

/// The text of one whole statement.
pub open spec fn spec_ast_text(a: SelectAstView) -> Seq<char> {
    kw_select() + seq![' '] + spec_projection_text(a.projection) + seq![' '] + kw_from() + seq![
        ' ',
    ] + spec_join(a.what.map_values(|t: TargetView| spec_target_text(t)), ',') + spec_tail_text(
        a.cond,
        a.limit,
    )
}

/// The wire text of a selector: its statement's text, or nothing at all for
/// the empty selector's no-op query.
pub open spec fn spec_selector_text(v: SelectorView) -> Seq<char> {
    match v.base {
        None => Seq::<char>::empty(),
        Some(a) => spec_ast_text(a),
    }
}

proof fn lemma_projection_text_of_parse(t: Seq<char>)
    requires
        spec_parse_projection(t) is Some,
    ensures
        spec_projection_text(spec_parse_projection(t)->0) == t,
{
    if t == seq!['*'] {
    } else {
        lemma_join_split(t, ',');
    }
}

proof fn lemma_target_text_of_parse(t: Seq<char>)
    requires
        spec_parse_target(t) is Some,
    ensures
        spec_target_text(spec_parse_target(t)->0) == t,
{
    let parts = spec_split(t, ':');
    lemma_join_split(t, ':');
    if parts.len() == 1 {
        assert(spec_join(parts, ':') == parts[0]);
    } else {
        assert(parts.subrange(1, 2) =~= seq![parts[1]]);
        assert(spec_join(seq![parts[1]], ':') == parts[1]);
        assert(spec_join(parts, ':') == parts[0] + seq![':'] + spec_join(
            parts.subrange(1, 2),
            ':',
        ));
        assert(spec_join(parts, ':') == parts[0] + seq![':'] + parts[1]);
    }
}

proof fn lemma_targets_text_of_parse(t: Seq<char>)
    requires
        spec_parse_targets(t) is Some,
    ensures
        spec_join(
            (spec_parse_targets(t)->0).map_values(|x: TargetView| spec_target_text(x)),
            ',',
        ) == t,
{
    let items = spec_split(t, ',');
    let w = spec_parse_targets(t)->0;
    let texts = w.map_values(|x: TargetView| spec_target_text(x));
    assert forall|i: int| 0 <= i < items.len() implies texts[i] == items[i] by {
        assert(spec_parse_target(items[i]) is Some);
        lemma_target_text_of_parse(items[i]);
    }
    assert(texts =~= items);
    lemma_join_split(t, ',');
}

proof fn lemma_tail_text_of_parse(rest: Seq<Seq<char>>)
    requires
        spec_parse_tail(rest) is Some,
    ensures
        rest.len() == 0 ==> spec_tail_text(
            (spec_parse_tail(rest)->0).0,
            (spec_parse_tail(rest)->0).1,
        ) =~= Seq::<char>::empty(),
        rest.len() >= 1 ==> spec_tail_text(
            (spec_parse_tail(rest)->0).0,
            (spec_parse_tail(rest)->0).1,
        ) =~= seq![' '] + spec_join(rest, ' '),
{
    if rest.len() == 0 {
    } else if rest[0] == kw_where() {
        let body = rest.subrange(1, rest.len() as int);
        assert(rest =~= seq![kw_where()] + body);
        lemma_join_concat(seq![kw_where()], body, ' ');
        if body.len() >= 2 && body[body.len() - 2] == kw_limit() {
            let cond_toks = body.subrange(0, body.len() - 2);
            let lim = body.last();
            assert(body =~= cond_toks + seq![kw_limit(), lim]);
            lemma_join_concat(cond_toks, seq![kw_limit(), lim], ' ');
            let pair = seq![kw_limit(), lim];
            assert(pair.subrange(1, 2) =~= seq![lim]);
            assert(spec_join(seq![lim], ' ') == lim);
            assert(spec_join(pair, ' ') == pair[0] + seq![' '] + spec_join(
                pair.subrange(1, 2),
                ' ',
            ));
            assert(spec_join(pair, ' ') == kw_limit() + seq![' '] + lim);
        } else {
        }
    } else {
        let lim = rest[1];
        assert(rest.subrange(1, 2) =~= seq![lim]);
        assert(spec_join(seq![lim], ' ') == lim);
        assert(spec_join(rest, ' ') == rest[0] + seq![' '] + spec_join(
            rest.subrange(1, 2),
            ' ',
        ));
        assert(spec_join(rest, ' ') == kw_limit() + seq![' '] + lim);
    }
}

/// Parsing loses nothing: compiling a parsed selector back to wire text
/// restores the parsed text exactly, character for character.
pub proof fn lemma_print_restores_text(s: Seq<char>)
    requires
        spec_from_text(s) is Some,
    ensures
        spec_selector_text(spec_from_text(s)->0) == s,
{
    if s.len() == 0 {
    } else {
        let toks = spec_split(s, ' ');
        let ast = spec_parse_tokens(toks)->0;
        lemma_join_split(s, ' ');
        lemma_split_len(s, ' ');
        let head = toks.subrange(0, 4);
        let rest = toks.subrange(4, toks.len() as int);
        assert(toks =~= head + rest);

        // The head joins to the fixed clause skeleton, one separator at a
        // time.
        let h1 = head.subrange(1, 4);
        let h2 = head.subrange(2, 4);
        let h3 = head.subrange(3, 4);
        assert(h3 =~= seq![toks[3]]);
        assert(spec_join(h3, ' ') == toks[3]);
        assert(h2[0] == toks[2] && h2.subrange(1, 2) =~= h3);
        assert(spec_join(h2, ' ') == h2[0] + seq![' '] + spec_join(h2.subrange(1, 2), ' '));
        assert(spec_join(h2, ' ') == toks[2] + seq![' '] + toks[3]);
        assert(h1[0] == toks[1] && h1.subrange(1, 3) =~= h2);
        assert(spec_join(h1, ' ') == h1[0] + seq![' '] + spec_join(h1.subrange(1, 3), ' '));
        assert(spec_join(h1, ' ') == toks[1] + seq![' '] + spec_join(h2, ' '));
        assert(head[0] == toks[0] && head.subrange(1, 4) =~= h1);
        assert(spec_join(head, ' ') == head[0] + seq![' '] + spec_join(head.subrange(1, 4), ' '));
        assert(spec_join(head, ' ') =~= toks[0] + seq![' '] + toks[1] + seq![' '] + toks[2]
            + seq![' '] + toks[3]);

        lemma_projection_text_of_parse(toks[1]);
        lemma_targets_text_of_parse(toks[3]);
        lemma_tail_text_of_parse(rest);
        let proj = spec_projection_text(ast.projection);
        let what = spec_join(ast.what.map_values(|x: TargetView| spec_target_text(x)), ',');
        let tail = spec_tail_text(ast.cond, ast.limit);
        assert(proj == toks[1] && what == toks[3]);

        if rest.len() == 0 {
            assert(spec_join(toks, ' ') == spec_join(head, ' '));
            assert(spec_ast_text(ast) =~= spec_join(head, ' '));
        } else {
            lemma_join_concat(head, rest, ' ');
            assert(tail =~= seq![' '] + spec_join(rest, ' '));
            assert(spec_ast_text(ast) =~= spec_join(head, ' ') + seq![' '] + spec_join(
                rest,
                ' ',
            ));
        }
        assert(spec_selector_text(spec_from_text(s)->0) == spec_ast_text(ast));
        assert(spec_ast_text(ast) =~= s);
    }
}

fn target_text(t: &Target) -> (r: String)
    ensures
        r@ == spec_target_text(t@),
{
    match t {
        Target::Table(name) => name.clone(),
        Target::Record(id) => id.to_compact(),
    }
}

fn projection_text(p: &Projection) -> (r: String)
    ensures
        r@ == spec_projection_text(p@),
{
    match p {
        Projection::All => {
            let r = String::from_str("*");
            proof {
                reveal_strlit("*");
                assert(r@ =~= seq!['*']);
            }
            r
        },
        Projection::Fields(f) => {
            proof {
                reveal_strlit(",");
                assert(","@ =~= seq![',']);
            }
            join_with(f, ',', ",")
        },
    }
}

impl Selector {
    /// Compile the selector to the text the transport sends. The empty
    /// selector compiles to empty text: a query of no statements.
    pub fn to_wire_text(&self) -> (r: String)
        ensures
            r@ == spec_selector_text(self@),
    {
        let ast = match &self.base {
            None => {
                let r = String::new();
                proof {
                    assert(r@ =~= spec_selector_text(self@));
                }
                return r;
            },
            Some(ast) => ast,
        };
        let mut targets: Vec<String> = Vec::new();
        let n = ast.what.len();
        let mut i: usize = 0;
        while i < n
            invariant
                n == ast.what.len(),
                0 <= i <= n,
                targets@.len() == i,
                forall|j: int|
                    0 <= j < i ==> #[trigger] targets@[j]@ == spec_target_text(
                        ast.what.deep_view()[j],
                    ),
            decreases n - i,
        {
            proof {
                lemma_vec_dv(ast.what);
            }
            let text = target_text(&ast.what[i]);
            targets.push(text);
            i = i + 1;
        }
        let ghost target_views = ast.what.deep_view().map_values(
            |t: TargetView| spec_target_text(t),
        );
        proof {
            lemma_vec_dv(targets);
            lemma_vec_dv(ast.what);
            assert(targets.deep_view() =~= target_views);
        }
        proof {
            reveal_strlit(",");
            assert(","@ =~= seq![',']);
        }
        let what_text = join_with(&targets, ',', ",");
        let mut out = String::from_str("SELECT ");
        out.append(projection_text(&ast.projection).as_str());
        out.append(" FROM ");
        out.append(what_text.as_str());
        match &ast.cond {
            Some(c) => {
                out.append(" WHERE ");
                out.append(c.as_str());
            },
            None => {},
        }
        match &ast.limit {
            Some(l) => {
                out.append(" LIMIT ");
                out.append(l.as_str());
            },
            None => {},
        }
        proof {
            reveal_strlit("SELECT ");
            reveal_strlit(" FROM ");
            reveal_strlit(" WHERE ");
            reveal_strlit(" LIMIT ");
            assert("SELECT "@ =~= kw_select() + seq![' ']);
            assert(" FROM "@ =~= seq![' '] + kw_from() + seq![' ']);
            assert(" WHERE "@ =~= seq![' '] + kw_where() + seq![' ']);
            assert(" LIMIT "@ =~= seq![' '] + kw_limit() + seq![' ']);
            assert(out@ =~= spec_ast_text(self@.base->0));
        }
        out
    }
}

} // verus!
