//! The field-directive parser shared by every generator flavor.
//!
//! Inside one annotation's argument list the grammar is closed: either the
//! bare word `skip`, or `rename` `=` a string literal whose value is itself
//! a valid identifier.  Nothing may trail a recognized directive; a comma
//! after one (an attempt to combine two directives in one annotation) is
//! rejected as an invalid attribute rather than as mere trailing tokens.
//! Across the annotations of one namespace the last one wins, and the first
//! malformed one aborts the generation.

use vstd::prelude::*;
use vstd::string::*;

use crate::ast::{attrs_view, str_eq, tokens_view, Attr, AttrV, Token, TokenV};
use crate::faultmsg::Problem;

verus! {

// ---------------------------------------------------------------------------
// Identifiers
// ---------------------------------------------------------------------------

/// Characters that may open an identifier: ASCII letters and the underscore.
pub open spec fn ident_start_spec(c: char) -> bool {
    (97 <= c as u32 && c as u32 <= 122) || (65 <= c as u32 && c as u32 <= 90) || c as u32 == 95
}

/// Characters that may continue an identifier: openers and ASCII digits.
pub open spec fn ident_continue_spec(c: char) -> bool {
    ident_start_spec(c) || (48 <= c as u32 && c as u32 <= 57)
}

/// The identifier grammar a `rename` payload must satisfy before it can
/// become a method name.
pub open spec fn is_ident_spec(s: Seq<char>) -> bool {
    &&& s.len() > 0
    &&& ident_start_spec(s[0])
    &&& forall|i: int| 1 <= i < s.len() ==> ident_continue_spec(#[trigger] s[i])
}

fn ident_start(c: char) -> (r: bool)
    ensures
        r == ident_start_spec(c),
{
    let u = c as u32;
    (97 <= u && u <= 122) || (65 <= u && u <= 90) || u == 95
}

fn ident_continue(c: char) -> (r: bool)
    ensures
        r == ident_continue_spec(c),
{
    let u = c as u32;
    (97 <= u && u <= 122) || (65 <= u && u <= 90) || u == 95 || (48 <= u && u <= 57)
}

/// Decides [`is_ident_spec`] for a string slice.
pub fn is_ident(s: &str) -> (r: bool)
    ensures
        r == is_ident_spec(s@),
{
    let n = s.unicode_len();
    if n == 0 {
        return false;
    }
    if !ident_start(s.get_char(0)) {
        return false;
    }
    let mut i: usize = 1;
    while i < n
        invariant
            1 <= i <= n,
            n == s@.len(),
            ident_start_spec(s@[0]),
            forall|j: int| 1 <= j < i ==> ident_continue_spec(#[trigger] s@[j]),
        decreases n - i,
    {
        if !ident_continue(s.get_char(i)) {
            return false;
        }
        i += 1;
    }
    true
}

// ---------------------------------------------------------------------------
// One directive
// ---------------------------------------------------------------------------

/// A recognized directive: leave the field without a generated method, or
/// use another name for the generated method.
#[derive(Debug, PartialEq, Eq)]
pub enum Action {
    Skip,
    Rename(String),
}

/// Mathematical view of [`Action`].
pub enum ActionV {
    Skip,
    Rename(Seq<char>),
}

impl View for Action {
    type V = ActionV;

    open spec fn view(&self) -> ActionV {
        match self {
            Action::Skip => ActionV::Skip,
            Action::Rename(s) => ActionV::Rename(s@),
        }
    }
}

/// The view of a parse outcome.
pub open spec fn action_res_view(r: Result<Action, Problem>) -> Result<ActionV, Problem> {
    match r {
        Ok(a) => Ok(a@),
        Err(p) => Err(p),
    }
}

/// The view of an optional directive.
pub open spec fn opt_action_view(o: Option<Action>) -> Option<ActionV> {
    match o {
        Some(a) => Some(a@),
        None => None,
    }
}

/// The view of a resolution outcome.
pub open spec fn opt_action_res_view(r: Result<Option<Action>, Problem>) -> Result<
    Option<ActionV>,
    Problem,
> {
    match r {
        Ok(o) => Ok(opt_action_view(o)),
        Err(p) => Err(p),
    }
}

/// Whether a token is exactly the given keyword.
pub open spec fn is_kw(t: TokenV, kw: Seq<char>) -> bool {
    match t {
        TokenV::Ident(s) => s == kw,
        _ => false,
    }
}

fn token_is_kw(t: &Token, kw: &str) -> (r: bool)
    ensures
        r == is_kw(t@, kw@),
{
    match t {
        Token::Ident(s) => str_eq(s.as_str(), kw),
        _ => false,
    }
}

fn token_is_punct(t: &Token, c: char) -> (r: bool)
    ensures
        r == (t@ == TokenV::Punct(c)),
{
    match t {
        Token::Punct(p) => *p == c,
        _ => false,
    }
}

/// What parsing one argument list yields, for every possible list.
pub open spec fn parse_action_spec(ts: Seq<TokenV>) -> Result<ActionV, Problem> {
    if ts.len() == 0 {
        Err(Problem::InvalidAttribute)
    } else if is_kw(ts[0], "skip"@) {
        if ts.len() == 1 {
            Ok(ActionV::Skip)
        } else if ts[1] == TokenV::Punct(',') {
            Err(Problem::InvalidAttribute)
        } else {
            Err(Problem::TokensFollowSkip)
        }
    } else if is_kw(ts[0], "rename"@) {
        if ts.len() < 3 || ts[1] != TokenV::Punct('=') {
            Err(Problem::InvalidAttribute)
        } else {
            match ts[2] {
                TokenV::LitStr(v) => {
                    if !is_ident_spec(v) {
                        Err(Problem::InvalidAttribute)
                    } else if ts.len() == 3 {
                        Ok(ActionV::Rename(v))
                    } else if ts[3] == TokenV::Punct(',') {
                        Err(Problem::InvalidAttribute)
                    } else {
                        Err(Problem::TokensFollowNewName)
                    }
                },
                _ => Err(Problem::InvalidAttribute),
            }
        }
    } else {
        Err(Problem::InvalidAttribute)
    }
}

impl Action {
    /// Parses one annotation's argument list.
    pub fn parse(tokens: &Vec<Token>) -> (r: Result<Action, Problem>)
        ensures
            action_res_view(r) == parse_action_spec(tokens_view(tokens@)),
    {
        let ghost ts = tokens_view(tokens@);
        if tokens.len() == 0 {
            return Err(Problem::InvalidAttribute);
        }
        proof {
            assert(ts[0] == tokens@[0]@);
        }
        if token_is_kw(&tokens[0], "skip") {
            if tokens.len() == 1 {
                Ok(Action::Skip)
            } else {
                proof {
                    assert(ts[1] == tokens@[1]@);
                }
                if token_is_punct(&tokens[1], ',') {
                    Err(Problem::InvalidAttribute)
                } else {
                    Err(Problem::TokensFollowSkip)
                }
            }
        } else if token_is_kw(&tokens[0], "rename") {
            if tokens.len() < 3 {
                return Err(Problem::InvalidAttribute);
            }
            proof {
                assert(ts[1] == tokens@[1]@);
                assert(ts[2] == tokens@[2]@);
            }
            if !token_is_punct(&tokens[1], '=') {
                return Err(Problem::InvalidAttribute);
            }
            match &tokens[2] {
                Token::LitStr(v) => {
                    if !is_ident(v.as_str()) {
                        return Err(Problem::InvalidAttribute);
                    }
                    if tokens.len() == 3 {
                        Ok(Action::Rename(v.clone()))
                    } else {
                        proof {
                            assert(ts[3] == tokens@[3]@);
                        }
                        if token_is_punct(&tokens[3], ',') {
                            Err(Problem::InvalidAttribute)
                        } else {
                            Err(Problem::TokensFollowNewName)
                        }
                    }
                },
                _ => Err(Problem::InvalidAttribute),
            }
        } else {
            Err(Problem::InvalidAttribute)
        }
    }
}

// ---------------------------------------------------------------------------
// Resolution across an annotation list
// ---------------------------------------------------------------------------

/// Folds the annotations of one namespace over an already-resolved directive:
/// outer annotations whose path is the namespace are parsed in order, the
/// last parsed directive wins, and the first malformed one aborts.
pub open spec fn fold_action_spec(
    init: Result<Option<ActionV>, Problem>,
    attrs: Seq<AttrV>,
    ns: Seq<char>,
) -> Result<Option<ActionV>, Problem>
    decreases attrs.len(),
{
    if attrs.len() == 0 {
        init
    } else {
        let rest = fold_action_spec(init, attrs.drop_last(), ns);
        let a = attrs.last();
        match rest {
            Err(p) => Err(p),
            Ok(cur) => {
                if a.outer && a.path == ns {
                    match parse_action_spec(a.args) {
                        Err(p) => Err(p),
                        Ok(act) => Ok(Some(act)),
                    }
                } else {
                    Ok(cur)
                }
            },
        }
    }
}

/// What resolving a namespace over an annotation list yields, starting from
/// no directive.
pub open spec fn get_action_spec(attrs: Seq<AttrV>, ns: Seq<char>) -> Result<
    Option<ActionV>,
    Problem,
> {
    fold_action_spec(Ok(None), attrs, ns)
}

/// A failed fold stays failed whatever annotations follow.
pub proof fn lemma_fold_action_err(p: Problem, attrs: Seq<AttrV>, ns: Seq<char>)
    ensures
        fold_action_spec(Err(p), attrs, ns) == Err::<Option<ActionV>, Problem>(p),
    decreases attrs.len(),
{
    if attrs.len() > 0 {
        lemma_fold_action_err(p, attrs.drop_last(), ns);
    }
}

/// Folding a concatenation folds the two halves in order.
proof fn lemma_fold_action_concat(
    init: Result<Option<ActionV>, Problem>,
    s: Seq<AttrV>,
    t: Seq<AttrV>,
    ns: Seq<char>,
)
    ensures
        fold_action_spec(init, s + t, ns) == fold_action_spec(fold_action_spec(init, s, ns), t, ns),
    decreases t.len(),
{
    if t.len() == 0 {
        assert(s + t =~= s);
    } else {
        lemma_fold_action_concat(init, s, t.drop_last(), ns);
        assert((s + t).drop_last() =~= s + t.drop_last());
        assert((s + t).last() == t.last());
    }
}

/// Continues a resolution from an already-current directive across further
/// annotations.
pub fn fold_action(current: Option<Action>, attributes: &Vec<Attr>, namespace: &str) -> (r: Result<
    Option<Action>,
    Problem,
>)
    ensures
        opt_action_res_view(r) == fold_action_spec(
            Ok(opt_action_view(current)),
            attrs_view(attributes@),
            namespace@,
        ),
{
    let ghost av = attrs_view(attributes@);
    let ghost init = Ok::<Option<ActionV>, Problem>(opt_action_view(current));
    let mut cur = current;
    let mut i: usize = 0;
    while i < attributes.len()
        invariant
            i <= attributes.len(),
            av == attrs_view(attributes@),
            init == Ok::<Option<ActionV>, Problem>(opt_action_view(current)),
            fold_action_spec(init, av.take(i as int), namespace@) == Ok::<
                Option<ActionV>,
                Problem,
            >(opt_action_view(cur)),
        decreases attributes.len() - i,
    {
        let attr = &attributes[i];
        proof {
            assert(av[i as int] == attributes@[i as int]@);
            assert(av.take(i as int + 1).drop_last() =~= av.take(i as int));
            assert(av.take(i as int + 1).last() == av[i as int]);
        }
        if attr.outer && str_eq(attr.path.as_str(), namespace) {
            match Action::parse(&attr.args) {
                Ok(a) => {
                    proof {
                        assert(fold_action_spec(init, av.take(i as int + 1), namespace@)
                            == Ok::<Option<ActionV>, Problem>(Some(a@)));
                    }
                    cur = Some(a);
                },
                Err(p) => {
                    proof {
                        assert(fold_action_spec(init, av.take(i as int + 1), namespace@)
                            == Err::<Option<ActionV>, Problem>(p));
                        assert(av =~= av.take(i as int + 1) + av.skip(i as int + 1));
                        lemma_fold_action_concat(init, av.take(i as int + 1), av.skip(i as int + 1), namespace@);
                        lemma_fold_action_err(p, av.skip(i as int + 1), namespace@);
                    }
                    return Err(p);
                },
            }
        }
        i += 1;
    }
    proof {
        assert(av.take(attributes@.len() as int) =~= av);
    }
    Ok(cur)
}

/// Resolves the directive of one namespace over an annotation list: the last
/// outer annotation in the namespace wins; a malformed one aborts; none at
/// all leaves the caller's default policy in force.
pub fn get_action_from(attributes: &Vec<Attr>, namespace: &str) -> (r: Result<
    Option<Action>,
    Problem,
>)
    ensures
        opt_action_res_view(r) == get_action_spec(attrs_view(attributes@), namespace@),
{
    fold_action(None, attributes, namespace)
}

} // verus!
