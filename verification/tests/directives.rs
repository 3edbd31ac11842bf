//! The directive grammar, exercised through real token streams.

use std::str::FromStr;

use derive_getters::action::{get_action_from, Action};
use derive_getters::ast::{Attr, Token};
use derive_getters::faultmsg::Problem;

/// Lexes attribute-argument text with the host's own lexer and converts the
/// token trees into the library's token model.
fn lex(src: &str) -> Vec<Token> {
    let ts = proc_macro2::TokenStream::from_str(src).expect("argument text must lex");
    ts.into_iter()
        .map(|tt| match tt {
            proc_macro2::TokenTree::Ident(i) => Token::Ident(i.to_string()),
            proc_macro2::TokenTree::Punct(p) => Token::Punct(p.as_char()),
            proc_macro2::TokenTree::Literal(l) => {
                let stream = proc_macro2::TokenStream::from(proc_macro2::TokenTree::Literal(l));
                match syn::parse2::<syn::LitStr>(stream) {
                    Ok(ls) => Token::LitStr(ls.value()),
                    Err(_) => Token::Opaque,
                }
            }
            proc_macro2::TokenTree::Group(_) => Token::Opaque,
        })
        .collect()
}

fn outer(path: &str, args: &str) -> Attr {
    Attr {
        outer: true,
        path: path.to_string(),
        args: lex(args),
    }
}

#[test]
fn parse_action() {
    let a: Action = Action::parse(&lex("skip")).unwrap();
    assert!(a == Action::Skip);

    let r: Result<Action, Problem> = Action::parse(&lex("skip = blah"));
    assert!(r.is_err());

    let a: Action = Action::parse(&lex("rename = \"hello\"")).unwrap();
    let check = Action::Rename("hello".to_string());
    assert!(a == check);

    let r: Result<Action, Problem> = Action::parse(&lex("rename + \"chooga\""));
    assert!(r.is_err());

    let r: Result<Action, Problem> = Action::parse(&lex("rename = \"chooga\" | bongle"));
    assert!(r.is_err());
}

#[test]
fn trailing_tokens_after_skip() {
    assert_eq!(
        Action::parse(&lex("skip 1")),
        Err(Problem::TokensFollowSkip)
    );
    assert_eq!(
        Action::parse(&lex("skip = blah")),
        Err(Problem::TokensFollowSkip)
    );
}

#[test]
fn trailing_tokens_after_rename() {
    assert_eq!(
        Action::parse(&lex("rename = \"chooga\" | bongle")),
        Err(Problem::TokensFollowNewName)
    );
}

#[test]
fn combined_directives_are_invalid() {
    assert_eq!(
        Action::parse(&lex("skip, rename = \"x\"")),
        Err(Problem::InvalidAttribute)
    );
    assert_eq!(
        Action::parse(&lex("rename = \"x\", skip")),
        Err(Problem::InvalidAttribute)
    );
}

#[test]
fn unknown_directives_are_invalid() {
    assert_eq!(Action::parse(&lex("bongle")), Err(Problem::InvalidAttribute));
    assert_eq!(Action::parse(&Vec::new()), Err(Problem::InvalidAttribute));
    assert_eq!(
        Action::parse(&lex("rename = hello")),
        Err(Problem::InvalidAttribute)
    );
    assert_eq!(
        Action::parse(&lex("rename \"hello\"")),
        Err(Problem::InvalidAttribute)
    );
}

#[test]
fn rename_payload_must_be_an_identifier() {
    assert_eq!(
        Action::parse(&lex("rename = \"not an ident\"")),
        Err(Problem::InvalidAttribute)
    );
    assert_eq!(
        Action::parse(&lex("rename = \"9lives\"")),
        Err(Problem::InvalidAttribute)
    );
    assert_eq!(
        Action::parse(&lex("rename = \"\"")),
        Err(Problem::InvalidAttribute)
    );
    assert_eq!(
        Action::parse(&lex("rename = \"lower_9\"")).unwrap(),
        Action::Rename("lower_9".to_string())
    );
}

#[test]
fn last_annotation_wins() {
    let attrs = vec![
        outer("getter", "rename = \"first\""),
        outer("getter", "rename = \"second\""),
    ];
    assert_eq!(
        get_action_from(&attrs, "getter").unwrap(),
        Some(Action::Rename("second".to_string()))
    );
}

#[test]
fn foreign_and_inner_annotations_are_ignored() {
    let attrs = vec![
        outer("serde", "rename = \"first\""),
        Attr {
            outer: false,
            path: "getter".to_string(),
            args: lex("skip"),
        },
    ];
    assert_eq!(get_action_from(&attrs, "getter").unwrap(), None);
}

#[test]
fn malformed_annotation_aborts_resolution() {
    let attrs = vec![
        outer("getter", "bongle"),
        outer("getter", "rename = \"fine\""),
    ];
    assert_eq!(
        get_action_from(&attrs, "getter"),
        Err(Problem::InvalidAttribute)
    );
}
