//! The return/throw rule: translates a return or throw statement's
//! optional argument, wrapping ambiguous argument shapes (binary-like or
//! comma-sequence expressions) in conditional parentheses that appear only
//! when the line must break.

use vstd::prelude::*;

use crate::config::{semicolon, semicolon_doc, FormatConfig};
use crate::construct::{Argument, ArgumentView, ExprShape};
use crate::doc::{Doc, DocModel};

verus! {

broadcast use crate::doc::lemma_model_seq_push;

/// Whether an argument shape gets conditional parentheses: binary-like
/// compositions and comma-sequence expressions do, all others do not.
pub open spec fn needs_parens(shape: ExprShape) -> bool {
    shape == ExprShape::Binaryish || shape == ExprShape::Sequence
}

/// A conditional open or close parenthesis: the text when the enclosing
/// group breaks, nothing when it stays flat.
pub open spec fn cond_paren(text: Seq<char>) -> DocModel {
    DocModel::IfBreak(Box::new(DocModel::Text(text)), Box::new(DocModel::Text(""@)))
}

/// The conditional-parenthesis wrapper: one group holding a conditional
/// open paren, the argument indented behind a soft break, a closing soft
/// break, and a conditional close paren.
pub open spec fn cond_paren_wrap(arg: DocModel) -> DocModel {
    DocModel::Group(Box::new(DocModel::Array(seq![
        cond_paren("("@),
        DocModel::Indent(Box::new(DocModel::Array(seq![DocModel::Softline, arg]))),
        DocModel::Softline,
        cond_paren(")"@),
    ])))
}

/// The argument as emitted: ambiguous shapes inside the
/// conditional-parenthesis wrapper, all others directly.
pub open spec fn wrapped_argument(a: ArgumentView) -> DocModel {
    if needs_parens(a.shape) {
        cond_paren_wrap(a.doc)
    } else {
        a.doc
    }
}

/// The keyword segment of the statement.
pub open spec fn keyword_part(is_return: bool) -> Seq<DocModel> {
    seq![DocModel::Text(if is_return {
        "return"@
    } else {
        "throw"@
    })]
}

/// The argument segment: a space then the possibly wrapped argument, when
/// one exists.
pub open spec fn argument_part(argument: Option<ArgumentView>) -> Seq<DocModel> {
    match argument {
        Some(a) => seq![DocModel::Space, wrapped_argument(a)],
        None => Seq::empty(),
    }
}

/// The terminator segment of the statement: the configured semicolon, or
/// nothing when semicolons are off.
pub open spec fn statement_terminator_part(semi: bool) -> Seq<DocModel> {
    if semi {
        seq![semicolon_doc()]
    } else {
        Seq::empty()
    }
}

/// The parts of a translated return or throw statement, built in emission
/// order: keyword, a space and the argument when one exists, then the
/// configured terminator.
pub open spec fn return_or_throw_parts(
    argument: Option<ArgumentView>,
    is_return: bool,
    semi: bool,
) -> Seq<DocModel> {
    let s = Seq::<DocModel>::empty();
    let s = s.push(DocModel::Text(if is_return {
        "return"@
    } else {
        "throw"@
    }));
    let s = match argument {
        Some(a) => s.push(DocModel::Space).push(wrapped_argument(a)),
        None => s,
    };
    if semi {
        s.push(semicolon_doc())
    } else {
        s
    }
}

/// The translated return or throw statement.
pub open spec fn return_or_throw_doc(
    argument: Option<ArgumentView>,
    is_return: bool,
    semi: bool,
) -> DocModel {
    DocModel::Array(return_or_throw_parts(argument, is_return, semi))
}

/// Builds the conditional-parenthesis wrapper around a translated
/// argument.
fn build_cond_paren_wrap(arg: Doc) -> (doc: Doc)
    ensures
        doc@ == cond_paren_wrap(arg.model()),
{
    proof {
        reveal_with_fuel(Doc::model, 3);
    }
    let ghost a = arg.model();
    let mut indented: Vec<Doc> = Vec::new();
    indented.push(Doc::Softline);
    indented.push(arg);
    assert(Doc::model_seq(indented@) =~= seq![DocModel::Softline, a]);
    let indent = Doc::Indent(Box::new(Doc::Array(indented)));

    let open_paren = Doc::IfBreak(Box::new(Doc::Text("(")), Box::new(Doc::Text("")));
    assert(open_paren.model() == cond_paren("("@));
    let close_paren = Doc::IfBreak(Box::new(Doc::Text(")")), Box::new(Doc::Text("")));
    assert(close_paren.model() == cond_paren(")"@));

    let mut inner: Vec<Doc> = Vec::new();
    inner.push(open_paren);
    inner.push(indent);
    inner.push(Doc::Softline);
    inner.push(close_paren);
    assert(Doc::model_seq(inner@) =~= seq![
        cond_paren("("@),
        DocModel::Indent(Box::new(DocModel::Array(seq![DocModel::Softline, a]))),
        DocModel::Softline,
        cond_paren(")"@),
    ]);

    Doc::Group(Box::new(Doc::Array(inner)))
}

/// Translates a return or throw statement with its optional argument and
/// its own terminator.  A pure, total transformation: it cannot fail.
pub fn print_return_or_throw_argument(
    cfg: &FormatConfig,
    argument: Option<Argument>,
    is_return: bool,
) -> (doc: Doc)
    ensures
        doc@ == return_or_throw_doc(argument.deep_view(), is_return, cfg.semi),
{
    let ghost arg_view = argument.deep_view();
    let mut parts: Vec<Doc> = Vec::new();

    parts.push(Doc::Text(if is_return {
        "return"
    } else {
        "throw"
    }));

    if let Some(argument) = argument {
        parts.push(Doc::Space);
        let Argument { shape, doc } = argument;
        let wrapped = match shape {
            ExprShape::Binaryish | ExprShape::Sequence => build_cond_paren_wrap(doc),
            ExprShape::Other => doc,
        };
        parts.push(wrapped);
    }

    if let Some(semi) = semicolon(cfg) {
        parts.push(semi);
    }
    assert(Doc::model_seq(parts@) == return_or_throw_parts(arg_view, is_return, cfg.semi));

    Doc::Array(parts)
}

} // verus!
