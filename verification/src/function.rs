//! The function-declaration rule: translates a standalone or property-value
//! function construct into a document, in the fixed emission order
//! declare, async, name segment, identifier, type parameters, grouped
//! parameter list, return type, body, terminator.

use vstd::prelude::*;

use crate::config::{semicolon, semicolon_doc, FormatConfig};
use crate::construct::{FunctionConstruct, FunctionConstructView};
use crate::doc::{Doc, DocModel};

verus! {

broadcast use crate::doc::lemma_model_seq_push;

/// The `declare ` modifier segment.
pub open spec fn declare_part(c: FunctionConstructView) -> Seq<DocModel> {
    if c.declare {
        seq![DocModel::Text("declare "@)]
    } else {
        Seq::empty()
    }
}

/// The `async ` modifier segment.
pub open spec fn async_part(c: FunctionConstructView) -> Seq<DocModel> {
    if c.is_async {
        seq![DocModel::Text("async "@)]
    } else {
        Seq::empty()
    }
}

/// The name segment: a supplied property name suppresses the `function`
/// keyword entirely; otherwise the keyword, a `*` for generators, and a
/// trailing space are emitted.
pub open spec fn name_part(
    c: FunctionConstructView,
    property_name: Option<Seq<char>>,
) -> Seq<DocModel> {
    match property_name {
        Some(name) => seq![DocModel::DynamicText(name)],
        None => seq![DocModel::Text("function"@)] + (if c.generator {
            seq![DocModel::Text("*"@)]
        } else {
            Seq::empty()
        }) + seq![DocModel::Text(" "@)],
    }
}

/// The identifier segment, when the function is named.
pub open spec fn id_part(c: FunctionConstructView) -> Seq<DocModel> {
    match c.id {
        Some(name) => seq![DocModel::DynamicText(name)],
        None => Seq::empty(),
    }
}

/// The type-parameter segment, when one exists.
pub open spec fn type_params_part(c: FunctionConstructView) -> Seq<DocModel> {
    match c.type_parameters {
        Some(tp) => seq![tp],
        None => Seq::empty(),
    }
}

/// The parameter list in its outer group; when the grouping predicate
/// holds, an additional inner group gives the list an independent breaking
/// boundary from the surrounding signature.
pub open spec fn params_part(params: DocModel, group_params: bool) -> DocModel {
    DocModel::Group(Box::new(if group_params {
        DocModel::Group(Box::new(params))
    } else {
        params
    }))
}

/// The return-type segment: `: ` then the annotation, when one exists.
pub open spec fn return_type_part(c: FunctionConstructView) -> Seq<DocModel> {
    match c.return_type {
        Some(rt) => seq![DocModel::Text(": "@), rt],
        None => Seq::empty(),
    }
}

/// The body segment: a space then the body, when one exists.
pub open spec fn body_part(c: FunctionConstructView) -> Seq<DocModel> {
    match c.body {
        Some(b) => seq![DocModel::Space, b],
        None => Seq::empty(),
    }
}

/// The terminator segment of a function declaration: bodyless or ambient
/// signatures end with the configured semicolon; bodied functions never do.
pub open spec fn function_terminator_part(
    c: FunctionConstructView,
    semi: bool,
) -> Seq<DocModel> {
    if (c.is_ambient || c.body is None) && semi {
        seq![semicolon_doc()]
    } else {
        Seq::empty()
    }
}

/// The parts of a translated function declaration, built in emission
/// order.  `lemma_function_emission_order` states the same sequence as the
/// concatenation of its named segments.
pub open spec fn function_parts(
    c: FunctionConstructView,
    property_name: Option<Seq<char>>,
    group_params: bool,
    semi: bool,
) -> Seq<DocModel> {
    let s = Seq::<DocModel>::empty();
    let s = if c.declare {
        s.push(DocModel::Text("declare "@))
    } else {
        s
    };
    let s = if c.is_async {
        s.push(DocModel::Text("async "@))
    } else {
        s
    };
    let s = match property_name {
        Some(name) => s.push(DocModel::DynamicText(name)),
        None => {
            let s = s.push(DocModel::Text("function"@));
            let s = if c.generator {
                s.push(DocModel::Text("*"@))
            } else {
                s
            };
            s.push(DocModel::Text(" "@))
        },
    };
    let s = match c.id {
        Some(name) => s.push(DocModel::DynamicText(name)),
        None => s,
    };
    let s = match c.type_parameters {
        Some(tp) => s.push(tp),
        None => s,
    };
    let s = s.push(params_part(c.params, group_params));
    let s = match c.return_type {
        Some(rt) => s.push(DocModel::Text(": "@)).push(rt),
        None => s,
    };
    let s = match c.body {
        Some(b) => s.push(DocModel::Space).push(b),
        None => s,
    };
    if (c.is_ambient || c.body is None) && semi {
        s.push(semicolon_doc())
    } else {
        s
    }
}

/// The translated function declaration.
pub open spec fn function_doc(
    c: FunctionConstructView,
    property_name: Option<Seq<char>>,
    group_params: bool,
    semi: bool,
) -> DocModel {
    DocModel::Array(function_parts(c, property_name, group_params, semi))
}

/// Translates a function-like construct, standalone or printed as the value
/// of a property whose name is supplied.  `group_params` is the answer of
/// the external grouping predicate for this construct.  A pure, total
/// transformation: it cannot fail.
pub fn print_function(
    cfg: &FormatConfig,
    func: FunctionConstruct,
    property_name: Option<String>,
    group_params: bool,
) -> (doc: Doc)
    ensures
        doc@ == function_doc(func@, property_name.deep_view(), group_params, cfg.semi),
{
    let ghost c = func@;
    let ghost pn = property_name.deep_view();
    let FunctionConstruct {
        declare,
        is_async,
        generator,
        is_ambient,
        id,
        type_parameters,
        params,
        return_type,
        body,
    } = func;
    let has_body = body.is_some();
    let mut parts: Vec<Doc> = Vec::new();

    if declare {
        parts.push(Doc::Text("declare "));
    }

    if is_async {
        parts.push(Doc::Text("async "));
    }

    if let Some(name) = property_name {
        parts.push(Doc::DynamicText(name));
    } else {
        parts.push(Doc::Text("function"));
        if generator {
            parts.push(Doc::Text("*"));
        }
        parts.push(Doc::Text(" "));
    }

    if let Some(name) = id {
        parts.push(Doc::DynamicText(name));
    }

    if let Some(tp) = type_parameters {
        parts.push(tp);
    }

    let grouped = if group_params {
        Doc::Group(Box::new(params))
    } else {
        params
    };
    assert(grouped.model() == if group_params {
        DocModel::Group(Box::new(c.params))
    } else {
        c.params
    });
    let outer = Doc::Group(Box::new(grouped));
    assert(outer.model() == params_part(c.params, group_params));
    parts.push(outer);

    if let Some(rt) = return_type {
        parts.push(Doc::Text(": "));
        parts.push(rt);
    }

    if let Some(b) = body {
        parts.push(Doc::Space);
        parts.push(b);
    }

    if is_ambient || !has_body {
        if let Some(semi) = semicolon(cfg) {
            parts.push(semi);
        }
    }
    assert(Doc::model_seq(parts@) == function_parts(c, pn, group_params, cfg.semi));

    Doc::Array(parts)
}

} // verus!
