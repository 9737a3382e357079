//! The method rule and the shared function-value rule.  A method emits its
//! modifiers in the canonical order accessibility, static, abstract,
//! override, kind keyword, async, generator, then its key, an optional
//! marker, and the signature+body produced by the function-value rule.

use vstd::prelude::*;

use crate::config::{semicolon_doc, FormatConfig};
use crate::construct::{
    accessibility_text, Accessibility, FunctionConstruct, FunctionConstructView, MethodConstruct,
    MethodConstructView, MethodKind,
};
use crate::doc::{Doc, DocModel};
use crate::function::params_part;

verus! {

broadcast use crate::doc::lemma_model_seq_push;

/// The terminator segment of the function-value rule: a bodyless signature
/// ends with a semicolon when semicolons are configured on; a bodied one
/// never does.
pub open spec fn value_terminator_part(f: FunctionConstructView, semi: bool) -> Seq<DocModel> {
    if f.body is None && semi {
        seq![semicolon_doc()]
    } else {
        Seq::empty()
    }
}

/// The parts of the shared signature+body portion, built in emission
/// order: type parameters, grouped parameter list, return type, then body
/// or terminator.  `lemma_method_value_emission_order` states the same
/// sequence as the concatenation of its named segments.
pub open spec fn method_value_parts(
    f: FunctionConstructView,
    group_params: bool,
    semi: bool,
) -> Seq<DocModel> {
    let s = Seq::<DocModel>::empty();
    let s = match f.type_parameters {
        Some(tp) => s.push(tp),
        None => s,
    };
    let s = s.push(params_part(f.params, group_params));
    let s = match f.return_type {
        Some(rt) => s.push(DocModel::Text(": "@)).push(rt),
        None => s,
    };
    match f.body {
        Some(b) => s.push(DocModel::Space).push(b),
        None => if semi {
            s.push(semicolon_doc())
        } else {
            s
        },
    }
}

/// The translated signature+body portion.
pub open spec fn method_value_doc(
    f: FunctionConstructView,
    group_params: bool,
    semi: bool,
) -> DocModel {
    DocModel::Array(method_value_parts(f, group_params, semi))
}

/// Translates the shared signature+body portion of a callable: type
/// parameters, the double-grouped parameter list, the return type, and the
/// body or the configured terminator.  `group_params` is the answer of the
/// external grouping predicate for this callable.
pub fn print_method_value(
    cfg: &FormatConfig,
    function: FunctionConstruct,
    group_params: bool,
) -> (doc: Doc)
    ensures
        doc@ == method_value_doc(function@, group_params, cfg.semi),
{
    let ghost f = function@;
    let FunctionConstruct { type_parameters, params, return_type, body, .. } = function;
    let grouped = if group_params {
        Doc::Group(Box::new(params))
    } else {
        params
    };
    assert(grouped.model() == if group_params {
        DocModel::Group(Box::new(f.params))
    } else {
        f.params
    });
    let mut parts: Vec<Doc> = Vec::new();

    if let Some(tp) = type_parameters {
        parts.push(tp);
    }

    let outer = Doc::Group(Box::new(grouped));
    assert(outer.model() == params_part(f.params, group_params));
    parts.push(outer);

    if let Some(rt) = return_type {
        parts.push(Doc::Text(": "));
        parts.push(rt);
    }

    if let Some(b) = body {
        parts.push(Doc::Space);
        parts.push(b);
    } else if cfg.semi {
        parts.push(Doc::Text(";"));
    }
    assert(Doc::model_seq(parts@) == method_value_parts(f, group_params, cfg.semi));

    Doc::Array(parts)
}

/// The accessibility segment: keyword and a space, when one is written.
pub open spec fn accessibility_part(m: MethodConstructView) -> Seq<DocModel> {
    match m.accessibility {
        Some(a) => seq![DocModel::Text(accessibility_text(a)), DocModel::Space],
        None => Seq::empty(),
    }
}

/// The `static ` modifier segment.
pub open spec fn static_part(m: MethodConstructView) -> Seq<DocModel> {
    if m.is_static {
        seq![DocModel::Text("static "@)]
    } else {
        Seq::empty()
    }
}

/// The `abstract ` modifier segment.
pub open spec fn abstract_part(m: MethodConstructView) -> Seq<DocModel> {
    if m.is_abstract {
        seq![DocModel::Text("abstract "@)]
    } else {
        Seq::empty()
    }
}

/// The `override ` modifier segment.
pub open spec fn override_part(m: MethodConstructView) -> Seq<DocModel> {
    if m.is_override {
        seq![DocModel::Text("override "@)]
    } else {
        Seq::empty()
    }
}

/// The `async ` modifier segment of a method, read off its callable.
pub open spec fn method_async_part(m: MethodConstructView) -> Seq<DocModel> {
    if m.value.is_async {
        seq![DocModel::Text("async "@)]
    } else {
        Seq::empty()
    }
}

/// The `*` generator segment of a method, read off its callable.
pub open spec fn method_generator_part(m: MethodConstructView) -> Seq<DocModel> {
    if m.value.generator {
        seq![DocModel::Text("*"@)]
    } else {
        Seq::empty()
    }
}

/// The `?` optional-member segment.
pub open spec fn optional_part(m: MethodConstructView) -> Seq<DocModel> {
    if m.optional {
        seq![DocModel::Text("?"@)]
    } else {
        Seq::empty()
    }
}

/// The keyword a method kind emits: getters and setters announce
/// themselves; constructors and ordinary methods emit nothing extra.
pub open spec fn kind_part(kind: MethodKind) -> Seq<DocModel> {
    match kind {
        MethodKind::Getter => seq![DocModel::Text("get "@)],
        MethodKind::Setter => seq![DocModel::Text("set "@)],
        MethodKind::Constructor | MethodKind::Method => Seq::empty(),
    }
}

/// The parts of a translated method definition, built in emission order.
/// `lemma_method_emission_order` states the same sequence as the
/// concatenation of its named segments.
pub open spec fn method_parts(
    m: MethodConstructView,
    group_params: bool,
    semi: bool,
) -> Seq<DocModel> {
    let s = Seq::<DocModel>::empty();
    let s = match m.accessibility {
        Some(a) => s.push(DocModel::Text(accessibility_text(a))).push(DocModel::Space),
        None => s,
    };
    let s = if m.is_static {
        s.push(DocModel::Text("static "@))
    } else {
        s
    };
    let s = if m.is_abstract {
        s.push(DocModel::Text("abstract "@))
    } else {
        s
    };
    let s = if m.is_override {
        s.push(DocModel::Text("override "@))
    } else {
        s
    };
    let s = match m.kind {
        MethodKind::Getter => s.push(DocModel::Text("get "@)),
        MethodKind::Setter => s.push(DocModel::Text("set "@)),
        MethodKind::Constructor | MethodKind::Method => s,
    };
    let s = if m.value.is_async {
        s.push(DocModel::Text("async "@))
    } else {
        s
    };
    let s = if m.value.generator {
        s.push(DocModel::Text("*"@))
    } else {
        s
    };
    let s = s.push(m.key);
    let s = if m.optional {
        s.push(DocModel::Text("?"@))
    } else {
        s
    };
    s.push(method_value_doc(m.value, group_params, semi))
}

/// The translated method definition.
pub open spec fn method_doc(
    m: MethodConstructView,
    group_params: bool,
    semi: bool,
) -> DocModel {
    DocModel::Array(method_parts(m, group_params, semi))
}

/// Translates a method definition: the full member, modifiers, key and
/// signature+body.  `group_params` is the answer of the external grouping
/// predicate for the underlying callable.  A pure, total transformation:
/// it cannot fail.
pub fn print_method(cfg: &FormatConfig, method: MethodConstruct, group_params: bool) -> (doc: Doc)
    ensures
        doc@ == method_doc(method@, group_params, cfg.semi),
{
    let ghost m = method@;
    let MethodConstruct {
        accessibility,
        is_static,
        is_abstract,
        is_override,
        kind,
        key,
        optional,
        value,
    } = method;
    let is_async = value.is_async;
    let generator = value.generator;
    let mut parts: Vec<Doc> = Vec::new();

    if let Some(a) = accessibility {
        parts.push(Doc::Text(match a {
            Accessibility::Public => "public",
            Accessibility::Private => "private",
            Accessibility::Protected => "protected",
        }));
        parts.push(Doc::Space);
    }

    if is_static {
        parts.push(Doc::Text("static "));
    }

    if is_abstract {
        parts.push(Doc::Text("abstract "));
    }

    if is_override {
        parts.push(Doc::Text("override "));
    }

    match kind {
        MethodKind::Constructor | MethodKind::Method => {},
        MethodKind::Getter => {
            parts.push(Doc::Text("get "));
        },
        MethodKind::Setter => {
            parts.push(Doc::Text("set "));
        },
    }
    assert(Doc::model_seq(parts@) == {
        let s = Seq::<DocModel>::empty();
        let s = match m.accessibility {
            Some(a) => s.push(DocModel::Text(accessibility_text(a))).push(DocModel::Space),
            None => s,
        };
        let s = if m.is_static {
            s.push(DocModel::Text("static "@))
        } else {
            s
        };
        let s = if m.is_abstract {
            s.push(DocModel::Text("abstract "@))
        } else {
            s
        };
        let s = if m.is_override {
            s.push(DocModel::Text("override "@))
        } else {
            s
        };
        match m.kind {
            MethodKind::Getter => s.push(DocModel::Text("get "@)),
            MethodKind::Setter => s.push(DocModel::Text("set "@)),
            MethodKind::Constructor | MethodKind::Method => s,
        }
    });

    if is_async {
        parts.push(Doc::Text("async "));
    }

    if generator {
        parts.push(Doc::Text("*"));
    }

    parts.push(key);

    if optional {
        parts.push(Doc::Text("?"));
    }

    let value_doc = print_method_value(cfg, value, group_params);
    parts.push(value_doc);
    assert(Doc::model_seq(parts@) == method_parts(m, group_params, cfg.semi));

    Doc::Array(parts)
}

} // verus!
