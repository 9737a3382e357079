//! The document vocabulary: an immutable tree that encodes what may break
//! where.  Translation rules build these trees bottom-up; the renderer
//! consumes them.

use vstd::prelude::*;

verus! {

/// A document node.  Produced by the translation rules, never mutated
/// after construction.
#[derive(Debug, PartialEq, Eq)]
pub enum Doc {
    /// Fixed literal text, emitted verbatim.
    Text(&'static str),
    /// Text computed from source identifiers (names), emitted verbatim;
    /// distinguished from `Text` only by provenance.
    DynamicText(String),
    /// Concatenation of documents, with no implicit separator.
    Array(Vec<Doc>),
    /// A unit the renderer evaluates atomically: if its flat rendering does
    /// not fit (or it contains a forced break), every soft break inside it
    /// becomes a real line break.
    Group(Box<Doc>),
    /// Increases the indentation applied to line breaks nested within.
    Indent(Box<Doc>),
    /// Renders as nothing when flat, as a line break plus indentation when
    /// the enclosing group breaks.
    Softline,
    /// A literal single space, always present.
    Space,
    /// Chooses the first document when the enclosing group breaks, the
    /// second when it stays flat.
    IfBreak(Box<Doc>, Box<Doc>),
}

/// The mathematical shape of a document: the same tree with string content
/// abstracted to character sequences.  Contracts speak of this model.
pub enum DocModel {
    Text(Seq<char>),
    DynamicText(Seq<char>),
    Array(Seq<DocModel>),
    Group(Box<DocModel>),
    Indent(Box<DocModel>),
    Softline,
    Space,
    IfBreak(Box<DocModel>, Box<DocModel>),
}

impl Doc {
    /// The shape of this document.
    pub open spec fn model(self) -> DocModel
        decreases self,
    {
        match self {
            Doc::Text(s) => DocModel::Text(s@),
            Doc::DynamicText(s) => DocModel::DynamicText(s@),
            Doc::Array(parts) => DocModel::Array(Doc::model_seq(parts@)),
            Doc::Group(d) => DocModel::Group(Box::new((*d).model())),
            Doc::Indent(d) => DocModel::Indent(Box::new((*d).model())),
            Doc::Softline => DocModel::Softline,
            Doc::Space => DocModel::Space,
            Doc::IfBreak(b, f) => DocModel::IfBreak(
                Box::new((*b).model()),
                Box::new((*f).model()),
            ),
        }
    }

    /// The shapes of a sequence of documents, element by element.
    pub open spec fn model_seq(docs: Seq<Doc>) -> Seq<DocModel>
        decreases docs,
    {
        if docs.len() == 0 {
            Seq::empty()
        } else {
            Doc::model_seq(docs.drop_last()).push(docs.last().model())
        }
    }
}

impl View for Doc {
    type V = DocModel;

    open spec fn view(&self) -> DocModel {
        self.model()
    }
}

impl DeepView for Doc {
    type V = DocModel;

    open spec fn deep_view(&self) -> DocModel {
        self.model()
    }
}

/// A pushed element is the same as concatenating a singleton.
pub broadcast proof fn lemma_push_as_concat<A>(s: Seq<A>, x: A)
    ensures
        #[trigger] s.push(x) == s + seq![x],
{
    assert(s.push(x) =~= s + seq![x]);
}

/// Taking the shapes of a sequence commutes with appending one document.
pub broadcast proof fn lemma_model_seq_push(docs: Seq<Doc>, d: Doc)
    ensures
        #[trigger] Doc::model_seq(docs.push(d)) == Doc::model_seq(docs).push(d.model()),
{
    let p = docs.push(d);
    assert(p.drop_last() =~= docs);
    assert(p.last() == d);
}

} // verus!
