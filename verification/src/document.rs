//! A generic parsed-document tree: the input shape the configuration parser
//! consumes. It mirrors what a structured-text (YAML-like) loader produces:
//! scalars, sequences and mappings, plus a catch-all for node kinds the
//! schema never accepts (anchors, tagged nodes, unresolved representations).

use vstd::prelude::*;

verus! {

/// Mathematical model of a document node.
pub enum DocView {
    Null,
    Bool(bool),
    IntText(Seq<char>),
    FloatText(Seq<char>),
    Str(Seq<char>),
    Sequence(Seq<DocView>),
    Mapping(Seq<(DocView, DocView)>),
    Other,
}

/// One node of a parsed configuration document.
pub enum DocNode {
    /// A null scalar.
    Null,
    /// A boolean scalar.
    Bool(bool),
    /// An integer scalar, carried as its canonical decimal text.
    IntText(String),
    /// A floating-point scalar, carried as its canonical decimal text.
    FloatText(String),
    /// A string scalar.
    Str(String),
    /// A sequence of nodes.
    Sequence(Vec<DocNode>),
    /// A mapping from key nodes to value nodes, in document order.
    Mapping(Vec<(DocNode, DocNode)>),
    /// Any node kind the schema has no use for (aliases, tagged nodes,
    /// unresolved representations).
    Other,
}

impl View for DocNode {
    type V = DocView;

    open spec fn view(&self) -> DocView
        decreases self,
    {
        match self {
            DocNode::Null => DocView::Null,
            DocNode::Bool(b) => DocView::Bool(*b),
            DocNode::IntText(s) => DocView::IntText(s@),
            DocNode::FloatText(s) => DocView::FloatText(s@),
            DocNode::Str(s) => DocView::Str(s@),
            DocNode::Sequence(items) => DocView::Sequence(doc_seq_view(items@)),
            DocNode::Mapping(entries) => DocView::Mapping(doc_entries_view(entries@)),
            DocNode::Other => DocView::Other,
        }
    }
}

/// The views of a sequence of document nodes, in order.
pub open spec fn doc_seq_view(items: Seq<DocNode>) -> Seq<DocView>
    decreases items,
{
    if items.len() == 0 {
        Seq::empty()
    } else {
        seq![items[0]@] + doc_seq_view(items.drop_first())
    }
}

/// The views of a sequence of key/value document-node pairs, in order.
pub open spec fn doc_entries_view(entries: Seq<(DocNode, DocNode)>) -> Seq<(DocView, DocView)>
    decreases entries,
{
    if entries.len() == 0 {
        Seq::empty()
    } else {
        seq![(entries[0].0@, entries[0].1@)] + doc_entries_view(entries.drop_first())
    }
}

/// A sequence of document nodes is viewed pointwise.
pub proof fn lemma_doc_seq_view(items: Seq<DocNode>)
    ensures
        doc_seq_view(items).len() == items.len(),
        forall|i: int| 0 <= i < items.len() ==> doc_seq_view(items)[i] == #[trigger] items[i]@,
    decreases items,
{
    if items.len() > 0 {
        lemma_doc_seq_view(items.drop_first());
        assert(doc_seq_view(items) == seq![items[0]@] + doc_seq_view(items.drop_first()));
        assert(items.drop_first().len() == items.len() - 1);
        assert(doc_seq_view(items).len() == items.len());
        assert forall|i: int| 0 <= i < items.len() implies doc_seq_view(items)[i]
            == #[trigger] items[i]@ by {
            if i > 0 {
                assert(items.drop_first()[i - 1] == items[i]);
            }
        }
    } else {
        assert(doc_seq_view(items).len() == 0);
    }
}

/// A sequence of key/value document-node pairs is viewed pointwise.
pub proof fn lemma_doc_entries_view(entries: Seq<(DocNode, DocNode)>)
    ensures
        doc_entries_view(entries).len() == entries.len(),
        forall|i: int| 0 <= i < entries.len() ==> doc_entries_view(entries)[i] == (
        #[trigger] entries[i].0@,
        entries[i].1@,
        ),
    decreases entries,
{
    if entries.len() > 0 {
        lemma_doc_entries_view(entries.drop_first());
        assert(doc_entries_view(entries) == seq![(entries[0].0@, entries[0].1@)]
            + doc_entries_view(entries.drop_first()));
        assert(entries.drop_first().len() == entries.len() - 1);
        assert(doc_entries_view(entries).len() == entries.len());
        assert forall|i: int| 0 <= i < entries.len() implies doc_entries_view(entries)[i] == (
        #[trigger] entries[i].0@,
        entries[i].1@,
        ) by {
            if i > 0 {
                assert(entries.drop_first()[i - 1] == entries[i]);
            }
        }
    } else {
        assert(doc_entries_view(entries).len() == 0);
    }
}

} // verus!
