//! The tree of names and values that a stored configuration is read from and
//! written as. Its text form is the work of a parser outside this library;
//! which names stand where, and what they may hold, is decided here.

use vstd::prelude::*;
use crate::text::same_text;

verus! {

/// A number or a text.
#[derive(Debug, PartialEq, Eq)]
pub enum Scalar {
    Int(u64),
    Text(String),
}

/// What a `Scalar` holds.
pub enum ScalarView {
    Int(u64),
    Text(Seq<char>),
}

/// A named value inside a table.
#[derive(Debug, PartialEq, Eq)]
pub struct Field {
    pub name: String,
    pub value: Scalar,
}

/// What a `Field` holds.
pub struct FieldView {
    pub name: Seq<char>,
    pub value: ScalarView,
}

/// A value at the top of a document: a scalar, or a table of named scalars.
#[derive(Debug, PartialEq, Eq)]
pub enum Node {
    Scalar(Scalar),
    Table(Vec<Field>),
}

/// What a `Node` holds.
pub enum NodeView {
    Scalar(ScalarView),
    Table(Seq<FieldView>),
}

/// A named value at the top of a document.
#[derive(Debug, PartialEq, Eq)]
pub struct Entry {
    pub name: String,
    pub node: Node,
}

/// What an `Entry` holds.
pub struct EntryView {
    pub name: Seq<char>,
    pub node: NodeView,
}

/// A stored configuration as a tree: named entries, in their order.
#[derive(Debug, PartialEq, Eq)]
pub struct Document {
    pub entries: Vec<Entry>,
}

impl View for Scalar {
    type V = ScalarView;

    open spec fn view(&self) -> ScalarView {
        match self {
            Scalar::Int(n) => ScalarView::Int(*n),
            Scalar::Text(text) => ScalarView::Text(text@),
        }
    }
}

impl View for Field {
    type V = FieldView;

    open spec fn view(&self) -> FieldView {
        FieldView { name: self.name@, value: self.value@ }
    }
}

/// The fields of a table as what they hold.
pub open spec fn fields_view(fields: Seq<Field>) -> Seq<FieldView> {
    Seq::new(fields.len(), |i: int| fields[i]@)
}

impl View for Node {
    type V = NodeView;

    open spec fn view(&self) -> NodeView {
        match self {
            Node::Scalar(scalar) => NodeView::Scalar(scalar@),
            Node::Table(fields) => NodeView::Table(fields_view(fields@)),
        }
    }
}

impl View for Entry {
    type V = EntryView;

    open spec fn view(&self) -> EntryView {
        EntryView { name: self.name@, node: self.node@ }
    }
}

impl View for Document {
    type V = Seq<EntryView>;

    open spec fn view(&self) -> Seq<EntryView> {
        Seq::new(self.entries@.len(), |i: int| self.entries@[i]@)
    }
}

/// The value of the first field called `name`, from position `from` on.
pub open spec fn field_from(fields: Seq<FieldView>, name: Seq<char>, from: int) -> Option<
    ScalarView,
>
    decreases fields.len() - from,
{
    if from < 0 || from >= fields.len() {
        None
    } else if fields[from].name == name {
        Some(fields[from].value)
    } else {
        field_from(fields, name, from + 1)
    }
}

/// The value of the first field called `name`.
pub open spec fn field_of(fields: Seq<FieldView>, name: Seq<char>) -> Option<ScalarView> {
    field_from(fields, name, 0)
}

/// The node of the first entry called `name`, from position `from` on.
pub open spec fn node_from(entries: Seq<EntryView>, name: Seq<char>, from: int) -> Option<
    NodeView,
>
    decreases entries.len() - from,
{
    if from < 0 || from >= entries.len() {
        None
    } else if entries[from].name == name {
        Some(entries[from].node)
    } else {
        node_from(entries, name, from + 1)
    }
}

/// The node of the first entry called `name`.
pub open spec fn node_of(entries: Seq<EntryView>, name: Seq<char>) -> Option<NodeView> {
    node_from(entries, name, 0)
}

/// The first field with a name is found at its place.
pub proof fn lemma_field_at(fields: Seq<FieldView>, name: Seq<char>, at: int, from: int)
    requires
        0 <= from <= at < fields.len(),
        fields[at].name == name,
        forall|j: int| from <= j < at ==> fields[j].name != name,
    ensures
        field_from(fields, name, from) == Some(fields[at].value),
    decreases at - from,
{
    if from < at {
        lemma_field_at(fields, name, at, from + 1);
    }
}

/// Where no field has the name, none is found.
pub proof fn lemma_field_absent(fields: Seq<FieldView>, name: Seq<char>, from: int)
    requires
        0 <= from <= fields.len(),
        forall|j: int| from <= j < fields.len() ==> fields[j].name != name,
    ensures
        field_from(fields, name, from) is None,
    decreases fields.len() - from,
{
    if from < fields.len() {
        lemma_field_absent(fields, name, from + 1);
    }
}

/// The first entry with a name is found at its place.
pub proof fn lemma_node_at(entries: Seq<EntryView>, name: Seq<char>, at: int, from: int)
    requires
        0 <= from <= at < entries.len(),
        entries[at].name == name,
        forall|j: int| from <= j < at ==> entries[j].name != name,
    ensures
        node_from(entries, name, from) == Some(entries[at].node),
    decreases at - from,
{
    if from < at {
        lemma_node_at(entries, name, at, from + 1);
    }
}

/// Where no entry has the name, none is found.
pub proof fn lemma_node_absent(entries: Seq<EntryView>, name: Seq<char>, from: int)
    requires
        0 <= from <= entries.len(),
        forall|j: int| from <= j < entries.len() ==> entries[j].name != name,
    ensures
        node_from(entries, name, from) is None,
    decreases entries.len() - from,
{
    if from < entries.len() {
        lemma_node_absent(entries, name, from + 1);
    }
}

/// The value of the first field called `name`, if there is one.
pub fn find_field<'a>(fields: &'a Vec<Field>, name: &str) -> (found: Option<&'a Scalar>)
    ensures
        match found {
            Some(value) => field_of(fields_view(fields@), name@) == Some(value@),
            None => field_of(fields_view(fields@), name@) is None,
        },
{
    let mut i: usize = 0;
    while i < fields.len()
        invariant
            i <= fields.len(),
            forall|j: int| 0 <= j < i ==> fields_view(fields@)[j].name != name@,
        decreases fields.len() - i,
    {
        if same_text(fields[i].name.as_str(), name) {
            proof {
                lemma_field_at(fields_view(fields@), name@, i as int, 0);
            }
            return Some(&fields[i].value);
        }
        i = i + 1;
    }
    proof {
        lemma_field_absent(fields_view(fields@), name@, 0);
    }
    None
}

impl Document {
    /// The node of the first entry called `name`, if there is one.
    pub fn find(&self, name: &str) -> (found: Option<&Node>)
        ensures
            match found {
                Some(node) => node_of(self@, name@) == Some(node@),
                None => node_of(self@, name@) is None,
            },
    {
        let mut i: usize = 0;
        while i < self.entries.len()
            invariant
                i <= self.entries.len(),
                forall|j: int| 0 <= j < i ==> self@[j].name != name@,
            decreases self.entries.len() - i,
        {
            if same_text(self.entries[i].name.as_str(), name) {
                proof {
                    lemma_node_at(self@, name@, i as int, 0);
                }
                return Some(&self.entries[i].node);
            }
            i = i + 1;
        }
        proof {
            lemma_node_absent(self@, name@, 0);
        }
        None
    }
}

} // verus!
