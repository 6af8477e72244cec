//! What a rule works with while it is evaluated: the changeset it can ask
//! for, the attributes the changeset offers, and the store that collects what
//! the rule emits.

use vstd::prelude::*;
use vstd::string::StringExecFns;

verus! {

/// The sink that a rule's emissions are appended to, oldest first.
pub struct Store {
    items: Vec<String>,
}

impl View for Store {
    type V = Seq<Seq<char>>;

    /// The emissions recorded so far, in the order in which they were added.
    closed spec fn view(&self) -> Seq<Seq<char>> {
        Seq::new(self.items@.len(), |i: int| self.items@[i]@)
    }
}

/// The line that reports one emission.
pub open spec fn report_line(emitted: Seq<char>) -> Seq<char> {
    "emitted: "@ + emitted
}

impl Store {
    /// A store that holds nothing yet.
    pub fn new() -> (store: Store)
        ensures
            store@ == Seq::<Seq<char>>::empty(),
    {
        let store = Store { items: Vec::new() };
        assert(store@ =~= Seq::<Seq<char>>::empty());
        store
    }

    /// Appends one emission; nothing recorded before is touched.
    pub fn add(&mut self, x: String)
        ensures
            final(self)@ == old(self)@.push(x@),
    {
        self.items.push(x);
        assert(self@ =~= old(self)@.push(x@));
    }

    /// How many emissions are recorded.
    pub fn len(&self) -> (n: usize)
        ensures
            n == self@.len(),
    {
        self.items.len()
    }

    /// The lines that report the emissions, one for each, in their order.
    pub fn report(&self) -> (lines: Vec<String>)
        ensures
            lines@.len() == self@.len(),
            forall|i: int| 0 <= i < self@.len() ==> (#[trigger] lines@[i])@ == report_line(self@[i]),
    {
        let mut lines: Vec<String> = Vec::new();
        let mut i: usize = 0;
        while i < self.items.len()
            invariant
                i <= self.items@.len(),
                lines@.len() == i,
                forall|k: int| 0 <= k < i ==> (#[trigger] lines@[k])@ == report_line(self@[k]),
            decreases self.items@.len() - i,
        {
            let line = String::from_str("emitted: ").concat(self.items[i].as_str());
            assert(line@ == report_line(self@[i as int]));
            lines.push(line);
            i = i + 1;
        }
        lines
    }
}

impl Default for Store {
    fn default() -> (store: Store)
        ensures
            store@ == Seq::<Seq<char>>::empty(),
    {
        Store::new()
    }
}

/// A set of changes, named by the repository it belongs to.
#[derive(Clone, Debug, PartialEq, Eq)]
pub struct Changeset {
    pub repository: String,
}

/// What an attribute of a changeset holds.
#[derive(Clone, Debug, PartialEq, Eq)]
pub enum AttributeValue {
    Text(String),
    List(Vec<String>),
}

/// An attribute's value as its texts.
pub enum AttributeValueView {
    Text(Seq<char>),
    List(Seq<Seq<char>>),
}

impl View for AttributeValue {
    type V = AttributeValueView;

    open spec fn view(&self) -> AttributeValueView {
        match self {
            AttributeValue::Text(text) => AttributeValueView::Text(text@),
            AttributeValue::List(items) => AttributeValueView::List(
                Seq::new(items@.len(), |i: int| items@[i]@),
            ),
        }
    }
}

/// What the attribute `attribute` of a changeset holds: `name` is a text,
/// `members` a list of two, and there is no other.
pub open spec fn attribute_of(attribute: Seq<char>) -> Option<AttributeValueView> {
    if attribute == "name"@ {
        Some(AttributeValueView::Text("asdf"@))
    } else if attribute == "members"@ {
        Some(AttributeValueView::List(seq!["a"@, "b"@]))
    } else {
        None
    }
}

/// How a changeset is written out.
pub open spec fn changeset_text(repository: Seq<char>) -> Seq<char> {
    "Changeset[name="@ + repository + "]"@
}

fn same_text(a: &str, b: &str) -> (same: bool)
    ensures
        same == (a@ == b@),
{
    let left = a.to_owned();
    let right = b.to_owned();
    left == right
}

impl Changeset {
    /// The changeset that a rule is given when it asks for one.
    pub fn fetch() -> (changeset: Changeset)
        ensures
            changeset.repository@ == "test"@,
    {
        Changeset { repository: String::from_str("test") }
    }

    /// Writes the changeset out, for a reader.
    pub fn describe(&self) -> (text: String)
        ensures
            text@ == changeset_text(self.repository@),
    {
        String::from_str("Changeset[name=").concat(self.repository.as_str()).concat("]")
    }

    /// Looks an attribute up by its name.
    pub fn get_attr(&self, attribute: &str) -> (value: Option<AttributeValue>)
        ensures
            match value {
                Some(found) => attribute_of(attribute@) == Some(found@),
                None => attribute_of(attribute@) is None,
            },
    {
        if same_text(attribute, "name") {
            Some(AttributeValue::Text(String::from_str("asdf")))
        } else if same_text(attribute, "members") {
            let mut members: Vec<String> = Vec::new();
            members.push(String::from_str("a"));
            members.push(String::from_str("b"));
            let value = AttributeValue::List(members);
            assert(value@->List_0 =~= seq!["a"@, "b"@]);
            Some(value)
        } else {
            None
        }
    }
}

} // verus!
