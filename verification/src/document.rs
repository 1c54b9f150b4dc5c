//! Schema-less documents, as a row keeps them in an untyped column.

use vstd::prelude::*;

verus! {

/// A JSON number. It passes through this crate unread.
#[verifier::external_type_specification]
#[verifier::external_body]
pub struct ExNumber(serde_json::Number);

/// A structured document: the shape of a JSON value.
///
/// The members of an object are kept in the order in which they were given.
#[derive(Debug, PartialEq, Eq)]
pub enum Document {
    Null,
    Bool(bool),
    Number(serde_json::Number),
    Text(String),
    Array(Vec<Document>),
    Object(Vec<(String, Document)>),
}

/// What a [`Document`] holds, with sequences for its texts and collections.
pub ghost enum DocumentView {
    Null,
    Bool(bool),
    Number(serde_json::Number),
    Text(Seq<char>),
    Array(Seq<DocumentView>),
    Object(Seq<(Seq<char>, DocumentView)>),
}

impl View for Document {
    type V = DocumentView;

    open spec fn view(&self) -> DocumentView
        decreases self,
    {
        match self {
            Document::Null => DocumentView::Null,
            Document::Bool(b) => DocumentView::Bool(*b),
            Document::Number(n) => DocumentView::Number(*n),
            Document::Text(s) => DocumentView::Text(s@),
            Document::Array(items) => DocumentView::Array(
                Seq::new(
                    items@.len(),
                    |i: int|
                        if 0 <= i < items@.len() {
                            items@[i].view()
                        } else {
                            DocumentView::Null
                        },
                ),
            ),
            Document::Object(members) => DocumentView::Object(
                Seq::new(
                    members@.len(),
                    |i: int|
                        if 0 <= i < members@.len() {
                            (members@[i].0@, members@[i].1.view())
                        } else {
                            (Seq::empty(), DocumentView::Null)
                        },
                ),
            ),
        }
    }
}

/// The first of `members` that stands under `key`, if there is one.
pub open spec fn member(members: Seq<(Seq<char>, DocumentView)>, key: Seq<char>) -> Option<
    DocumentView,
>
    decreases members.len(),
{
    if members.len() == 0 {
        None
    } else if members[0].0 == key {
        Some(members[0].1)
    } else {
        member(members.drop_first(), key)
    }
}

impl DocumentView {
    /// The first member of an object under `key`; `None` for a missing key and
    /// for a document that is not an object.
    pub open spec fn get(self, key: Seq<char>) -> Option<DocumentView> {
        match self {
            DocumentView::Object(members) => member(members, key),
            _ => None,
        }
    }

    /// The number of members of an object; 0 for any other document.
    pub open spec fn member_count(self) -> nat {
        match self {
            DocumentView::Object(members) => members.len(),
            _ => 0,
        }
    }
}

/// The view of an object holds the views of its members, one for one.
pub proof fn lemma_object_view(members: Vec<(String, Document)>)
    ensures
        Document::Object(members)@ is Object,
        Document::Object(members)@->Object_0.len() == members@.len(),
        forall|i: int|
            0 <= i < members@.len() ==> (#[trigger] Document::Object(members)@->Object_0[i]) == (
                members@[i].0@,
                members@[i].1@,
            ),
{
    reveal_with_fuel(<Document as View>::view, 2);
}

/// A key that none of the first `n` members has is looked up among the rest.
proof fn lemma_member_skip(members: Seq<(Seq<char>, DocumentView)>, key: Seq<char>, n: int)
    requires
        0 <= n <= members.len(),
        forall|j: int| 0 <= j < n ==> members[j].0 != key,
    ensures
        member(members, key) == member(members.skip(n), key),
    decreases n,
{
    if n == 0 {
        assert(members.skip(0) =~= members);
    } else {
        lemma_member_skip(members, key, n - 1);
        let rest = members.skip(n - 1);
        assert(rest[0] == members[n - 1]);
        assert(rest.drop_first() =~= members.skip(n));
    }
}

impl Document {
    /// The first member of an object under `key`; `None` for a missing key and
    /// for a document that is not an object.
    pub fn get<'a>(&'a self, key: &str) -> (r: Option<&'a Document>)
        ensures
            match r {
                Some(found) => self@.get(key@) == Some(found@),
                None => self@.get(key@) is None,
            },
    {
        match self {
            Document::Object(members) => {
                let wanted = key.to_owned();
                let ghost all = self@->Object_0;
                proof {
                    lemma_object_view(*members);
                }
                let mut i: usize = 0;
                while i < members.len()
                    invariant
                        i <= members.len(),
                        wanted@ == key@,
                        self@ == DocumentView::Object(all),
                        all.len() == members.len(),
                        forall|j: int|
                            0 <= j < members.len() ==> all[j] == (members[j].0@, members[j].1@),
                        forall|j: int| 0 <= j < i ==> all[j].0 != key@,
                    decreases members.len() - i,
                {
                    if members[i].0 == wanted {
                        proof {
                            lemma_member_skip(all, key@, i as int);
                        }
                        return Some(&members[i].1);
                    }
                    i = i + 1;
                }
                proof {
                    lemma_member_skip(all, key@, i as int);
                }
                None
            },
            _ => None,
        }
    }

    /// The number of members of an object; 0 for any other document.
    pub fn member_count(&self) -> (r: usize)
        ensures
            r == self@.member_count(),
    {
        match self {
            Document::Object(members) => {
                proof {
                    lemma_object_view(*members);
                }
                members.len()
            },
            _ => 0,
        }
    }
}

} // verus!

