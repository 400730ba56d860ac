//! JSON documents as trees: the library's own type for what a server sends and is sent.

use vstd::prelude::*;

verus! {

#[verifier::external_type_specification]
#[verifier::external_body]
pub struct ExNumber(serde_json::Number);

/// The number that `serde_json` makes of the integer `n`, as
/// `Number::from` returns it.
pub uninterp spec fn natural_number(n: u64) -> serde_json::Number;

/// Makes a `serde_json::Number` of `n` by `Number::from`. The integer alone
/// decides which number it is, and [`natural_number`] is the name for it.
#[verifier::external_body]
fn number_of(n: u64) -> (number: serde_json::Number)
    ensures
        number == natural_number(n),
{
    serde_json::Number::from(n)
}

/// Copies a `serde_json::Number` by its `Clone`, which gives the same number.
#[verifier::external_body]
fn copy_of_number(number: &serde_json::Number) -> (copy: serde_json::Number)
    ensures
        copy == *number,
{
    number.clone()
}

/// A JSON document.
///
/// A number is kept as `serde_json` holds it, and nothing here looks into
/// it. An object keeps its members in the order in which they were given;
/// where a name occurs more than once, the last member of that name is the
/// one that counts.
#[derive(Debug, PartialEq, Eq)]
pub enum Json {
    Null,
    Bool(bool),
    Number(serde_json::Number),
    String(String),
    Array(Vec<Json>),
    Object(Vec<(String, Json)>),
}

/// The mathematical value of a [`Json`] document.
pub ghost enum JsonView {
    Null,
    Bool(bool),
    Number(serde_json::Number),
    String(Seq<char>),
    Array(Seq<JsonView>),
    Object(Seq<(Seq<char>, JsonView)>),
}

/// The values of the first `n` elements of `items`.
pub open spec fn items_view(items: Vec<Json>, n: nat) -> Seq<JsonView>
    decreases items, n,
{
    if n == 0 || n > items@.len() {
        Seq::empty()
    } else {
        items_view(items, (n - 1) as nat).push(json_view(items@[n - 1]))
    }
}

/// The names and values of the first `n` members of `members`.
pub open spec fn members_view(members: Vec<(String, Json)>, n: nat) -> Seq<(Seq<char>, JsonView)>
    decreases members, n,
{
    if n == 0 || n > members@.len() {
        Seq::empty()
    } else {
        members_view(members, (n - 1) as nat).push(
            (members@[n - 1].0@, json_view(members@[n - 1].1)),
        )
    }
}

/// The value of a document.
pub open spec fn json_view(doc: Json) -> JsonView
    decreases doc, 0nat,
{
    match doc {
        Json::Null => JsonView::Null,
        Json::Bool(b) => JsonView::Bool(b),
        Json::Number(number) => JsonView::Number(number),
        Json::String(text) => JsonView::String(text@),
        Json::Array(items) => JsonView::Array(items_view(items, items@.len())),
        Json::Object(members) => JsonView::Object(members_view(members, members@.len())),
    }
}

impl View for Json {
    type V = JsonView;

    open spec fn view(&self) -> JsonView {
        json_view(*self)
    }
}

impl JsonView {
    /// The text of a string document; `None` for any other document.
    pub open spec fn as_text(self) -> Option<Seq<char>> {
        match self {
            JsonView::String(text) => Some(text),
            _ => None,
        }
    }

    /// The elements of an array; `None` for any other document.
    pub open spec fn elements(self) -> Option<Seq<JsonView>> {
        match self {
            JsonView::Array(items) => Some(items),
            _ => None,
        }
    }

    /// The member of an object that goes by `name`; `None` where the object
    /// has no such member, and for any document that is not an object.
    pub open spec fn member(self, name: Seq<char>) -> Option<JsonView> {
        match self {
            JsonView::Object(members) => lookup(members, name),
            _ => None,
        }
    }
}

/// The value of the last member of `members` that goes by `name`.
pub open spec fn lookup(members: Seq<(Seq<char>, JsonView)>, name: Seq<char>) -> Option<JsonView>
    decreases members.len(),
{
    if members.len() == 0 {
        None
    } else if members.last().0 == name {
        Some(members.last().1)
    } else {
        lookup(members.drop_last(), name)
    }
}

/// A name is found exactly where some member goes by it, and what is found
/// is the value of the last member that does.
pub proof fn lemma_lookup_finds_the_last(members: Seq<(Seq<char>, JsonView)>, name: Seq<char>)
    ensures
        lookup(members, name) is None <==> forall|i: int|
            0 <= i < members.len() ==> (#[trigger] members[i]).0 != name,
        lookup(members, name) matches Some(value) ==> exists|i: int|
            0 <= i < members.len() && #[trigger] members[i] == (name, value) && forall|j: int|
                i < j < members.len() ==> (#[trigger] members[j]).0 != name,
    decreases members.len(),
{
    if members.len() > 0 {
        let rest = members.drop_last();
        let last = members.len() - 1;
        lemma_lookup_finds_the_last(rest, name);
        assert(forall|i: int| 0 <= i < rest.len() ==> rest[i] == members[i]);
        if members.last().0 == name {
            assert(members[last] == (name, members.last().1));
        } else if lookup(rest, name) is Some {
            let value = lookup(rest, name)->0;
            let i = choose|i: int|
                0 <= i < rest.len() && #[trigger] rest[i] == (name, value) && forall|j: int|
                    i < j < rest.len() ==> (#[trigger] rest[j]).0 != name;
            assert(members[i] == (name, value));
            assert forall|j: int| i < j < members.len() implies (#[trigger] members[j]).0
                != name by {
                if j < last {
                    assert(rest[j].0 != name);
                }
            }
        } else {
            assert forall|i: int| 0 <= i < members.len() implies (#[trigger] members[i]).0
                != name by {
                if i < last {
                    assert(rest[i].0 != name);
                }
            }
        }
    }
}

/// The values of all elements of `items`.
pub open spec fn array_view(items: Vec<Json>) -> Seq<JsonView> {
    items_view(items, items@.len())
}

/// `items_view` maps the first `n` elements one by one.
proof fn lemma_items_view(items: Vec<Json>, n: nat)
    requires
        n <= items@.len(),
    ensures
        items_view(items, n).len() == n,
        forall|i: int| 0 <= i < n ==> #[trigger] items_view(items, n)[i] == items@[i]@,
    decreases n,
{
    if n > 0 {
        lemma_items_view(items, (n - 1) as nat);
    }
}

/// The value of an array has one element for each element of the array, in
/// the same order.
pub proof fn lemma_array_view(items: Vec<Json>)
    ensures
        array_view(items).len() == items@.len(),
        forall|i: int| 0 <= i < items@.len() ==> #[trigger] array_view(items)[i] == items@[i]@,
{
    lemma_items_view(items, items@.len());
}

/// The names and values of all members of `members`.
pub open spec fn object_view(members: Vec<(String, Json)>) -> Seq<(Seq<char>, JsonView)> {
    members_view(members, members@.len())
}

/// `members_view` maps the first `n` members one by one.
proof fn lemma_members_view(members: Vec<(String, Json)>, n: nat)
    requires
        n <= members@.len(),
    ensures
        members_view(members, n).len() == n,
        forall|i: int|
            0 <= i < n ==> #[trigger] members_view(members, n)[i] == (
                members@[i].0@,
                members@[i].1@,
            ),
    decreases n,
{
    if n > 0 {
        lemma_members_view(members, (n - 1) as nat);
    }
}

/// The value of an object has one member for each member of the object, in
/// the same order and under the same name.
pub proof fn lemma_object_view(members: Vec<(String, Json)>)
    ensures
        object_view(members).len() == members@.len(),
        forall|i: int|
            0 <= i < members@.len() ==> #[trigger] object_view(members)[i] == (
                members@[i].0@,
                members@[i].1@,
            ),
{
    lemma_members_view(members, members@.len());
}

/// A copy of `doc` with the same value.
fn copy_of(doc: &Json) -> (copy: Json)
    ensures
        copy@ == doc@,
    decreases *doc,
{
    match doc {
        Json::Null => Json::Null,
        Json::Bool(b) => Json::Bool(*b),
        Json::Number(number) => Json::Number(copy_of_number(number)),
        Json::String(text) => Json::String(text.clone()),
        Json::Array(items) => {
            let mut copies: Vec<Json> = Vec::new();
            let mut i: usize = 0;
            while i < items.len()
                invariant
                    i <= items@.len(),
                    copies@.len() == i,
                    *doc == Json::Array(*items),
                    forall|k: int| 0 <= k < i ==> copies@[k]@ == items@[k]@,
                decreases items@.len() - i,
            {
                proof {
                    vstd::std_specs::vec::axiom_vec_index_decreases(*items, i as int);
                    assert(decreases_to!(*doc => doc->Array_0));
                }
                let item = copy_of(&items[i]);
                copies.push(item);
                i += 1;
            }
            proof {
                lemma_array_view(*items);
                lemma_array_view(copies);
                assert(array_view(copies) =~= array_view(*items));
            }
            Json::Array(copies)
        },
        Json::Object(members) => {
            let mut copies: Vec<(String, Json)> = Vec::new();
            let mut i: usize = 0;
            while i < members.len()
                invariant
                    i <= members@.len(),
                    copies@.len() == i,
                    *doc == Json::Object(*members),
                    forall|k: int|
                        0 <= k < i ==> copies@[k].0@ == members@[k].0@ && copies@[k].1@
                            == members@[k].1@,
                decreases members@.len() - i,
            {
                proof {
                    vstd::std_specs::vec::axiom_vec_index_decreases(*members, i as int);
                    assert(decreases_to!(*doc => doc->Object_0));
                    assert(decreases_to!(members@[i as int] => members@[i as int].1));
                }
                let name = members[i].0.clone();
                let member = copy_of(&members[i].1);
                copies.push((name, member));
                i += 1;
            }
            proof {
                lemma_object_view(*members);
                lemma_object_view(copies);
                assert(object_view(copies) =~= object_view(*members));
            }
            Json::Object(copies)
        },
    }
}

impl Clone for Json {
    /// A copy with the same value.
    fn clone(&self) -> (copy: Json)
        ensures
            copy@ == self@,
    {
        copy_of(self)
    }
}

impl Json {
    /// The document that is the number `n`.
    pub fn natural(n: u64) -> (doc: Json)
        ensures
            doc@ == JsonView::Number(natural_number(n)),
    {
        Json::Number(number_of(n))
    }

    /// The text of a string document.
    pub fn as_str(&self) -> (text: Option<&str>)
        ensures
            match text {
                Some(t) => self@.as_text() == Some(t@),
                None => self@.as_text() is None,
            },
    {
        match self {
            Json::String(text) => Some(text.as_str()),
            _ => None,
        }
    }

    /// The elements of an array.
    pub fn as_array(&self) -> (items: Option<&Vec<Json>>)
        ensures
            match items {
                Some(v) => self@.elements() == Some(array_view(*v)),
                None => self@.elements() is None,
            },
    {
        match self {
            Json::Array(items) => Some(items),
            _ => None,
        }
    }

    /// The member of an object that goes by `name`.
    pub fn get(&self, name: &str) -> (found: Option<&Json>)
        ensures
            match found {
                Some(m) => self@.member(name@) == Some(m@),
                None => self@.member(name@) is None,
            },
    {
        match self {
            Json::Object(members) => {
                let key = name.to_owned();
                let mut i: usize = members.len();
                while i > 0
                    invariant
                        i <= members@.len(),
                        key@ == name@,
                        self@.member(name@) == lookup(members_view(*members, i as nat), name@),
                    decreases i,
                {
                    i -= 1;
                    proof {
                        let before = members_view(*members, i as nat);
                        let entry = (members@[i as int].0@, members@[i as int].1@);
                        assert(members_view(*members, (i + 1) as nat) == before.push(entry));
                        assert(before.push(entry).drop_last() =~= before);
                    }
                    if members[i].0 == key {
                        return Some(&members[i].1);
                    }
                }
                None
            },
            _ => None,
        }
    }
}

} // verus!
