//! A JSON document as the node's responses carry it, and the few questions
//! the decoder asks of one.

use vstd::prelude::*;

verus! {

/// A JSON value. An object keeps its members in the order given; a number
/// keeps its text.
#[derive(Debug)]
pub enum Json {
    Null,
    Bool(bool),
    Number(String),
    Text(String),
    Array(Vec<Json>),
    Object(Vec<(String, Json)>),
}

/// What a JSON value is: the same tree, of texts and sequences.
pub enum JsonTree {
    Null,
    Bool(bool),
    Number(Seq<char>),
    Text(Seq<char>),
    Array(Seq<JsonTree>),
    Object(Seq<(Seq<char>, JsonTree)>),
}

/// The tree that a JSON value is.
pub open spec fn tree_of(j: Json) -> JsonTree
    decreases j,
{
    match j {
        Json::Null => JsonTree::Null,
        Json::Bool(b) => JsonTree::Bool(b),
        Json::Number(s) => JsonTree::Number(s@),
        Json::Text(s) => JsonTree::Text(s@),
        Json::Array(items) => JsonTree::Array(
            Seq::new(
                items@.len(),
                |i: int|
                    if 0 <= i < items@.len() {
                        tree_of(items@[i])
                    } else {
                        JsonTree::Null
                    },
            ),
        ),
        Json::Object(members) => JsonTree::Object(
            Seq::new(
                members@.len(),
                |i: int|
                    if 0 <= i < members@.len() {
                        (members@[i].0@, tree_of(members@[i].1))
                    } else {
                        (Seq::empty(), JsonTree::Null)
                    },
            ),
        ),
    }
}

impl View for Json {
    type V = JsonTree;

    open spec fn view(&self) -> JsonTree {
        tree_of(*self)
    }
}

/// The value of the first member called `name`, if there is one.
pub open spec fn find_member(members: Seq<(Seq<char>, JsonTree)>, name: Seq<char>) -> Option<
    JsonTree,
>
    decreases members.len(),
{
    if members.len() == 0 {
        None
    } else if members[0].0 == name {
        Some(members[0].1)
    } else {
        find_member(members.drop_first(), name)
    }
}

impl JsonTree {
    pub open spec fn is_object(self) -> bool {
        self is Object
    }

    /// The member `name` of an object; `None` for any other value and for
    /// an object without it.
    pub open spec fn member(self, name: Seq<char>) -> Option<JsonTree> {
        match self {
            JsonTree::Object(members) => find_member(members, name),
            _ => None,
        }
    }

    /// The text of a JSON string; `None` for any other value.
    pub open spec fn text(self) -> Option<Seq<char>> {
        match self {
            JsonTree::Text(s) => Some(s),
            _ => None,
        }
    }

    /// The items of an array; `None` for any other value.
    pub open spec fn items(self) -> Option<Seq<JsonTree>> {
        match self {
            JsonTree::Array(items) => Some(items),
            _ => None,
        }
    }

    /// The text of the member `name`, where the value is an object that has
    /// this member and the member is a string.
    pub open spec fn member_text(self, name: Seq<char>) -> Option<Seq<char>> {
        match self.member(name) {
            Some(v) => v.text(),
            None => None,
        }
    }
}

/// The trees of the values `items`.
pub open spec fn trees(items: Seq<Json>) -> Seq<JsonTree> {
    items.map_values(|j: Json| j@)
}

/// The tree of an array is the sequence of its items' trees, and the
/// tree of an object that of its members' names and trees.
pub proof fn lemma_tree_of(j: Json)
    ensures
        j matches Json::Array(items) ==> j@ == JsonTree::Array(trees(items@)),
        j matches Json::Object(members) ==> j@ is Object && j@->Object_0.len() == members@.len()
            && forall|i: int|
            0 <= i < members@.len() ==> #[trigger] j@->Object_0[i] == (
                members@[i].0@,
                members@[i].1@,
            ),
{
    match j {
        Json::Array(items) => {
            assert(j@->Array_0 =~= trees(items@));
        },
        Json::Object(members) => {
            let all = j@->Object_0;
            assert(all.len() == members@.len());
            assert forall|i: int| 0 <= i < members@.len() implies #[trigger] all[i] == (
                members@[i].0@,
                members@[i].1@,
            ) by {}
        },
        _ => {},
    }
}

/// A copy of `j`.
fn copy_json(j: &Json) -> (r: Json)
    ensures
        r@ == j@,
    decreases j,
{
    match j {
        Json::Null => Json::Null,
        Json::Bool(b) => Json::Bool(*b),
        Json::Number(s) => Json::Number(s.clone()),
        Json::Text(s) => Json::Text(s.clone()),
        Json::Array(items) => {
            let mut out: Vec<Json> = Vec::new();
            let mut i: usize = 0;
            while i < items.len()
                invariant
                    i <= items.len(),
                    j == Json::Array(*items),
                    out@.len() == i,
                    forall|k: int| 0 <= k < i ==> #[trigger] out@[k]@ == items@[k]@,
                decreases items.len() - i,
            {
                assert(decreases_to!(*j => j->Array_0));
                assert(decreases_to!(*items => items[i as int]));
                out.push(copy_json(&items[i]));
                i += 1;
            }
            let r = Json::Array(out);
            proof {
                lemma_tree_of(r);
                lemma_tree_of(*j);
                assert(trees(out@) =~= trees(items@));
            }
            r
        },
        Json::Object(members) => {
            let mut out: Vec<(String, Json)> = Vec::new();
            let mut i: usize = 0;
            while i < members.len()
                invariant
                    i <= members.len(),
                    j == Json::Object(*members),
                    out@.len() == i,
                    forall|k: int|
                        0 <= k < i ==> #[trigger] out@[k].0@ == members@[k].0@ && out@[k].1@
                            == members@[k].1@,
                decreases members.len() - i,
            {
                assert(decreases_to!(*j => j->Object_0));
                assert(decreases_to!(*members => members[i as int]));
                assert(decreases_to!(members[i as int] => members[i as int].1));
                out.push((members[i].0.clone(), copy_json(&members[i].1)));
                i += 1;
            }
            let r = Json::Object(out);
            proof {
                lemma_tree_of(r);
                lemma_tree_of(*j);
                assert(r@->Object_0 =~= j@->Object_0);
            }
            r
        },
    }
}

impl Clone for Json {
    /// A copy that is the same tree.
    fn clone(&self) -> (r: Json)
        ensures
            r@ == self@,
    {
        copy_json(self)
    }
}

impl Json {
    /// A JSON string.
    pub fn string(s: &str) -> (r: Json)
        ensures
            r@ == JsonTree::Text(s@),
    {
        Json::Text(s.to_owned())
    }

    /// Whether this is an object.
    pub fn is_obj(&self) -> (b: bool)
        ensures
            b == self@.is_object(),
    {
        match self {
            Json::Object(_) => true,
            _ => false,
        }
    }

    /// The member `name`.
    pub fn get(&self, name: &str) -> (r: Option<&Json>)
        ensures
            r matches Some(v) ==> self@.member(name@) == Some(v@),
            r is None ==> self@.member(name@) is None,
    {
        match self {
            Json::Object(members) => {
                let wanted = name.to_owned();
                let mut i: usize = 0;
                let ghost all = self@->Object_0;
                proof {
                    lemma_tree_of(*self);
                    assert(all.skip(0) =~= all);
                }
                while i < members.len()
                    invariant
                        i <= members.len(),
                        wanted@ == name@,
                        self@ == JsonTree::Object(all),
                        all.len() == members@.len(),
                        forall|k: int|
                            0 <= k < members@.len() ==> #[trigger] all[k] == (
                                members@[k].0@,
                                members@[k].1@,
                            ),
                        find_member(all, name@) == find_member(all.skip(i as int), name@),
                    decreases members.len() - i,
                {
                    let ghost rest = all.skip(i as int);
                    assert(rest[0] == all[i as int]);
                    assert(all[i as int] == (members@[i as int].0@, members@[i as int].1@));
                    if members[i].0 == wanted {
                        assert(find_member(rest, name@) == Some(rest[0].1));
                        return Some(&members[i].1);
                    }
                    assert(rest.drop_first() =~= all.skip(i + 1));
                    i += 1;
                }
                None
            },
            _ => None,
        }
    }

    /// The text of a JSON string.
    pub fn as_str(&self) -> (r: Option<&str>)
        ensures
            r matches Some(s) ==> self@.text() == Some(s@),
            r is None ==> self@.text() is None,
    {
        match self {
            Json::Text(s) => Some(s.as_str()),
            _ => None,
        }
    }

    /// The items of an array.
    pub fn as_array(&self) -> (r: Option<&Vec<Json>>)
        ensures
            r matches Some(v) ==> self@.items() == Some(trees(v@)),
            r is None ==> self@.items() is None,
    {
        proof {
            lemma_tree_of(*self);
        }
        match self {
            Json::Array(items) => Some(items),
            _ => None,
        }
    }

    /// The text of the member `name`.
    pub fn get_str(&self, name: &str) -> (r: Option<&str>)
        ensures
            r matches Some(s) ==> self@.member_text(name@) == Some(s@),
            r is None ==> self@.member_text(name@) is None,
    {
        match self.get(name) {
            Some(v) => v.as_str(),
            None => None,
        }
    }
}

} // verus!
