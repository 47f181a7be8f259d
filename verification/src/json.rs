//! The document model: stored messages as trees of plain values.
//!
//! A [`Json`] holds what a JSON document holds and nothing of how it was
//! written. Contracts speak of a document through its view, a [`JsonView`],
//! in which texts are sequences of characters and lists are sequences.

use vstd::prelude::*;
use vstd::string::*;

verus! {

/// A number as a JSON document holds it: a whole number in either of the two
/// integer forms, or a binary floating-point number kept as its IEEE 754
/// double-precision bit pattern.
#[derive(Clone, Copy, Debug, PartialEq, Eq, Structural)]
pub enum Number {
    PosInt(u64),
    NegInt(i64),
    Float(u64),
}

impl Number {
    /// The whole number held, if the number is in one of the integer forms.
    pub open spec fn integer(self) -> Option<int> {
        match self {
            Number::PosInt(v) => Some(v as int),
            Number::NegInt(v) => Some(v as int),
            Number::Float(_) => None,
        }
    }

    /// The number as a `u16`: whole and within the range of the type.
    pub open spec fn to_u16(self) -> Option<u16> {
        match self.integer() {
            Some(v) if 0 <= v <= u16::MAX => Some(v as u16),
            _ => None,
        }
    }

    /// The number as a `u64`: whole and within the range of the type.
    pub open spec fn to_u64(self) -> Option<u64> {
        match self.integer() {
            Some(v) if 0 <= v <= u64::MAX => Some(v as u64),
            _ => None,
        }
    }

    /// The number as an `i64`: whole and within the range of the type.
    pub open spec fn to_i64(self) -> Option<i64> {
        match self.integer() {
            Some(v) if i64::MIN <= v <= i64::MAX => Some(v as i64),
            _ => None,
        }
    }

    /// Converts to `u16`; `None` for a floating-point number and for a whole
    /// number outside `0..=65535`.
    pub fn as_u16(&self) -> (r: Option<u16>)
        ensures
            r == self.to_u16(),
    {
        match *self {
            Number::PosInt(v) => if v <= 0xffff {
                Some(v as u16)
            } else {
                None
            },
            Number::NegInt(v) => if 0 <= v && v <= 0xffff {
                Some(v as u16)
            } else {
                None
            },
            Number::Float(_) => None,
        }
    }

    /// Converts to `u64`; `None` for a floating-point number and for a
    /// negative whole number.
    pub fn as_u64(&self) -> (r: Option<u64>)
        ensures
            r == self.to_u64(),
    {
        match *self {
            Number::PosInt(v) => Some(v),
            Number::NegInt(v) => if 0 <= v {
                Some(v as u64)
            } else {
                None
            },
            Number::Float(_) => None,
        }
    }

    /// Converts to `i64`; `None` for a floating-point number and for a whole
    /// number above `i64::MAX`.
    pub fn as_i64(&self) -> (r: Option<i64>)
        ensures
            r == self.to_i64(),
    {
        match *self {
            Number::PosInt(v) => if v <= 0x7fff_ffff_ffff_ffff {
                Some(v as i64)
            } else {
                None
            },
            Number::NegInt(v) => Some(v),
            Number::Float(_) => None,
        }
    }
}

/// A JSON document.
#[derive(Debug, PartialEq)]
pub enum Json {
    Null,
    Bool(bool),
    Number(Number),
    Text(String),
    Array(Vec<Json>),
    Object(Vec<Member>),
}

/// One member of a JSON object.
#[derive(Debug, PartialEq)]
pub struct Member {
    pub key: String,
    pub value: Json,
}

/// The mathematical content of a [`Json`].
pub enum JsonView {
    Null,
    Bool(bool),
    Number(Number),
    Text(Seq<char>),
    /// The items of an array, in their order.
    Array(Seq<JsonView>),
    /// The members of an object, in the order of the document.
    Object(Seq<MemberView>),
}

/// The mathematical content of a [`Member`].
pub struct MemberView {
    pub key: Seq<char>,
    pub value: JsonView,
}

impl View for Json {
    type V = JsonView;

    open spec fn view(&self) -> JsonView
        decreases self,
    {
        match self {
            Json::Null => JsonView::Null,
            Json::Bool(b) => JsonView::Bool(*b),
            Json::Number(n) => JsonView::Number(*n),
            Json::Text(t) => JsonView::Text(t@),
            Json::Array(items) => JsonView::Array(
                Seq::new(
                    items@.len(),
                    |i: int|
                        if 0 <= i < items@.len() {
                            proof {
                                broadcast use vstd::std_specs::vec::group_vec_axioms;
                                broadcast use vstd::seq::axiom_seq_index_decreases;

                            }
                            items@[i].view()
                        } else {
                            JsonView::Null
                        },
                ),
            ),
            Json::Object(members) => JsonView::Object(
                Seq::new(
                    members@.len(),
                    |i: int|
                        if 0 <= i < members@.len() {
                            proof {
                                broadcast use vstd::std_specs::vec::group_vec_axioms;
                                broadcast use vstd::seq::axiom_seq_index_decreases;

                            }
                            MemberView { key: members@[i].key@, value: members@[i].value.view() }
                        } else {
                            MemberView { key: Seq::empty(), value: JsonView::Null }
                        },
                ),
            ),
        }
    }
}

impl View for Member {
    type V = MemberView;

    open spec fn view(&self) -> MemberView {
        MemberView { key: self.key@, value: self.value@ }
    }
}

/// The content of a list of documents, item by item.
pub open spec fn items_view(items: Seq<Json>) -> Seq<JsonView> {
    items.map_values(|item: Json| item@)
}

/// The content of a list of members, member by member.
pub open spec fn members_view(members: Seq<Member>) -> Seq<MemberView> {
    members.map_values(|member: Member| member@)
}

/// The content of an array is the content of its items, and the content of
/// an object that of its members.
pub proof fn lemma_view_parts(doc: Json)
    ensures
        doc matches Json::Array(items) ==> doc@ == JsonView::Array(items_view(items@)),
        doc matches Json::Object(members) ==> doc@ == JsonView::Object(members_view(members@)),
{
    reveal_with_fuel(<Json as View>::view, 2);
    match doc {
        Json::Array(items) => {
            assert(doc@->Array_0 =~= items_view(items@));
        },
        Json::Object(members) => {
            assert(doc@->Object_0 =~= members_view(members@));
        },
        _ => {},
    }
}

/// What looking a field up among the members of an object finds.
#[derive(Debug)]
pub enum Lookup<'a> {
    /// No member carries one of the field's names.
    Missing,
    /// Exactly one member carries one of the field's names; this is its value.
    Found(&'a Json),
    /// Two or more members carry a name of the field.
    Repeated,
}

/// The mathematical content of a [`Lookup`].
pub enum LookupView {
    Missing,
    Found(JsonView),
    Repeated,
}

impl<'a> View for Lookup<'a> {
    type V = LookupView;

    open spec fn view(&self) -> LookupView {
        match self {
            Lookup::Missing => LookupView::Missing,
            Lookup::Found(value) => LookupView::Found(value@),
            Lookup::Repeated => LookupView::Repeated,
        }
    }
}

/// Whether `key` is `name`, or is `alias` where the field has one.
pub open spec fn names(key: Seq<char>, name: Seq<char>, alias: Option<Seq<char>>) -> bool {
    key == name || alias == Some(key)
}

/// The members of `members` that carry a name of the field, in document order.
pub open spec fn hits(members: Seq<MemberView>, name: Seq<char>, alias: Option<Seq<char>>) -> Seq<
    MemberView,
> {
    members.filter(|m: MemberView| names(m.key, name, alias))
}

/// The outcome of looking up the field called `name`, or else `alias`, among
/// `members`.
pub open spec fn lookup(members: Seq<MemberView>, name: Seq<char>, alias: Option<Seq<char>>) -> LookupView {
    let found = hits(members, name, alias);
    if found.len() == 0 {
        LookupView::Missing
    } else if found.len() == 1 {
        LookupView::Found(found[0].value)
    } else {
        LookupView::Repeated
    }
}

/// The view of a field's second name, where it has one.
pub open spec fn alias_view(alias: Option<&str>) -> Option<Seq<char>> {
    match alias {
        Some(a) => Some(a@),
        None => None,
    }
}

/// Looks up the field called `name`, or else `alias`, among `members`.
pub fn find<'a>(members: &'a Vec<Member>, name: &str, alias: Option<&str>) -> (r: Lookup<'a>)
    ensures
        r@ == lookup(members_view(members@), name@, alias_view(alias)),
{
    let first = String::from_str(name);
    let second = match alias {
        Some(a) => Some(String::from_str(a)),
        None => None,
    };
    let mut found = Lookup::Missing;
    let mut i: usize = 0;
    let ghost all = members_view(members@);
    proof {
    }
    while i < members.len()
        invariant
            i <= members.len(),
            all == members_view(members@),
            first@ == name@,
            second.is_some() == alias.is_some(),
            second matches Some(s) ==> alias matches Some(a) && s@ == a@,
            found@ == lookup(all.take(i as int), name@, alias_view(alias)),
        decreases members.len() - i,
    {
        let member = &members[i];
        let hit = member.key == first || match &second {
            Some(s) => member.key == *s,
            None => false,
        };
        proof {
            reveal(Seq::filter);
            assert(all.take(i + 1).drop_last() =~= all.take(i as int));
        }
        if hit {
            found = match found {
                Lookup::Missing => Lookup::Found(&member.value),
                _ => Lookup::Repeated,
            };
        }
        i += 1;
    }
    proof {
        assert(all.take(i as int) =~= all);
    }
    found
}

/// A member that carries none of the names of a field does not change what
/// looking the field up finds, wherever among the members it stands.
pub proof fn lemma_lookup_passes_over(
    members: Seq<MemberView>,
    i: int,
    other: MemberView,
    name: Seq<char>,
    alias: Option<Seq<char>>,
)
    requires
        0 <= i <= members.len(),
        !names(other.key, name, alias),
    ensures
        lookup(members.insert(i, other), name, alias) == lookup(members, name, alias),
{
    let carries = |m: MemberView| names(m.key, name, alias);
    let front = members.take(i);
    let back = members.skip(i);
    assert(members =~= front + back);
    assert(members.insert(i, other) =~= front + seq![other] + back);
    Seq::filter_distributes_over_add(front, back, carries);
    Seq::filter_distributes_over_add(front + seq![other], back, carries);
    Seq::filter_distributes_over_add(front, seq![other], carries);
    assert(seq![other].filter(carries) =~= Seq::<MemberView>::empty()) by {
        reveal_with_fuel(Seq::filter, 2);
    }
}

proof fn lemma_hits_names_alike(members: Seq<MemberView>, name: Seq<char>, alias: Seq<char>)
    ensures
        hits(members, name, Some(alias)) == hits(members, alias, Some(name)),
    decreases members.len(),
{
    reveal(Seq::filter);
    if members.len() > 0 {
        lemma_hits_names_alike(members.drop_last(), name, alias);
    }
}

/// The two names of a field stand for it alike: which of them is called the
/// name and which the alias makes no difference to what a lookup finds.
pub proof fn lemma_lookup_names_alike(
    members: Seq<MemberView>,
    name: Seq<char>,
    alias: Seq<char>,
)
    ensures
        lookup(members, name, Some(alias)) == lookup(members, alias, Some(name)),
{
    lemma_hits_names_alike(members, name, alias);
}

} // verus!
