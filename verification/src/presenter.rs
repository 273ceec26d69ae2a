//! Records as the screens show them: a book or a content with the people,
//! tags and other records linked to it.

use vstd::prelude::*;
use crate::domain::{Book, Content};
use crate::text::{join, joined, text_eq, views};
use crate::screens::form::{non_blank, non_blank_values};

verus! {

/// A person linked to a record, with the name of their role.
#[derive(Debug, Clone, PartialEq, Eq)]
pub struct PersonRoleView {
    pub person_id: i64,
    pub name: String,
    pub role: String,
}

/// A content as listed under a book.
#[derive(Debug, Clone, PartialEq, Eq)]
pub struct ContentListItem {
    pub id: i64,
    pub title: String,
    pub authors: Vec<String>,
    pub genre: Option<String>,
}

/// A book as listed under a content.
#[derive(Debug, Clone, PartialEq, Eq)]
pub struct LinkedBook {
    pub id: i64,
    pub title: String,
}

/// A book with what is linked to it.
#[derive(Debug, Clone, PartialEq, Eq)]
pub struct BookDetail {
    pub book: Book,
    pub linked_contents: Vec<ContentListItem>,
    pub people_with_roles: Vec<PersonRoleView>,
    pub tags: Vec<String>,
    pub format: Option<String>,
    pub series: Option<String>,
}

/// A content with what is linked to it.
#[derive(Debug, Clone, PartialEq, Eq)]
pub struct ContentDetail {
    pub content: Content,
    pub people_with_roles: Vec<PersonRoleView>,
    pub tags: Vec<String>,
    pub linked_books: Vec<LinkedBook>,
    pub languages: Vec<String>,
    pub genre: Option<String>,
}

/// The names of the people whose role is "author", in their order.
pub open spec fn author_names(people: Seq<PersonRoleView>) -> Seq<Seq<char>>
    decreases people.len(),
{
    if people.len() == 0 {
        Seq::empty()
    } else if people.last().role@ == "author"@ {
        author_names(people.drop_last()).push(people.last().name@)
    } else {
        author_names(people.drop_last())
    }
}

/// The names of the authors among `people` (see `author_names`).
pub fn authors_of(people: &Vec<PersonRoleView>) -> (names: Vec<String>)
    ensures
        crate::text::views(names@) == author_names(people@),
{
    let mut names: Vec<String> = Vec::new();
    let mut i: usize = 0;
    proof {
        assert(people@.take(0) =~= Seq::<PersonRoleView>::empty());
    }
    while i < people.len()
        invariant
            i <= people@.len(),
            crate::text::views(names@) == author_names(people@.take(i as int)),
        decreases people@.len() - i,
    {
        proof {
            assert(people@.take(i + 1).drop_last() =~= people@.take(i as int));
            assert(people@.take(i + 1).last() == people@[i as int]);
        }
        if text_eq(people[i].role.as_str(), "author") {
            let name = people[i].name.clone();
            names.push(name);
            proof {
                assert(crate::text::views(names@) =~= crate::text::views(names@.drop_last()).push(
                    name@,
                ));
            }
        }
        i = i + 1;
    }
    proof {
        assert(people@.take(people@.len() as int) =~= people@);
    }
    names
}


/// The text of an optional value, empty where there is none.
pub open spec fn text_or_empty(o: Option<String>) -> Seq<char> {
    match o {
        Some(s) => s@,
        None => Seq::empty(),
    }
}

/// A place in one line: its city, country and continent that are given and
/// hold more than whitespace, in that order, joined by ", ".
pub open spec fn place_line(
    continent: Option<String>,
    country: Option<String>,
    city: Option<String>,
) -> Seq<char> {
    joined(
        non_blank(seq![text_or_empty(city), text_or_empty(country), text_or_empty(continent)]),
        seq![',', ' '],
    )
}

fn text_or_empty_string(o: &Option<String>) -> (r: String)
    ensures
        r@ == text_or_empty(*o),
{
    match o {
        Some(s) => s.clone(),
        None => String::new(),
    }
}

/// A place in one line (see `place_line`).
pub fn place_display(
    continent: &Option<String>,
    country: &Option<String>,
    city: &Option<String>,
) -> (r: String)
    ensures
        r@ == place_line(*continent, *country, *city),
{
    let values = vec![
        text_or_empty_string(city),
        text_or_empty_string(country),
        text_or_empty_string(continent),
    ];
    proof {
        assert(views(values@) =~= seq![
            text_or_empty(*city),
            text_or_empty(*country),
            text_or_empty(*continent),
        ]);
        reveal_strlit(", ");
        assert(", "@ =~= seq![',', ' ']);
    }
    let parts = non_blank_values(&values);
    join(&parts, ", ")
}
} // verus!
