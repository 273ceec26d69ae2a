//! The lists of books and of contents, shown as tables.

use vstd::prelude::*;
use crate::presenter::{author_names, authors_of, BookDetail, ContentDetail};
use crate::text::{join, joined, views};
use crate::widgets::table::{TableSelection, TableWidget};

verus! {

/// The text of an optional value, empty where there is none.
pub open spec fn text_or_blank(o: Option<String>) -> Seq<char> {
    match o {
        Some(s) => s@,
        None => Seq::empty(),
    }
}

/// `o`'s text, or an empty string (`unwrap_or_default`).
pub fn or_blank(o: &Option<String>) -> (r: String)
    ensures
        r@ == text_or_blank(*o),
{
    match o {
        Some(s) => s.clone(),
        None => String::new(),
    }
}

/// The authors' names separated by ", ".
pub open spec fn authors_cell(people: Seq<crate::presenter::PersonRoleView>) -> Seq<char> {
    joined(author_names(people), seq![',', ' '])
}

/// The row of a book: title, authors, format, series.
pub open spec fn book_row(d: BookDetail) -> Seq<Seq<char>> {
    seq![
        d.book.title@,
        authors_cell(d.people_with_roles@),
        text_or_blank(d.format),
        text_or_blank(d.series),
    ]
}

/// The row of a content: title, authors, genre.
pub open spec fn content_row(d: ContentDetail) -> Seq<Seq<char>> {
    seq![d.content.title@, authors_cell(d.people_with_roles@), text_or_blank(d.genre)]
}

/// The headers of the books table.
pub open spec fn book_headers() -> Seq<Seq<char>> {
    seq!["Title"@, "Authors"@, "Format"@, "Series"@]
}

/// The headers of the contents table.
pub open spec fn content_headers() -> Seq<Seq<char>> {
    seq!["Titolo"@, "Autori"@, "Genere"@]
}

fn authors_text(people: &Vec<crate::presenter::PersonRoleView>) -> (r: String)
    ensures
        r@ == authors_cell(people@),
{
    let names = authors_of(people);
    proof {
        reveal_strlit(", ");
        assert(", "@ =~= seq![',', ' ']);
    }
    join(&names, ", ")
}

fn text_vec(items: Vec<&str>) -> (r: Vec<String>)
    ensures
        r@.len() == items@.len(),
        forall|i: int| 0 <= i < items@.len() ==> #[trigger] r@[i]@ == items@[i]@,
{
    let mut r: Vec<String> = Vec::new();
    let mut i: usize = 0;
    while i < items.len()
        invariant
            i <= items@.len(),
            r@.len() == i,
            forall|j: int| 0 <= j < i ==> #[trigger] r@[j]@ == items@[j]@,
        decreases items@.len() - i,
    {
        let mut t = String::new();
        t.append(items[i]);
        r.push(t);
        i = i + 1;
    }
    r
}

/// The books, their table and the selected row.
#[derive(Debug, Clone, PartialEq, Eq)]
pub struct BookListScreen {
    pub table: TableWidget,
    pub selection: TableSelection,
    pub items: Vec<BookDetail>,
}

impl BookListScreen {
    /// A row per book (see `book_row`), under the headers Title, Authors,
    /// Format and Series; the first row selected.
    pub fn new(items: Vec<BookDetail>) -> (s: BookListScreen)
        ensures
            s.items@ == items@,
            s.selection.selected == 0,
            views(s.table.headers@) == book_headers(),
            s.table.rows@.len() == items@.len(),
            forall|i: int|
                0 <= i < items@.len() ==> views(#[trigger] s.table.rows@[i]@) == book_row(
                    items@[i],
                ),
    {
        let mut rows: Vec<Vec<String>> = Vec::new();
        let mut i: usize = 0;
        while i < items.len()
            invariant
                i <= items@.len(),
                rows@.len() == i,
                forall|j: int|
                    0 <= j < i ==> views(#[trigger] rows@[j]@) == book_row(items@[j]),
            decreases items@.len() - i,
        {
            let d = &items[i];
            let mut row: Vec<String> = Vec::new();
            row.push(d.book.title.clone());
            row.push(authors_text(&d.people_with_roles));
            row.push(or_blank(&d.format));
            row.push(or_blank(&d.series));
            proof {
                assert(views(row@) =~= book_row(items@[i as int]));
            }
            rows.push(row);
            i = i + 1;
        }
        let headers = text_vec(vec!["Title", "Authors", "Format", "Series"]);
        proof {
            assert(views(headers@) =~= book_headers());
        }
        BookListScreen { table: TableWidget::new(headers, rows), selection: TableSelection::new(), items }
    }

    /// The id of the selected book, if a row is selected.
    pub fn selected_id(&self) -> (id: Option<i64>)
        ensures
            id == (if self.selection.selected < self.items@.len() {
                Some(self.items@[self.selection.selected as int].book.id)
            } else {
                None
            }),
    {
        let index = self.selection.selected_index();
        if index < self.items.len() {
            Some(self.items[index].book.id)
        } else {
            None
        }
    }
}

/// The contents, their table and the selected row.
#[derive(Debug, Clone, PartialEq, Eq)]
pub struct ContentListScreen {
    pub table: TableWidget,
    pub selection: TableSelection,
    pub items: Vec<ContentDetail>,
}

impl ContentListScreen {
    /// A row per content (see `content_row`), under the headers Titolo,
    /// Autori and Genere; the first row selected.
    pub fn new(items: Vec<ContentDetail>) -> (s: ContentListScreen)
        ensures
            s.items@ == items@,
            s.selection.selected == 0,
            views(s.table.headers@) == content_headers(),
            s.table.rows@.len() == items@.len(),
            forall|i: int|
                0 <= i < items@.len() ==> views(#[trigger] s.table.rows@[i]@) == content_row(
                    items@[i],
                ),
    {
        let mut rows: Vec<Vec<String>> = Vec::new();
        let mut i: usize = 0;
        while i < items.len()
            invariant
                i <= items@.len(),
                rows@.len() == i,
                forall|j: int|
                    0 <= j < i ==> views(#[trigger] rows@[j]@) == content_row(items@[j]),
            decreases items@.len() - i,
        {
            let d = &items[i];
            let mut row: Vec<String> = Vec::new();
            row.push(d.content.title.clone());
            row.push(authors_text(&d.people_with_roles));
            row.push(or_blank(&d.genre));
            proof {
                assert(views(row@) =~= content_row(items@[i as int]));
            }
            rows.push(row);
            i = i + 1;
        }
        let headers = text_vec(vec!["Titolo", "Autori", "Genere"]);
        proof {
            assert(views(headers@) =~= content_headers());
        }
        ContentListScreen {
            table: TableWidget::new(headers, rows),
            selection: TableSelection::new(),
            items,
        }
    }

    /// The id of the selected content, if a row is selected.
    pub fn selected_id(&self) -> (id: Option<i64>)
        ensures
            id == (if self.selection.selected < self.items@.len() {
                Some(self.items@[self.selection.selected as int].content.id)
            } else {
                None
            }),
    {
        let index = self.selection.selected_index();
        if index < self.items.len() {
            Some(self.items[index].content.id)
        } else {
            None
        }
    }
}

} // verus!
