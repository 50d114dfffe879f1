//! Books that are owned, borrowed and shelved.

use vstd::prelude::*;

verus! {

/// A book.
pub struct Book {
    pub title: String,
    pub pages: usize,
}

/// Two borrowed books.
pub struct Library<'a> {
    pub book1: &'a Book,
    pub book2: &'a Book,
}

/// The pages of a book that is given away.
pub fn take_ownership(book: Book) -> (pages: usize)
    ensures
        pages == book.pages,
{
    book.pages
}

/// The pages of a book that is lent.
pub fn borrow_book(book: &Book) -> (pages: usize)
    ensures
        pages == book.pages,
{
    book.pages
}

/// A library of the two books.
pub fn make_library<'a>(b1: &'a Book, b2: &'a Book) -> (library: Library<'a>)
    ensures
        library.book1 == b1,
        library.book2 == b2,
{
    Library { book1: b1, book2: b2 }
}

/// The book with `extra` pages more, which must fit `usize`.
pub fn add_pages(book: Book, extra: usize) -> (longer: Book)
    requires
        book.pages + extra <= usize::MAX,
    ensures
        longer.pages == book.pages + extra,
        longer.title == book.title,
{
    let mut book = book;
    book.pages += extra;
    book
}

/// Adds `extra` pages to the book, which must fit `usize`.
pub fn add_pages_existing_book(book: &mut Book, extra: usize)
    requires
        old(book).pages + extra <= usize::MAX,
    ensures
        final(book).pages == old(book).pages + extra,
        final(book).title == old(book).title,
{
    book.pages += extra;
}

} // verus!
