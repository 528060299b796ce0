//! Plain data carriers with mixed field visibility.
//!
//! Each type keeps one field private, so contracts speak of the fields
//! through spec accessors.

use vstd::prelude::*;

verus! {

/// A record whose private field is reachable only through its getter.
pub struct PublicStruct {
    pub public_field: String,
    private_field: i32,
}

impl PublicStruct {
    /// The characters of the public field.
    pub closed spec fn spec_public_field(&self) -> Seq<char> {
        self.public_field@
    }

    /// The value stored in the private field.
    pub closed spec fn spec_private_field(&self) -> i32 {
        self.private_field
    }

    /// Builds a record around `public_field`; the private field always
    /// starts at 42.
    pub fn new(public_field: String) -> (s: PublicStruct)
        ensures
            s.spec_public_field() == public_field@,
            s.spec_private_field() == 42,
    {
        PublicStruct { public_field, private_field: 42 }
    }

    /// Reads the private field.
    pub fn get_private_field(&self) -> (v: i32)
        ensures
            v == self.spec_private_field(),
    {
        self.private_field
    }
}

/// A sum type with unit, tuple and struct variants.
pub enum PublicEnum {
    Variant1,
    Variant2(String),
    Variant3 { field: i32 },
}

/// A book record; the ISBN is private to the crate.
pub struct Book {
    pub title: String,
    pub author: String,
    pub pages: u32,
    isbn: String,
}

impl Book {
    /// The characters of the title.
    pub closed spec fn spec_title(&self) -> Seq<char> {
        self.title@
    }

    /// The characters of the author's name.
    pub closed spec fn spec_author(&self) -> Seq<char> {
        self.author@
    }

    /// The page count.
    pub closed spec fn spec_pages(&self) -> u32 {
        self.pages
    }

    /// The characters of the stored ISBN.
    pub closed spec fn spec_isbn(&self) -> Seq<char> {
        self.isbn@
    }

    /// A book with the given fields.
    pub fn new(title: String, author: String, pages: u32, isbn: String) -> (b: Book)
        ensures
            b.spec_title() == title@,
            b.spec_author() == author@,
            b.spec_pages() == pages,
            b.spec_isbn() == isbn@,
    {
        Book { title, author, pages, isbn }
    }
}

} // verus!
