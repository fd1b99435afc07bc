use vstd::prelude::*;

verus! {

/// Length of a generated identifier: a UUID in hyphenated form.
pub const GENERATED_ID_LEN: usize = 36;

/// Whether `c` is a lowercase hexadecimal digit.
pub open spec fn is_lower_hex(c: char) -> bool {
    ('0' <= c && c <= '9') || ('a' <= c && c <= 'f')
}

/// Whether `s` is the text of a random (version 4) UUID: 32 lowercase hex
/// digits in groups of 8, 4, 4, 4 and 12 joined by `-`, the version digit `4`
/// first in the third group.
pub open spec fn is_random_uuid_text(s: Seq<char>) -> bool {
    &&& s.len() == GENERATED_ID_LEN
    &&& s[8] == '-' && s[13] == '-' && s[18] == '-' && s[23] == '-'
    &&& s[14] == '4'
    &&& forall|i: int| 0 <= i < GENERATED_ID_LEN && i != 8 && i != 13 && i != 18 && i != 23
        ==> is_lower_hex(#[trigger] s[i])
}

/// Relies on `uuid::Uuid::new_v4`, whose text is the lowercase hyphenated form
/// with the version digit set to 4.
#[verifier::external_body]
fn random_uuid_text() -> (r: String)
    ensures
        is_random_uuid_text(r@),
{
    uuid::Uuid::new_v4().to_string()
}

/// An opaque identifier.
#[derive(Debug)]
pub struct Id {
    content: String,
}

impl View for Id {
    type V = Seq<char>;

    closed spec fn view(&self) -> Seq<char> {
        self.content@
    }
}

impl Id {
    /// The identifier written `content`.
    pub fn new(content: &str) -> (r: Id)
        ensures
            r@ == content@,
    {
        Id { content: content.to_owned() }
    }

    /// A fresh random identifier: a version 4 UUID in hyphenated form.
    pub fn generate() -> (r: Id)
        ensures
            is_random_uuid_text(r@),
    {
        Id { content: random_uuid_text() }
    }

    pub fn get(&self) -> (r: &str)
        ensures
            r@ == self@,
    {
        self.content.as_str()
    }
}

impl Clone for Id {
    fn clone(&self) -> (r: Self)
        ensures
            r == *self,
    {
        Id { content: self.content.clone() }
    }
}

impl PartialEq for Id {
    fn eq(&self, other: &Id) -> (r: bool)
        ensures
            r == (self@ == other@),
    {
        self.content == other.content
    }
}

impl vstd::std_specs::cmp::PartialEqSpecImpl for Id {
    open spec fn obeys_eq_spec() -> bool {
        true
    }

    open spec fn eq_spec(&self, other: &Id) -> bool {
        self@ == other@
    }
}

impl Eq for Id {
}

/// Source of fresh identifiers for new objects.
pub struct IdSuppier;

impl IdSuppier {
    /// A fresh random identifier.
    pub fn next(&self) -> (r: Id)
        ensures
            is_random_uuid_text(r@),
    {
        Id::generate()
    }
}

/// A value stored together with the identifier it is kept under.
pub struct WithId<T> {
    id: String,
    content: T,
}

impl<T> WithId<T> {
    pub closed spec fn spec_id(&self) -> Seq<char> {
        self.id@
    }

    pub closed spec fn spec_content(&self) -> T {
        self.content
    }

    pub fn new(id: String, content: T) -> (r: WithId<T>)
        ensures
            r.spec_id() == id@,
            r.spec_content() == content,
    {
        WithId { id, content }
    }

    pub fn id(&self) -> (r: &str)
        ensures
            r@ == self.spec_id(),
    {
        self.id.as_str()
    }

    pub fn content(&self) -> (r: &T)
        ensures
            *r == self.spec_content(),
    {
        &self.content
    }

    pub fn content_mut(&mut self) -> (r: &mut T)
        ensures
            *r == old(self).spec_content(),
            final(self).spec_id() == old(self).spec_id(),
            final(self).spec_content() == *final(r),
    {
        &mut self.content
    }
}

} // verus!
