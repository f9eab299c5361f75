//! Header fields. A name matches another without regard to ASCII case, a
//! list keeps its fields in order, and a lookup finds the first field whose
//! name matches.

use vstd::prelude::*;
use vstd::utf8::*;

verus! {

/// A header list as contracts see it: the fields in order, each a name and
/// the bytes of its value.
pub type Fields = Seq<(Seq<char>, Seq<u8>)>;

/// `b` with an ASCII upper-case letter turned into its lower-case form.
pub open spec fn fold_byte(b: u8) -> u8 {
    if 65 <= b <= 90 {
        (b + 32) as u8
    } else {
        b
    }
}

/// The UTF-8 bytes of `name` with the ASCII letters in lower case.
pub open spec fn folded_name(name: Seq<char>) -> Seq<u8> {
    let bytes = encode_utf8(name);
    Seq::new(bytes.len(), |i: int| fold_byte(bytes[i]))
}

/// Whether two header names are the same name: equal up to the case of their
/// ASCII letters. Letters outside ASCII are not folded, and nothing asks
/// that a name be a name of the HTTP grammar.
pub open spec fn same_name(a: Seq<char>, b: Seq<char>) -> bool {
    folded_name(a) == folded_name(b)
}

/// `c` with an ASCII upper-case letter turned into its lower-case form.
pub open spec fn fold_char(c: char) -> char {
    if 'A' <= c <= 'Z' {
        ((c as u8) + 32) as char
    } else {
        c
    }
}

/// Names of ASCII characters, as all names of the HTTP grammar are, match
/// exactly when they are equally long and agree character by character up
/// to case.
pub proof fn lemma_same_ascii_name(a: Seq<char>, b: Seq<char>)
    requires
        is_ascii_chars(a),
        is_ascii_chars(b),
    ensures
        same_name(a, b) <==> (a.len() == b.len() && forall|i: int|
            0 <= i < a.len() ==> fold_char(#[trigger] a[i]) == fold_char(b[i])),
{
    is_ascii_chars_encode_utf8(a);
    is_ascii_chars_encode_utf8(b);
    let x = folded_name(a);
    let y = folded_name(b);
    if a.len() == b.len() {
        assert forall|i: int| 0 <= i < a.len() implies (x[i] == y[i] <==> fold_char(
            #[trigger] a[i],
        ) == fold_char(b[i])) by {
            assert(x[i] == fold_byte(a[i] as u8));
            assert(y[i] == fold_byte(b[i] as u8));
        }
        if forall|i: int| 0 <= i < a.len() ==> fold_char(#[trigger] a[i]) == fold_char(b[i]) {
            assert(x =~= y);
        }
        if x == y {
            assert forall|i: int| 0 <= i < a.len() implies fold_char(#[trigger] a[i])
                == fold_char(b[i]) by {
                assert(x[i] == y[i]);
            }
        }
    } else {
        assert(x.len() != y.len());
    }
}

/// The value of the first field at or after `start` whose name matches `name`.
pub open spec fn find_from(fields: Fields, name: Seq<char>, start: int) -> Option<Seq<u8>>
    decreases fields.len() - start,
{
    if start < 0 || start >= fields.len() {
        None
    } else if same_name(fields[start].0, name) {
        Some(fields[start].1)
    } else {
        find_from(fields, name, start + 1)
    }
}

/// The value of the first field whose name matches `name`, if there is one.
pub open spec fn find(fields: Fields, name: Seq<char>) -> Option<Seq<u8>> {
    find_from(fields, name, 0)
}

/// `fields` without the fields whose name matches `name`, the others in
/// their order.
pub open spec fn without_name(fields: Fields, name: Seq<char>) -> Fields {
    fields.filter(|field: (Seq<char>, Seq<u8>)| !same_name(field.0, name))
}

/// `fields` with the one field `name: value` in place of every field of that
/// name.
pub open spec fn with_field(fields: Fields, name: Seq<char>, value: Seq<u8>) -> Fields {
    without_name(fields, name).push((name, value))
}

/// Header names are case-insensitive: two names that differ only in the case
/// of ASCII letters find the same value in every list.
pub proof fn lemma_lookup_ignores_case(fields: Fields, a: Seq<char>, b: Seq<char>)
    requires
        same_name(a, b),
    ensures
        find(fields, a) == find(fields, b),
{
    lemma_find_from_ignores_case(fields, a, b, 0);
}

proof fn lemma_find_from_ignores_case(fields: Fields, a: Seq<char>, b: Seq<char>, start: int)
    requires
        same_name(a, b),
    ensures
        find_from(fields, a, start) == find_from(fields, b, start),
    decreases fields.len() - start,
{
    if 0 <= start < fields.len() {
        lemma_find_from_ignores_case(fields, a, b, start + 1);
    }
}

/// A lookup finds nothing exactly when no field of the list has a matching
/// name.
pub proof fn lemma_absent_iff_no_match(fields: Fields, name: Seq<char>)
    ensures
        find(fields, name) is None <==> forall|i: int|
            0 <= i < fields.len() ==> !same_name(#[trigger] fields[i].0, name),
{
    lemma_find_from_none(fields, name, 0);
}

proof fn lemma_find_from_none(fields: Fields, name: Seq<char>, start: int)
    requires
        0 <= start,
    ensures
        find_from(fields, name, start) is None <==> forall|i: int|
            start <= i < fields.len() ==> !same_name(#[trigger] fields[i].0, name),
    decreases fields.len() - start,
{
    if start < fields.len() {
        lemma_find_from_none(fields, name, start + 1);
    }
}

/// A field added at the end is found only where no earlier field matches.
pub proof fn lemma_find_push(fields: Fields, field: (Seq<char>, Seq<u8>), name: Seq<char>)
    ensures
        find(fields.push(field), name) == match find(fields, name) {
            Some(v) => Some(v),
            None => if same_name(field.0, name) {
                Some(field.1)
            } else {
                None
            },
        },
{
    lemma_find_from_push(fields, field, name, 0);
}

proof fn lemma_find_from_push(
    fields: Fields,
    field: (Seq<char>, Seq<u8>),
    name: Seq<char>,
    start: int,
)
    requires
        0 <= start <= fields.len(),
    ensures
        find_from(fields.push(field), name, start) == match find_from(fields, name, start) {
            Some(v) => Some(v),
            None => if same_name(field.0, name) {
                Some(field.1)
            } else {
                None
            },
        },
    decreases fields.len() - start,
{
    let longer = fields.push(field);
    if start < fields.len() {
        assert(longer[start] == fields[start]);
        lemma_find_from_push(fields, field, name, start + 1);
    } else {
        assert(longer[start] == field);
        assert(find_from(longer, name, start + 1) is None);
    }
}

/// Taking the fields of one name out of a list hides that name and leaves
/// every other lookup as it was.
pub proof fn lemma_find_without_name(fields: Fields, removed: Seq<char>, name: Seq<char>)
    ensures
        find(without_name(fields, removed), name) == if same_name(removed, name) {
            None
        } else {
            find(fields, name)
        },
    decreases fields.len(),
{
    reveal(Seq::filter);
    if fields.len() > 0 {
        let front = fields.drop_last();
        let last = fields.last();
        assert(fields =~= front.push(last));
        lemma_find_without_name(front, removed, name);
        lemma_find_push(front, last, name);
        lemma_find_push(without_name(front, removed), last, name);
    }
}

/// Setting a field makes its value the one found under its name, in any
/// case, and leaves every other lookup as it was.
pub proof fn lemma_find_with_field(
    fields: Fields,
    set: Seq<char>,
    value: Seq<u8>,
    name: Seq<char>,
)
    ensures
        find(with_field(fields, set, value), name) == if same_name(set, name) {
            Some(value)
        } else {
            find(fields, name)
        },
{
    lemma_find_without_name(fields, set, name);
    lemma_find_push(without_name(fields, set), (set, value), name);
}

/// One header field: a name and the bytes of its value.
#[derive(Debug, Clone, PartialEq, Eq)]
pub struct HeaderField {
    pub name: String,
    pub value: Vec<u8>,
}

impl View for HeaderField {
    type V = (Seq<char>, Seq<u8>);

    open spec fn view(&self) -> (Seq<char>, Seq<u8>) {
        (self.name@, self.value@)
    }
}

/// The header fields of a message, in order. A name may occur more than
/// once; a lookup sees the first occurrence.
#[derive(Debug, Clone, PartialEq, Eq)]
pub struct HeaderList {
    pub fields: Vec<HeaderField>,
}

impl View for HeaderList {
    type V = Fields;

    open spec fn view(&self) -> Fields {
        Seq::new(self.fields@.len(), |i: int| self.fields@[i]@)
    }
}

fn fold(b: u8) -> (folded: u8)
    ensures
        folded == fold_byte(b),
{
    if 65 <= b && b <= 90 {
        b + 32
    } else {
        b
    }
}

/// Whether `a` and `b` are the same header name, that is, equal up to the
/// case of their ASCII letters.
pub fn names_match(a: &str, b: &str) -> (same: bool)
    ensures
        same == same_name(a@, b@),
{
    let x = a.as_bytes();
    let y = b.as_bytes();
    if x.len() != y.len() {
        assert(folded_name(a@).len() != folded_name(b@).len());
        return false;
    }
    let mut i: usize = 0;
    while i < x.len()
        invariant
            i <= x.len(),
            x.len() == y.len(),
            x@ == encode_utf8(a@),
            y@ == encode_utf8(b@),
            forall|j: int| 0 <= j < i ==> fold_byte(x@[j]) == fold_byte(y@[j]),
        decreases x.len() - i,
    {
        if fold(x[i]) != fold(y[i]) {
            assert(folded_name(a@)[i as int] != folded_name(b@)[i as int]);
            return false;
        }
        i += 1;
    }
    assert(folded_name(a@) =~= folded_name(b@));
    true
}

impl HeaderList {
    /// A list without fields.
    pub fn new() -> (list: HeaderList)
        ensures
            list@ == Fields::empty(),
    {
        let list = HeaderList { fields: Vec::new() };
        assert(list@ =~= Fields::empty());
        list
    }

    /// The number of fields.
    pub fn len(&self) -> (n: usize)
        ensures
            n == self@.len(),
    {
        self.fields.len()
    }

    /// The bytes of the first field whose name matches `name`, or `None`
    /// where the list holds no such field.
    pub fn get(&self, name: &str) -> (value: Option<&[u8]>)
        ensures
            match value {
                Some(v) => find(self@, name@) == Some(v@),
                None => find(self@, name@) is None,
            },
    {
        let mut i: usize = 0;
        while i < self.fields.len()
            invariant
                i <= self.fields.len(),
                find(self@, name@) == find_from(self@, name@, i as int),
            decreases self.fields.len() - i,
        {
            if names_match(self.fields[i].name.as_str(), name) {
                return Some(self.fields[i].value.as_slice());
            }
            i += 1;
        }
        None
    }

    /// Adds the field `name: value` at the end and keeps every field that is
    /// there.
    pub fn append(&mut self, name: String, value: Vec<u8>)
        ensures
            final(self)@ == old(self)@.push((name@, value@)),
    {
        self.fields.push(HeaderField { name, value });
        assert(self@ =~= old(self)@.push((name@, value@)));
    }

    /// Sets the field `name` to `value`: every field of that name leaves the
    /// list, and `name: value` is added at the end.
    pub fn set(&mut self, name: String, value: Vec<u8>)
        ensures
            final(self)@ == with_field(old(self)@, name@, value@),
    {
        let ghost before = self@;
        let ghost mut seen: int = 0;
        let mut i: usize = 0;
        proof {
            reveal(Seq::filter);
            assert(before.take(0) =~= Fields::empty());
        }
        while i < self.fields.len()
            invariant
                0 <= seen <= before.len(),
                i <= self.fields.len(),
                self.fields.len() - i == before.len() - seen,
                self@.take(i as int) == without_name(before.take(seen), name@),
                self@.skip(i as int) == before.skip(seen),
            decreases before.len() - seen,
        {
            let ghost current = self@;
            proof {
                reveal(Seq::filter);
                assert(current[i as int] == current.skip(i as int)[0]);
                assert(before[seen] == before.skip(seen)[0]);
                assert(before.take(seen + 1).drop_last() =~= before.take(seen));
                assert(before.take(seen + 1).last() == before[seen]);
            }
            let ghost rest = before.skip(seen + 1);
            if names_match(self.fields[i].name.as_str(), name.as_str()) {
                self.fields.remove(i);
                proof {
                    let tail = self@.skip(i as int);
                    assert(self@.take(i as int) =~= current.take(i as int));
                    assert forall|j: int| 0 <= j < tail.len() implies tail[j] == rest[j] by {
                        assert(current.skip(i as int)[j + 1] == before.skip(seen)[j + 1]);
                    }
                    assert(tail =~= rest);
                }
            } else {
                proof {
                    let tail = self@.skip(i as int + 1);
                    assert(self@.take(i as int + 1) =~= self@.take(i as int).push(
                        current[i as int],
                    ));
                    assert forall|j: int| 0 <= j < tail.len() implies tail[j] == rest[j] by {
                        assert(current.skip(i as int)[j + 1] == before.skip(seen)[j + 1]);
                    }
                    assert(tail =~= rest);
                }
                i += 1;
            }
            proof {
                seen = seen + 1;
            }
        }
        proof {
            assert(self@.take(i as int) =~= self@);
            assert(before.take(seen) =~= before);
        }
        let ghost kept = self@;
        self.fields.push(HeaderField { name, value });
        assert(self@ =~= kept.push((name@, value@)));
    }
}

} // verus!
