use std::cmp::Ordering;

use vstd::prelude::*;

use crate::args::UserRole;
use crate::text::str_chars;

verus! {

/// The lowercase mapping of a character, as `char::to_lowercase` yields it: one or more
/// characters.
pub uninterp spec fn unicode_lowercase(c: char) -> Seq<char>;

/// `char::to_lowercase`, collected. Its documentation promises at least one character, and
/// that an ASCII character maps to its ASCII lowercase alone.
#[verifier::external_body]
fn lowercase_chars(c: char) -> (v: Vec<char>)
    ensures
        v@ == unicode_lowercase(c),
        v@.len() >= 1,
        ('A' <= c <= 'Z') ==> v@ == seq![((c as u32) + 32) as char],
        (c as u32) < 128 && !('A' <= c <= 'Z') ==> v@ == seq![c],
{
    c.to_lowercase().collect()
}

/// Compares two character sequences by code point, a proper prefix first: -1, 0 or 1.
pub open spec fn code_order(a: Seq<char>, b: Seq<char>) -> int
    decreases a.len(),
{
    if a.len() == 0 && b.len() == 0 {
        0
    } else if b.len() == 0 {
        1
    } else if a.len() == 0 {
        -1
    } else if (a[0] as u32) < (b[0] as u32) {
        -1
    } else if (b[0] as u32) < (a[0] as u32) {
        1
    } else {
        code_order(a.drop_first(), b.drop_first())
    }
}

/// Compares two strings character by character, each compared through its lowercase
/// mapping, a proper prefix first: -1, 0 or 1.
pub open spec fn nocase_order(x: Seq<char>, y: Seq<char>) -> int
    decreases x.len(),
{
    if x.len() == 0 && y.len() == 0 {
        0
    } else if y.len() == 0 {
        1
    } else if x.len() == 0 {
        -1
    } else {
        let o = code_order(unicode_lowercase(x[0]), unicode_lowercase(y[0]));
        if o != 0 {
            o
        } else {
            nocase_order(x.drop_first(), y.drop_first())
        }
    }
}

/// The ASCII lowercase of a character: `'A'` to `'Z'` become `'a'` to `'z'`, any other
/// character stays.
pub open spec fn ascii_lower(c: char) -> char {
    if 'A' <= c <= 'Z' {
        ((c as u32) + 32) as char
    } else {
        c
    }
}

/// Whether every character is ASCII.
pub open spec fn all_ascii(s: Seq<char>) -> bool {
    forall|i: int| 0 <= i < s.len() ==> (#[trigger] s[i] as u32) < 128
}

/// Compares two strings by their ASCII lowercase, code point by code point, a proper prefix
/// first: -1, 0 or 1. On ASCII strings this is the order of their `to_ascii_lowercase`.
pub open spec fn ascii_nocase_order(x: Seq<char>, y: Seq<char>) -> int
    decreases x.len(),
{
    if x.len() == 0 && y.len() == 0 {
        0
    } else if y.len() == 0 {
        1
    } else if x.len() == 0 {
        -1
    } else if (ascii_lower(x[0]) as u32) < (ascii_lower(y[0]) as u32) {
        -1
    } else if (ascii_lower(y[0]) as u32) < (ascii_lower(x[0]) as u32) {
        1
    } else {
        ascii_nocase_order(x.drop_first(), y.drop_first())
    }
}

/// Compares two character vectors by code point from the given positions on.
fn code_order_from(a: &Vec<char>, b: &Vec<char>) -> (r: i8)
    ensures
        r as int == code_order(a@, b@),
{
    let mut i: usize = 0;
    assert(a@.subrange(0, a@.len() as int) =~= a@);
    assert(b@.subrange(0, b@.len() as int) =~= b@);
    while i < a.len() && i < b.len()
        invariant
            i <= a.len(),
            i <= b.len(),
            code_order(a@, b@) == code_order(a@.subrange(i as int, a@.len() as int), b@.subrange(i as int, b@.len() as int)),
        decreases a.len() - i,
    {
        let x: u32 = a[i] as u32;
        let y: u32 = b[i] as u32;
        let ghost sa = a@.subrange(i as int, a@.len() as int);
        let ghost sb = b@.subrange(i as int, b@.len() as int);
        assert(sa[0] == a@[i as int]);
        assert(sb[0] == b@[i as int]);
        if x < y {
            return -1;
        }
        if y < x {
            return 1;
        }
        assert(sa.drop_first() =~= a@.subrange(i + 1, a@.len() as int));
        assert(sb.drop_first() =~= b@.subrange(i + 1, b@.len() as int));
        i = i + 1;
    }
    if i < a.len() {
        1
    } else if i < b.len() {
        -1
    } else {
        0
    }
}

/// The order of two strings ignoring case: -1, 0 or 1.
fn nocase_order_exec(x: &str, y: &str) -> (r: i8)
    ensures
        r as int == nocase_order(x@, y@),
        all_ascii(x@) && all_ascii(y@) ==> r as int == ascii_nocase_order(x@, y@),
{
    let a = str_chars(x);
    let b = str_chars(y);
    let mut i: usize = 0;
    assert(a@.subrange(0, a@.len() as int) =~= a@);
    assert(b@.subrange(0, b@.len() as int) =~= b@);
    while i < a.len() && i < b.len()
        invariant
            i <= a.len(),
            i <= b.len(),
            a@ == x@,
            b@ == y@,
            nocase_order(x@, y@) == nocase_order(a@.subrange(i as int, a@.len() as int), b@.subrange(i as int, b@.len() as int)),
            all_ascii(x@) && all_ascii(y@) ==> ascii_nocase_order(x@, y@) == ascii_nocase_order(
                a@.subrange(i as int, a@.len() as int),
                b@.subrange(i as int, b@.len() as int),
            ),
        decreases a.len() - i,
    {
        let ghost sa = a@.subrange(i as int, a@.len() as int);
        let ghost sb = b@.subrange(i as int, b@.len() as int);
        assert(sa[0] == a@[i as int]);
        assert(sb[0] == b@[i as int]);
        let la = lowercase_chars(a[i]);
        let lb = lowercase_chars(b[i]);
        let o = code_order_from(&la, &lb);
        proof {
            if all_ascii(x@) && all_ascii(y@) {
                assert((a@[i as int] as u32) < 128);
                assert((b@[i as int] as u32) < 128);
                assert(la@ == seq![ascii_lower(a@[i as int])]);
                assert(lb@ == seq![ascii_lower(b@[i as int])]);
                assert(la@.drop_first() =~= Seq::<char>::empty());
                assert(lb@.drop_first() =~= Seq::<char>::empty());
                assert(code_order(la@.drop_first(), lb@.drop_first()) == 0);
            }
        }
        if o != 0 {
            return o;
        }
        assert(sa.drop_first() =~= a@.subrange(i + 1, a@.len() as int));
        assert(sb.drop_first() =~= b@.subrange(i + 1, b@.len() as int));
        i = i + 1;
    }
    if i < a.len() {
        1
    } else if i < b.len() {
        -1
    } else {
        0
    }
}

/// The ordering of an order number: less below zero, equal at zero, greater above.
pub open spec fn ordering_of(o: int) -> Ordering {
    if o < 0 {
        Ordering::Less
    } else if o == 0 {
        Ordering::Equal
    } else {
        Ordering::Greater
    }
}

/// Compares two strings ignoring case: character by character, each through its lowercase
/// mapping, a proper prefix first.
pub fn strings_nocase_cmp(x: &str, y: &str) -> (r: Ordering)
    ensures
        r == ordering_of(nocase_order(x@, y@)),
        all_ascii(x@) && all_ascii(y@) ==> r == ordering_of(ascii_nocase_order(x@, y@)),
{
    let o = nocase_order_exec(x, y);
    if o < 0 {
        Ordering::Less
    } else if o == 0 {
        Ordering::Equal
    } else {
        Ordering::Greater
    }
}

proof fn lemma_code_order_antisymmetric(a: Seq<char>, b: Seq<char>)
    ensures
        code_order(a, b) == -code_order(b, a),
        code_order(a, a) == 0,
    decreases a.len(),
{
    if a.len() > 0 && b.len() > 0 {
        lemma_code_order_antisymmetric(a.drop_first(), b.drop_first());
    }
    if a.len() > 0 {
        lemma_code_order_antisymmetric(a.drop_first(), a.drop_first());
    }
}

proof fn lemma_nocase_order_antisymmetric(x: Seq<char>, y: Seq<char>)
    ensures
        nocase_order(x, y) == -nocase_order(y, x),
        nocase_order(x, x) == 0,
    decreases x.len(),
{
    if x.len() > 0 {
        lemma_code_order_antisymmetric(unicode_lowercase(x[0]), unicode_lowercase(x[0]));
        lemma_nocase_order_antisymmetric(x.drop_first(), x.drop_first());
        if y.len() > 0 {
            lemma_code_order_antisymmetric(unicode_lowercase(x[0]), unicode_lowercase(y[0]));
            lemma_nocase_order_antisymmetric(x.drop_first(), y.drop_first());
        }
    }
}

/// Comparing ignoring case is antisymmetric and reflexive: swapping the strings reverses the
/// result, and a string equals itself.
pub proof fn lemma_strings_nocase_cmp_antisymmetric(x: Seq<char>, y: Seq<char>)
    ensures
        ordering_of(nocase_order(y, x)) == (match ordering_of(nocase_order(x, y)) {
            Ordering::Less => Ordering::Greater,
            Ordering::Equal => Ordering::Equal,
            Ordering::Greater => Ordering::Less,
        }),
        ordering_of(nocase_order(x, x)) == Ordering::Equal,
{
    lemma_nocase_order_antisymmetric(x, y);
}

/// The order users are listed in: administrators first, then by name ignoring case.
pub open spec fn user_order(x: (Seq<char>, UserRole), y: (Seq<char>, UserRole)) -> Ordering {
    if x.1 == UserRole::Admin && y.1 == UserRole::Regular {
        Ordering::Less
    } else if x.1 == UserRole::Regular && y.1 == UserRole::Admin {
        Ordering::Greater
    } else {
        ordering_of(nocase_order(x.0, y.0))
    }
}

/// Compares two users for listing: administrators first, then by name ignoring case.
pub fn users_sort_cmp(x: (&String, UserRole), y: (&String, UserRole)) -> (r: Ordering)
    ensures
        r == user_order((x.0@, x.1), (y.0@, y.1)),
{
    match (x.1, y.1) {
        (UserRole::Admin, UserRole::Regular) => Ordering::Less,
        (UserRole::Regular, UserRole::Admin) => Ordering::Greater,
        _ => strings_nocase_cmp(x.0.as_str(), y.0.as_str()),
    }
}

/// The parts of the users popup that can hold the focus, from top to bottom.
#[derive(Debug, Clone, Copy, PartialEq, Eq, Structural)]
pub enum FocusedElement {
    RoleFilter,
    UsernameFilter,
    UserList,
    AddButton,
}

/// The position of a part, from the top.
pub open spec fn position(e: FocusedElement) -> int {
    match e {
        FocusedElement::RoleFilter => 0,
        FocusedElement::UsernameFilter => 1,
        FocusedElement::UserList => 2,
        FocusedElement::AddButton => 3,
    }
}

impl FocusedElement {
    /// The part below, or this one at the bottom.
    pub fn down(self) -> (r: Self)
        ensures
            position(r) == if position(self) < 3 { position(self) + 1 } else { 3 },
    {
        match self {
            Self::RoleFilter => Self::UsernameFilter,
            Self::UsernameFilter => Self::UserList,
            Self::UserList => Self::AddButton,
            Self::AddButton => Self::AddButton,
        }
    }

    /// The part above, or this one at the top.
    pub fn up(self) -> (r: Self)
        ensures
            position(r) == if position(self) > 0 { position(self) - 1 } else { 0 },
    {
        match self {
            Self::RoleFilter => Self::RoleFilter,
            Self::UsernameFilter => Self::RoleFilter,
            Self::UserList => Self::UsernameFilter,
            Self::AddButton => Self::UserList,
        }
    }

    /// The next part, going back to the top after the bottom one (for the TAB key).
    pub fn next(self) -> (r: Self)
        ensures
            position(r) == (position(self) + 1) % 4,
    {
        match self {
            Self::RoleFilter => Self::UsernameFilter,
            Self::UsernameFilter => Self::UserList,
            Self::UserList => Self::AddButton,
            Self::AddButton => Self::RoleFilter,
        }
    }
}

/// Each part is at its own position.
pub proof fn lemma_position_injective(a: FocusedElement, b: FocusedElement)
    requires
        position(a) == position(b),
    ensures
        a == b,
{
}

} // verus!
