use vstd::prelude::*;
use vstd::string::*;

verus! {

/// One header field as the server sent it: its name, and its value as raw bytes.
pub struct Header {
    pub name: String,
    pub value: Vec<u8>,
}

/// One printed line: the upper-cased name padded to the column width, and the
/// value as text.
pub struct HeaderLine {
    pub name: String,
    pub value: String,
}

/// The lines of a header block, in the order of the headers. `complete` is
/// false when a value could not be read as text; `lines` then ends just before
/// that header.
pub struct Rendering {
    pub lines: Vec<HeaderLine>,
    pub complete: bool,
}

/// What `str::to_uppercase` makes of a string.
pub uninterp spec fn upper_of(s: Seq<char>) -> Seq<char>;

/// Relies on `str::to_uppercase`: the upper-case form of the characters.
#[verifier::external_body]
fn uppercase(s: &str) -> (r: String)
    ensures
        r@ == upper_of(s@),
{
    s.to_uppercase()
}

/// Relies on `String::from(char)`: a string of that one character.
#[verifier::external_body]
fn char_string(c: char) -> (r: String)
    ensures
        r@ == seq![c],
{
    String::from(c)
}

/// A byte that may stand in a header value read as text: visible ASCII or a tab.
pub open spec fn is_visible_ascii(b: u8) -> bool {
    (32 <= b && b < 127) || b == 9
}

/// A header value that reads as text.
pub open spec fn is_text(v: Seq<u8>) -> bool {
    forall|i: int| 0 <= i < v.len() ==> is_visible_ascii(#[trigger] v[i])
}

/// The text of a value that reads as text: one character per byte.
pub open spec fn text_of(v: Seq<u8>) -> Seq<char> {
    v.map_values(|b: u8| b as char)
}

pub open spec fn spaces(n: nat) -> Seq<char> {
    Seq::new(n, |i: int| ' ')
}

/// A name left-justified in a field of `width` characters; a longer name is
/// kept whole.
pub open spec fn padded(name: Seq<char>, width: nat) -> Seq<char> {
    if name.len() < width {
        name + spaces((width - name.len()) as nat)
    } else {
        name
    }
}

/// The longest header name, in characters; zero for no headers.
pub open spec fn max_name_len(hs: Seq<Header>) -> nat
    decreases hs.len(),
{
    if hs.len() == 0 {
        0
    } else {
        let rest = max_name_len(hs.drop_last());
        let last = hs.last().name@.len();
        if last > rest {
            last
        } else {
            rest
        }
    }
}

/// The width of the name column: the longest name plus three.
pub open spec fn column_width_of(hs: Seq<Header>) -> nat {
    max_name_len(hs) + 3
}

/// The lengths of all names, with room for the three extra columns, fit a `usize`.
pub open spec fn names_fit(hs: Seq<Header>) -> bool {
    forall|i: int| 0 <= i < hs.len() ==> #[trigger] hs[i].name@.len() + 3 <= usize::MAX
}

proof fn lemma_max_name_len_bounds(hs: Seq<Header>)
    ensures
        forall|i: int| 0 <= i < hs.len() ==> #[trigger] hs[i].name@.len() <= max_name_len(hs),
        hs.len() > 0 ==> exists|i: int|
            0 <= i < hs.len() && #[trigger] hs[i].name@.len() == max_name_len(hs),
    decreases hs.len(),
{
    if hs.len() > 0 {
        let rest = hs.drop_last();
        let k = hs.len() - 1;
        lemma_max_name_len_bounds(rest);
        assert(hs.last() == hs[k]);
        assert forall|i: int| 0 <= i < hs.len() implies #[trigger] hs[i].name@.len() <= max_name_len(
            hs,
        ) by {
            if i < k {
                assert(hs[i] == rest[i]);
            }
        }
        if hs[k].name@.len() == max_name_len(hs) {
        } else {
            let j = choose|j: int|
                0 <= j < rest.len() && #[trigger] rest[j].name@.len() == max_name_len(rest);
            assert(hs[j] == rest[j]);
        }
    }
}

/// The column width is three more than the longest name: every name is at
/// least three shorter than it, and for a non-empty block some name is
/// exactly three shorter.
pub proof fn lemma_column_width(hs: Seq<Header>)
    ensures
        forall|i: int| 0 <= i < hs.len() ==> #[trigger] hs[i].name@.len() + 3 <= column_width_of(hs),
        hs.len() > 0 ==> exists|i: int|
            0 <= i < hs.len() && #[trigger] hs[i].name@.len() + 3 == column_width_of(hs),
        hs.len() == 0 ==> column_width_of(hs) == 3,
{
    lemma_max_name_len_bounds(hs);
}

/// Every name no longer than the column is padded to exactly the column's
/// width: the name, then spaces up to the width.
pub proof fn lemma_padded_width(name: Seq<char>, width: nat)
    requires
        name.len() <= width,
    ensures
        padded(name, width).len() == width,
        padded(name, width).subrange(0, name.len() as int) == name,
        forall|i: int| name.len() <= i < width ==> #[trigger] padded(name, width)[i] == ' ',
{
    assert(padded(name, width).subrange(0, name.len() as int) =~= name);
}

/// The width of the name column for these headers.
pub fn column_width(headers: &Vec<Header>) -> (w: usize)
    requires
        names_fit(headers@),
    ensures
        w == column_width_of(headers@),
{
    let mut m: usize = 0;
    let mut i: usize = 0;
    while i < headers.len()
        invariant
            i <= headers@.len(),
            names_fit(headers@),
            m == max_name_len(headers@.subrange(0, i as int)),
            m + 3 <= usize::MAX,
        decreases headers@.len() - i,
    {
        let n = headers[i].name.as_str().unicode_len();
        assert(headers@.subrange(0, i + 1).drop_last() =~= headers@.subrange(0, i as int));
        assert(headers@[i as int].name@.len() + 3 <= usize::MAX);
        if n > m {
            m = n;
        }
        i = i + 1;
    }
    assert(headers@.subrange(0, headers@.len() as int) =~= headers@);
    m + 3
}

/// The text of a header value, if every byte of it is visible ASCII or a tab.
pub fn value_text(value: &Vec<u8>) -> (r: Option<String>)
    ensures
        r is Some <==> is_text(value@),
        r matches Some(t) ==> t@ == text_of(value@),
{
    let mut t = String::new();
    let mut i: usize = 0;
    while i < value.len()
        invariant
            i <= value@.len(),
            t@ == text_of(value@.subrange(0, i as int)),
            is_text(value@.subrange(0, i as int)),
        decreases value@.len() - i,
    {
        let b = value[i];
        if !((32 <= b && b < 127) || b == 9) {
            assert(!is_visible_ascii(value@[i as int]));
            return None;
        }
        let c = char_string(b as char);
        t.append(c.as_str());
        assert(value@.subrange(0, i + 1) =~= value@.subrange(0, i as int).push(b));
        i = i + 1;
    }
    assert(value@.subrange(0, value@.len() as int) =~= value@);
    Some(t)
}

/// `name` left-justified in a field of `width` characters.
pub fn pad_name(name: &String, width: usize) -> (r: String)
    ensures
        r@ == padded(name@, width as nat),
{
    let n = name.as_str().unicode_len();
    let mut r = String::from_str(name.as_str());
    if n < width {
        let mut k: usize = n;
        while k < width
            invariant
                n <= k <= width,
                n == name@.len(),
                r@ == name@ + spaces((k - n) as nat),
            decreases width - k,
        {
            proof {
                reveal_strlit(" ");
            }
            r.append(" ");
            assert(spaces((k + 1 - n) as nat) =~= spaces((k - n) as nat).push(' '));
            k = k + 1;
        }
    }
    r
}

/// The printed line for a header whose name is already upper-cased, or none
/// when its value does not read as text.
pub fn header_line(upper: &String, value: &Vec<u8>, width: usize) -> (r: Option<HeaderLine>)
    ensures
        r is Some <==> is_text(value@),
        r matches Some(l) ==> l.name@ == padded(upper@, width as nat) && l.value@ == text_of(
            value@,
        ),
{
    match value_text(value) {
        Some(t) => Some(HeaderLine { name: pad_name(upper, width), value: t }),
        None => None,
    }
}

/// The line a header is printed as, in a column of `width`.
pub open spec fn line_matches(l: HeaderLine, h: Header, width: nat) -> bool {
    l.name@ == padded(upper_of(h.name@), width) && l.value@ == text_of(h.value@)
}

/// Renders the headers in their order, duplicates included, each name
/// upper-cased and padded to the column width; stops at the first value that
/// does not read as text.
pub fn print_headers(headers: &Vec<Header>) -> (r: Rendering)
    requires
        names_fit(headers@),
    ensures
        r.lines@.len() <= headers@.len(),
        r.complete <==> r.lines@.len() == headers@.len(),
        forall|i: int| 0 <= i < r.lines@.len() ==> is_text(#[trigger] headers@[i].value@),
        !r.complete ==> !is_text(headers@[r.lines@.len() as int].value@),
        forall|i: int|
            0 <= i < r.lines@.len() ==> line_matches(
                #[trigger] r.lines@[i],
                headers@[i],
                column_width_of(headers@),
            ),
{
    let width = column_width(headers);
    let mut lines: Vec<HeaderLine> = Vec::new();
    let mut i: usize = 0;
    while i < headers.len()
        invariant
            i <= headers@.len(),
            lines@.len() == i,
            width == column_width_of(headers@),
            forall|j: int| 0 <= j < i ==> is_text(#[trigger] headers@[j].value@),
            forall|j: int|
                0 <= j < i ==> line_matches(#[trigger] lines@[j], headers@[j], width as nat),
        decreases headers@.len() - i,
    {
        let h = &headers[i];
        let upper = uppercase(h.name.as_str());
        match header_line(&upper, &h.value, width) {
            Some(l) => {
                lines.push(l);
            },
            None => {
                return Rendering { lines, complete: false };
            },
        }
        i = i + 1;
    }
    Rendering { lines, complete: true }
}

} // verus!
