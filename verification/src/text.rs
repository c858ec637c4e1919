//! Character-level text operations that the picker's labels are made of.
use vstd::prelude::*;

verus! {

/// `c` with an ASCII capital letter replaced by its small letter.
pub open spec fn ascii_lower(c: char) -> char {
    if 'A' <= c && c <= 'Z' {
        ((c as int) + 32) as char
    } else {
        c
    }
}

/// `s` with every ASCII capital letter replaced by its small letter.
pub open spec fn lower_chars(s: Seq<char>) -> Seq<char> {
    s.map_values(|c: char| ascii_lower(c))
}

/// `s` with every underscore replaced by a space.
pub open spec fn spaced(s: Seq<char>) -> Seq<char> {
    s.map_values(|c: char| if c == '_' { ' ' } else { c })
}

/// Whether `needle` occurs in `hay` as a run of consecutive characters.
pub open spec fn occurs_in(needle: Seq<char>, hay: Seq<char>) -> bool {
    exists|i: int|
        0 <= i && i + needle.len() <= hay.len() && #[trigger] hay.subrange(i, i + needle.len()) == needle
}

/// std's `String::push`: appends one character to the string.
#[verifier::external_body]
fn push_char(s: &mut String, c: char)
    ensures
        final(s)@ == old(s)@.push(c),
{
    s.push(c);
}

/// The characters of `s`, in order.
pub fn chars_of(s: &str) -> (res: Vec<char>)
    ensures
        res@ == s@,
{
    let mut out: Vec<char> = Vec::new();
    for c in it: s.chars()
        invariant
            out@ == it.seq().take(it.index() as int),
            it.seq() == s@,
    {
        out.push(c);
    }
    out
}

/// Lowers one character as `ascii_lower` says.
pub fn lower_char(c: char) -> (res: char)
    ensures
        res == ascii_lower(c),
        'A' <= c <= 'Z' ==> 'a' <= res <= 'z' && res as int == c as int + 32,
        !('A' <= c <= 'Z') ==> res == c,
{
    if 'A' <= c && c <= 'Z' {
        let code: u32 = c as u32;
        let small: u8 = (code + 32) as u8;
        small as char
    } else {
        c
    }
}

/// The characters of `s`, ASCII capitals made small.
pub fn ascii_lowercase_chars(s: &str) -> (res: Vec<char>)
    ensures
        res@ == lower_chars(s@),
        res@.len() == s@.len(),
        forall|i: int| 0 <= i < s@.len() ==> if 'A' <= #[trigger] s@[i] <= 'Z' {
            res@[i] as int == s@[i] as int + 32
        } else {
            res@[i] == s@[i]
        },
{
    let chars = chars_of(s);
    let mut out: Vec<char> = Vec::new();
    let mut i: usize = 0;
    while i < chars.len()
        invariant
            chars@ == s@,
            0 <= i <= chars@.len(),
            out@ == lower_chars(s@.take(i as int)),
        decreases chars@.len() - i,
    {
        let c = chars[i];
        out.push(lower_char(c));
        assert(s@.take(i + 1) == s@.take(i as int).push(c));
        i = i + 1;
    }
    assert(s@.take(chars@.len() as int) == s@);
    out
}

/// Whether the characters `v` spell exactly `lit`.
pub fn chars_equal(v: &Vec<char>, lit: &str) -> (res: bool)
    ensures
        res == (v@ == lit@),
{
    let w = chars_of(lit);
    if v.len() != w.len() {
        return false;
    }
    let mut i: usize = 0;
    while i < w.len()
        invariant
            w@ == lit@,
            v@.len() == w@.len(),
            0 <= i <= w@.len(),
            forall|k: int| 0 <= k < i ==> v@[k] == w@[k],
        decreases w@.len() - i,
    {
        if v[i] != w[i] {
            return false;
        }
        i = i + 1;
    }
    assert(v@ == w@);
    true
}

/// `kind` as shown to the user: every underscore made a space.
pub fn underscores_to_spaces(kind: &str) -> (res: String)
    ensures
        res@ == spaced(kind@),
        res@.len() == kind@.len(),
        forall|i: int| 0 <= i < kind@.len() ==>
            #[trigger] res@[i] == if kind@[i] == '_' { ' ' } else { kind@[i] },
{
    let chars = chars_of(kind);
    let mut out = String::new();
    let mut i: usize = 0;
    while i < chars.len()
        invariant
            chars@ == kind@,
            0 <= i <= chars@.len(),
            out@ == spaced(kind@.take(i as int)),
        decreases chars@.len() - i,
    {
        let c = chars[i];
        let shown = if c == '_' { ' ' } else { c };
        push_char(&mut out, shown);
        assert(kind@.take(i + 1) == kind@.take(i as int).push(c));
        i = i + 1;
    }
    assert(kind@.take(chars@.len() as int) == kind@);
    out
}

/// Whether `needle` occurs in `hay`.
pub fn contains_text(hay: &str, needle: &str) -> (res: bool)
    ensures
        res == occurs_in(needle@, hay@),
{
    let h = chars_of(hay);
    let n = chars_of(needle);
    if n.len() > h.len() {
        return false;
    }
    if n.len() == 0 {
        assert(hay@.subrange(0int, 0int + needle@.len()) == needle@);
        return true;
    }
    let hl = h.len();
    let last = hl - n.len();
    let mut i: usize = 0;
    while i <= last
        invariant
            h@ == hay@,
            n@ == needle@,
            0 < n@.len() <= h@.len(),
            hl == h@.len(),
            last == h@.len() - n@.len(),
            0 <= i <= last + 1,
            forall|k: int| 0 <= k < i ==> #[trigger] hay@.subrange(k, k + needle@.len()) != needle@,
        decreases last + 1 - i,
    {
        let mut j: usize = 0;
        let mut same = true;
        while j < n.len()
            invariant
                h@ == hay@,
                n@ == needle@,
                i <= last,
                0 < n@.len() <= h@.len(),
                hl == h@.len(),
                last == h@.len() - n@.len(),
                0 <= j <= n@.len(),
                same == forall|k: int| 0 <= k < j ==> h@[i + k] == n@[k],
            decreases n@.len() - j,
        {
            if h[i + j] != n[j] {
                same = false;
            }
            j = j + 1;
        }
        if same {
            assert(hay@.subrange(i as int, i + needle@.len()) == needle@);
            return true;
        }
        assert(hay@.subrange(i as int, i + needle@.len()) != needle@) by {
            let k = choose|k: int| 0 <= k < n@.len() && h@[i + k] != n@[k];
            assert(hay@.subrange(i as int, i + needle@.len())[k] != needle@[k]);
        }
        i = i + 1;
    }
    false
}

/// `name` with " (this computer)" appended.
pub fn with_this_computer(name: &str) -> (res: String)
    ensures
        res@ == name@ + " (this computer)"@,
{
    let mut out = String::from_str(name);
    out.append(" (this computer)");
    out
}

} // verus!
