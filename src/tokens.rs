use vstd::prelude::*;

verus! {

/// The characters with the Unicode `White_Space` property.
pub open spec fn white_space(c: char) -> bool {
    let n = c as u32;
    (0x9 <= n && n <= 0xD) || n == 0x20 || n == 0x85 || n == 0xA0 || n == 0x1680 || (0x2000 <= n
        && n <= 0x200A) || n == 0x2028 || n == 0x2029 || n == 0x202F || n == 0x205F || n == 0x3000
}

/// `s` without its leading white space.
pub open spec fn trim_start(s: Seq<char>) -> Seq<char>
    decreases s.len(),
{
    if s.len() > 0 && white_space(s[0]) {
        trim_start(s.drop_first())
    } else {
        s
    }
}

/// `s` without its trailing white space.
pub open spec fn trim_end(s: Seq<char>) -> Seq<char>
    decreases s.len(),
{
    if s.len() > 0 && white_space(s.last()) {
        trim_end(s.drop_last())
    } else {
        s
    }
}

/// `s` without white space at either end.
pub open spec fn trim(s: Seq<char>) -> Seq<char> {
    trim_end(trim_start(s))
}

/// The pieces of `s` between commas, in order: one more than there are commas.
pub open spec fn split_commas(s: Seq<char>) -> Seq<Seq<char>>
    decreases s.len(),
{
    if s.len() == 0 {
        seq![Seq::empty()]
    } else {
        let p = split_commas(s.drop_last());
        if s.last() == ',' {
            p.push(Seq::empty())
        } else {
            p.update(p.len() - 1, p.last().push(s.last()))
        }
    }
}

/// The capability names written in a comma-separated list, each trimmed.
pub open spec fn capability_names(s: Seq<char>) -> Seq<Seq<char>> {
    split_commas(s).map_values(|p: Seq<char>| trim(p))
}

/// The text of each string in `v`.
pub open spec fn texts(v: Seq<String>) -> Seq<Seq<char>> {
    v.map_values(|x: String| x@)
}

/// Whether `c` has the Unicode `White_Space` property, as `char::is_whitespace`
/// tests it.
pub fn is_white_space(c: char) -> (r: bool)
    ensures
        r == white_space(c),
{
    let n = c as u32;
    (0x9 <= n && n <= 0xD) || n == 0x20 || n == 0x85 || n == 0xA0 || n == 0x1680 || (0x2000 <= n
        && n <= 0x200A) || n == 0x2028 || n == 0x2029 || n == 0x202F || n == 0x205F || n == 0x3000
}

/// Whether `s` is, as a whole, one Rust identifier that is not a keyword.
pub uninterp spec fn ident_ok(s: Seq<char>) -> bool;

/// Whether `s` consists of ASCII digits only.
pub open spec fn ascii_digits(s: Seq<char>) -> bool {
    forall|i: int| 0 <= i < s.len() ==> '0' <= #[trigger] s[i] && s[i] <= '9'
}

/// Relies on `syn::parse_str::<syn::Ident>`: it returns `Ok` exactly when the
/// whole of `s` lexes as one identifier that is not a keyword or `_`, and
/// returns an error, never panicking, on anything else. The empty string and a
/// string of digits (a literal) are never identifiers.
#[verifier::external_body]
fn parses_as_ident(s: &str) -> (r: bool)
    ensures
        r == ident_ok(s@),
        s@.len() == 0 ==> !r,
        ascii_digits(s@) ==> !r,
{
    syn::parse_str::<syn::Ident>(s).is_ok()
}

/// Whether `s` is one Rust identifier that is not a keyword.
pub fn is_identifier(s: &String) -> (r: bool)
    ensures
        r == ident_ok(s@),
{
    parses_as_ident(s.as_str())
}

/// Copies `s` without white space at either end.
pub fn trim_str(s: &str) -> (r: String)
    ensures
        r@ == trim(s@),
{
    let n = s.unicode_len();
    let mut lo: usize = 0;
    assert(s@.subrange(0, n as int) =~= s@);
    while lo < n && is_white_space(s.get_char(lo))
        invariant
            n == s@.len(),
            lo <= n,
            trim_start(s@) == trim_start(s@.subrange(lo as int, n as int)),
        decreases n - lo,
    {
        assert(s@.subrange(lo + 1, n as int) =~= s@.subrange(lo as int, n as int).drop_first());
        lo += 1;
    }
    assert(trim_start(s@) == s@.subrange(lo as int, n as int));
    let mut hi: usize = n;
    while hi > lo && is_white_space(s.get_char(hi - 1))
        invariant
            n == s@.len(),
            lo <= hi <= n,
            trim_end(s@.subrange(lo as int, n as int)) == trim_end(
                s@.subrange(lo as int, hi as int),
            ),
        decreases hi - lo,
    {
        assert(s@.subrange(lo as int, hi - 1) =~= s@.subrange(lo as int, hi as int).drop_last());
        hi -= 1;
    }
    String::from_str(s.substring_char(lo, hi))
}

/// Splits `s` at each comma and trims each piece.
pub fn split_capabilities(s: &str) -> (r: Vec<String>)
    ensures
        texts(r@) == capability_names(s@),
{
    let n = s.unicode_len();
    let mut out: Vec<String> = Vec::new();
    let mut start: usize = 0;
    let mut i: usize = 0;
    proof {
        assert(s@.subrange(0, 0) =~= Seq::<char>::empty());
    }
    while i < n
        invariant
            n == s@.len(),
            start <= i <= n,
            split_commas(s@.subrange(0, i as int)).len() >= 1,
            split_commas(s@.subrange(0, i as int)).last() == s@.subrange(start as int, i as int),
            texts(out@) == split_commas(s@.subrange(0, i as int)).drop_last().map_values(
                |p: Seq<char>| trim(p),
            ),
        decreases n - i,
    {
        let c = s.get_char(i);
        let ghost p = split_commas(s@.subrange(0, i as int));
        assert(s@.subrange(0, i + 1).drop_last() =~= s@.subrange(0, i as int));
        assert(s@.subrange(0, i + 1).last() == c);
        if c == ',' {
            let piece = trim_str(s.substring_char(start, i));
            let ghost before = out@;
            out.push(piece);
            proof {
                let q = split_commas(s@.subrange(0, i + 1));
                assert(q == p.push(Seq::empty()));
                assert(q.drop_last() =~= p);
                assert(texts(out@) =~= texts(before).push(piece@));
                assert(p.map_values(|p: Seq<char>| trim(p)) =~= p.drop_last().map_values(
                    |p: Seq<char>| trim(p),
                ).push(trim(p.last())));
                assert(texts(out@) =~= p.map_values(|p: Seq<char>| trim(p)));
                assert(s@.subrange(i + 1, i + 1) =~= Seq::<char>::empty());
            }
            start = i + 1;
        } else {
            proof {
                let q = split_commas(s@.subrange(0, i + 1));
                assert(q == p.update(p.len() - 1, p.last().push(c)));
                assert(q.drop_last() =~= p.drop_last());
                assert(s@.subrange(start as int, i + 1) =~= p.last().push(c));
            }
        }
        i += 1;
    }
    let last = trim_str(s.substring_char(start, n));
    let ghost before = out@;
    out.push(last);
    proof {
        let p = split_commas(s@.subrange(0, n as int));
        assert(s@.subrange(0, n as int) =~= s@);
        assert(texts(out@) =~= texts(before).push(last@));
        assert(p.map_values(|p: Seq<char>| trim(p)) =~= p.drop_last().map_values(
            |p: Seq<char>| trim(p),
        ).push(trim(p.last())));
        assert(texts(out@) =~= p.map_values(|p: Seq<char>| trim(p)));
    }
    out
}

} // verus!
