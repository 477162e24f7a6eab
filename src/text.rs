use vstd::prelude::*;

verus! {

/// The characters that are stripped from both ends of a textual sub-value:
/// space, tab, line feed, carriage return and NUL.
pub open spec fn is_trim_char(c: char) -> bool {
    c == ' ' || c == '\t' || c == '\n' || c == '\r' || c == '\0'
}

/// `s` without its leading trim characters.
pub open spec fn trim_front(s: Seq<char>) -> Seq<char>
    decreases s.len(),
{
    if s.len() > 0 && is_trim_char(s[0]) {
        trim_front(s.drop_first())
    } else {
        s
    }
}

/// `s` without its trailing trim characters.
pub open spec fn trim_back(s: Seq<char>) -> Seq<char>
    decreases s.len(),
{
    if s.len() > 0 && is_trim_char(s.last()) {
        trim_back(s.drop_last())
    } else {
        s
    }
}

/// `s` without trim characters at either end.
pub open spec fn trimmed(s: Seq<char>) -> Seq<char> {
    trim_back(trim_front(s))
}

/// The parts joined into one text, with a line feed between two neighbours.
pub open spec fn joined_lines(parts: Seq<Seq<char>>) -> Seq<char>
    decreases parts.len(),
{
    if parts.len() == 0 {
        Seq::empty()
    } else if parts.len() == 1 {
        parts[0]
    } else {
        joined_lines(parts.drop_last()) + seq!['\n'] + parts.last()
    }
}

fn is_trim_char_exec(c: char) -> (r: bool)
    ensures
        r == is_trim_char(c),
{
    c == ' ' || c == '\t' || c == '\n' || c == '\r' || c == '\0'
}

proof fn lemma_trim_front_step(s: Seq<char>, i: int)
    requires
        0 <= i < s.len(),
        is_trim_char(s[i]),
    ensures
        trim_front(s.subrange(i, s.len() as int)) == trim_front(s.subrange(i + 1, s.len() as int)),
{
    assert(s.subrange(i, s.len() as int).drop_first() =~= s.subrange(i + 1, s.len() as int));
}

proof fn lemma_trim_back_step(s: Seq<char>, i: int, j: int)
    requires
        0 <= i < j <= s.len(),
        is_trim_char(s[j - 1]),
    ensures
        trim_back(s.subrange(i, j)) == trim_back(s.subrange(i, j - 1)),
{
    assert(s.subrange(i, j).drop_last() =~= s.subrange(i, j - 1));
}

/// Strips spaces, tabs, line breaks and NUL characters from both ends of `s`.
#[allow(clippy::ptr_arg)]
pub fn trim_string(s: &String) -> (r: &str)
    ensures
        r@ == trimmed(s@),
{
    let t: &str = s.as_str();
    let n: usize = t.unicode_len();
    let mut i: usize = 0;
    proof {
        assert(s@.subrange(0, n as int) =~= s@);
    }
    while i < n && is_trim_char_exec(t.get_char(i))
        invariant
            t@ == s@,
            n == s@.len(),
            i <= n,
            trim_front(s@) == trim_front(s@.subrange(i as int, n as int)),
        decreases n - i,
    {
        proof {
            lemma_trim_front_step(s@, i as int);
        }
        i = i + 1;
    }
    proof {
        if i == n {
            assert(s@.subrange(i as int, n as int).len() == 0);
        }
    }
    let mut j: usize = n;
    while j > i && is_trim_char_exec(t.get_char(j - 1))
        invariant
            t@ == s@,
            n == s@.len(),
            i <= j <= n,
            trim_front(s@) == s@.subrange(i as int, n as int),
            trimmed(s@) == trim_back(s@.subrange(i as int, j as int)),
        decreases j,
    {
        proof {
            lemma_trim_back_step(s@, i as int, j as int);
        }
        j = j - 1;
    }
    t.substring_char(i, j)
}

/// Whether `s` holds nothing but trim characters.
pub fn is_blank(s: &String) -> (r: bool)
    ensures
        r == (trimmed(s@).len() == 0),
{
    let t = trim_string(s);
    t.unicode_len() == 0
}

/// Each part stripped of trim characters, then all joined with line feeds.
pub open spec fn trimmed_lines(parts: Seq<Seq<char>>) -> Seq<char> {
    joined_lines(parts.map_values(|p: Seq<char>| trimmed(p)))
}

/// Joins the trimmed parts with line feeds.
pub fn join_trimmed_lines(parts: &Vec<String>) -> (r: String)
    ensures
        r@ == trimmed_lines(parts@.map_values(|p: String| p@)),
{
    let ghost views = parts@.map_values(|p: String| p@);
    let ghost tv = views.map_values(|p: Seq<char>| trimmed(p));
    let mut out = String::new();
    let mut k: usize = 0;
    let nl = "\n";
    proof {
        reveal_strlit("\n");
    }
    while k < parts.len()
        invariant
            k <= parts.len(),
            views == parts@.map_values(|p: String| p@),
            tv == views.map_values(|p: Seq<char>| trimmed(p)),
            nl@ == seq!['\n'],
            out@ == joined_lines(tv.subrange(0, k as int)),
        decreases parts.len() - k,
    {
        let piece = trim_string(&parts[k]);
        proof {
            let pre = tv.subrange(0, k as int);
            let post = tv.subrange(0, k as int + 1);
            assert(post.drop_last() =~= pre);
        }
        if k > 0 {
            out.append(nl);
        }
        out.append(piece);
        k = k + 1;
    }
    proof {
        assert(tv.subrange(0, parts.len() as int) =~= tv);
    }
    out
}

/// The digit for a value below sixteen, upper case.
pub open spec fn hex_digit(v: nat) -> char {
    seq!['0', '1', '2', '3', '4', '5', '6', '7', '8', '9', 'A', 'B', 'C', 'D', 'E', 'F'][v as int]
}

/// Four upper-case hexadecimal digits, zero-padded, most significant first.
pub open spec fn hex4(v: u16) -> Seq<char> {
    seq![
        hex_digit(((v as nat) / 4096) % 16),
        hex_digit(((v as nat) / 256) % 16),
        hex_digit(((v as nat) / 16) % 16),
        hex_digit((v as nat) % 16),
    ]
}

/// The text `GGGG,EEEE` of a tag: group then element, four upper-case hexadecimal digits each.
pub open spec fn hex_pair(group: u16, element: u16) -> Seq<char> {
    hex4(group) + seq![','] + hex4(element)
}

fn hex_digit_str(v: u16) -> (c: &'static str)
    requires
        v < 16,
    ensures
        c@ == seq![hex_digit(v as nat)],
{
    let table = "0123456789ABCDEF";
    proof {
        reveal_strlit("0123456789ABCDEF");
    }
    let c = table.substring_char(v as usize, v as usize + 1);
    proof {
        assert(c@ =~= seq![hex_digit(v as nat)]);
    }
    c
}

fn push_hex4(out: &mut String, v: u16)
    ensures
        final(out)@ == old(out)@ + hex4(v),
{
    let digits: [u16; 4] = [v / 4096 % 16, v / 256 % 16, v / 16 % 16, v % 16];
    let mut k: usize = 0;
    let ghost start = out@;
    while k < 4
        invariant
            k <= 4,
            digits@ == seq![v / 4096 % 16, v / 256 % 16, v / 16 % 16, v % 16],
            out@ == start + hex4(v).subrange(0, k as int),
        decreases 4 - k,
    {
        let c = hex_digit_str(digits[k]);
        proof {
            assert(hex4(v).subrange(0, k as int + 1) =~= hex4(v).subrange(0, k as int) + c@);
        }
        out.append(c);
        k = k + 1;
    }
    proof {
        assert(hex4(v).subrange(0, 4) =~= hex4(v));
    }
}

/// Formats a tag as `GGGG,EEEE`.
pub fn format_tag(group: u16, element: u16) -> (r: String)
    ensures
        r@ == hex_pair(group, element),
{
    let mut out = String::new();
    push_hex4(&mut out, group);
    let comma = ",";
    proof {
        reveal_strlit(",");
    }
    out.append(comma);
    push_hex4(&mut out, element);
    proof {
        assert(out@ =~= hex_pair(group, element));
    }
    out
}

} // verus!
