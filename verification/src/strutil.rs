//! Character-level string helpers shared by the rest of the library.
//!
//! All contracts are stated over the `Seq<char>` view of `&str` / `String`.

use vstd::prelude::*;

verus! {

/// True for the ASCII whitespace characters this library trims.
pub open spec fn is_space(c: char) -> bool {
    c == ' ' || c == '\t' || c == '\n' || c == '\r' || c == '\u{0b}' || c == '\u{0c}'
}

/// Compare two string slices character by character.
pub fn str_eq(a: &str, b: &str) -> (r: bool)
    ensures
        r == (a@ == b@),
{
    let alen = a.unicode_len();
    let blen = b.unicode_len();
    if alen != blen {
        assert(a@ != b@);
        return false;
    }
    let mut i: usize = 0;
    while i < alen
        invariant
            alen == a@.len(),
            alen == b@.len(),
            i <= alen,
            forall|j: int| 0 <= j < i ==> a@[j] == b@[j],
        decreases alen - i,
    {
        if a.get_char(i) != b.get_char(i) {
            assert(a@ != b@);
            return false;
        }
        i = i + 1;
    }
    assert(a@ =~= b@);
    true
}

/// First position of `c` in `s` at or after `from`.
pub fn find_char_from(s: &str, c: char, from: usize) -> (r: Option<usize>)
    requires
        from <= s@.len(),
    ensures
        match r {
            Some(i) => from <= i < s@.len() && s@[i as int] == c && forall|j: int|
                from <= j < i ==> s@[j] != c,
            None => forall|j: int| from <= j < s@.len() ==> s@[j] != c,
        },
{
    let len = s.unicode_len();
    let mut i: usize = from;
    while i < len
        invariant
            len == s@.len(),
            from <= i <= len,
            forall|j: int| from <= j < i ==> s@[j] != c,
        decreases len - i,
    {
        if s.get_char(i) == c {
            return Some(i);
        }
        i = i + 1;
    }
    None
}

/// First position of `c` in `s`.
pub fn find_char(s: &str, c: char) -> (r: Option<usize>)
    ensures
        match r {
            Some(i) => 0 <= i < s@.len() && s@[i as int] == c && forall|j: int|
                0 <= j < i ==> s@[j] != c,
            None => forall|j: int| 0 <= j < s@.len() ==> s@[j] != c,
        },
{
    find_char_from(s, c, 0)
}

/// Does `s` contain `c` anywhere?
pub fn contains_char(s: &str, c: char) -> (r: bool)
    ensures
        r == s@.contains(c),
{
    let r = find_char(s, c);
    match r {
        Some(i) => {
            assert(s@.contains(c));
            true
        },
        None => {
            assert(forall|j: int| 0 <= j < s@.len() ==> s@[j] != c);
            assert(!s@.contains(c));
            false
        },
    }
}

/// Does `prefix` stand at the start of `s`?
pub fn starts_with(s: &str, prefix: &str) -> (r: bool)
    ensures
        r == prefix@.is_prefix_of(s@),
{
    let plen = prefix.unicode_len();
    let slen = s.unicode_len();
    if plen > slen {
        return false;
    }
    let mut i: usize = 0;
    while i < plen
        invariant
            plen == prefix@.len(),
            slen == s@.len(),
            plen <= slen,
            i <= plen,
            forall|j: int| 0 <= j < i ==> s@[j] == prefix@[j],
        decreases plen - i,
    {
        if s.get_char(i) != prefix.get_char(i) {
            assert(!prefix@.is_prefix_of(s@));
            return false;
        }
        i = i + 1;
    }
    assert(prefix@ =~= s@.subrange(0, plen as int));
    true
}

/// `pat` occurs in `s` at `i`, and nowhere earlier.
pub open spec fn is_first_match(s: Seq<char>, pat: Seq<char>, i: int) -> bool {
    &&& 0 <= i
    &&& i + pat.len() <= s.len()
    &&& s.subrange(i, i + pat.len()) == pat
    &&& forall|j: int| 0 <= j < i ==> #[trigger] s.subrange(j, j + pat.len() as int) != pat
}

/// `pat` occurs somewhere in `s`.
pub open spec fn contains_str(s: Seq<char>, pat: Seq<char>) -> bool {
    exists|i: int|
        0 <= i && i + pat.len() <= s.len() && #[trigger] s.subrange(i, i + pat.len() as int)
            == pat
}

/// Whether `pat` occurs in `s`.
pub fn has_str(s: &str, pat: &str) -> (r: bool)
    requires
        pat@.len() >= 1,
    ensures
        r == contains_str(s@, pat@),
{
    let found = find_str(s, pat);
    match found {
        Some(i) => {
            assert(contains_str(s@, pat@));
            true
        },
        None => {
            assert(!contains_str(s@, pat@));
            false
        },
    }
}

/// Position of the first occurrence of `pat` in `s`.
pub fn find_str(s: &str, pat: &str) -> (r: Option<usize>)
    requires
        pat@.len() >= 1,
    ensures
        match r {
            Some(i) => is_first_match(s@, pat@, i as int),
            None => forall|j: int|
                0 <= j && j + pat@.len() <= s@.len() ==> #[trigger] s@.subrange(
                    j,
                    j + pat@.len() as int,
                ) != pat@,
        },
{
    let slen = s.unicode_len();
    let plen = pat.unicode_len();
    if plen > slen {
        return None;
    }
    let mut i: usize = 0;
    while i <= slen - plen
        invariant
            slen == s@.len(),
            plen == pat@.len(),
            1 <= plen <= slen,
            i <= slen - plen + 1,
            forall|j: int| 0 <= j < i ==> #[trigger] s@.subrange(j, j + pat@.len() as int)
                != pat@,
        decreases slen - i,
    {
        let piece = s.substring_char(i, i + plen);
        if str_eq(piece, pat) {
            return Some(i);
        }
        i = i + 1;
    }
    None
}

/// `i` is the position of the last `c` in `s`.
pub open spec fn is_last_pos(s: Seq<char>, c: char, i: int) -> bool {
    &&& 0 <= i < s.len()
    &&& s[i] == c
    &&& forall|j: int| i < j < s.len() ==> s[j] != c
}

/// The position of the last `c` in `s`; meaningful only when `s` contains
/// `c`.
pub open spec fn spec_last_pos(s: Seq<char>, c: char) -> int {
    choose|i: int| is_last_pos(s, c, i)
}

/// A witness pins `spec_last_pos` down.
pub proof fn lemma_last_pos(s: Seq<char>, c: char, i: int)
    requires
        is_last_pos(s, c, i),
    ensures
        spec_last_pos(s, c) == i,
{
    assert(exists|k: int| is_last_pos(s, c, k));
    let j = spec_last_pos(s, c);
    if j < i {
        assert(s[i] == c);
        assert(false);
    }
    if i < j {
        assert(s[j] == c);
        assert(false);
    }
}

/// Position of the last occurrence of `c` in `s`.
pub fn rfind_char(s: &str, c: char) -> (r: Option<usize>)
    ensures
        match r {
            Some(i) => is_last_pos(s@, c, i as int),
            None => !s@.contains(c),
        },
{
    let len = s.unicode_len();
    let mut i: usize = len;
    while i > 0
        invariant
            len == s@.len(),
            i <= len,
            forall|j: int| i <= j < len ==> s@[j] != c,
        decreases i,
    {
        i = i - 1;
        if s.get_char(i) == c {
            return Some(i);
        }
    }
    assert forall|k: int| 0 <= k < s@.len() implies s@[k] != c by {}
    assert(!s@.contains(c));
    None
}

/// The final path component of `p`: everything after the last `/`.
pub open spec fn spec_file_name(p: Seq<char>) -> Seq<char> {
    if p.contains('/') {
        p.skip(spec_last_pos(p, '/') + 1)
    } else {
        p
    }
}

/// The extension of `p`: what follows the last `.` of its file name,
/// provided that dot is not the name's first character.
pub open spec fn spec_extension(p: Seq<char>) -> Option<Seq<char>> {
    let name = spec_file_name(p);
    if exists|i: int| 1 <= i < name.len() && #[trigger] name[i] == '.' {
        Some(name.skip(spec_last_pos(name, '.') + 1))
    } else {
        None
    }
}

/// The extension of a path, by the rule of [`spec_extension`].
pub fn extension_of(p: &str) -> (r: Option<String>)
    ensures
        r is Some <==> spec_extension(p@) is Some,
        r matches Some(e) ==> spec_extension(p@) matches Some(se) && e@ == se,
{
    let len = p.unicode_len();
    let slash = rfind_char(p, '/');
    let name_start: usize = match slash {
        Some(i) => {
            proof {
                assert(p@.contains('/')) by {
                    assert(p@[i as int] == '/');
                }
                lemma_last_pos(p@, '/', i as int);
            }
            i + 1
        },
        None => 0,
    };
    let name = p.substring_char(name_start, len);
    assert(name@ == spec_file_name(p@)) by {
        if name_start == 0 {
            assert(name@ =~= p@);
        }
    }
    let nlen = name.unicode_len();
    let dot = rfind_char(name, '.');
    match dot {
        Some(d) => {
            proof {
                lemma_last_pos(name@, '.', d as int);
            }
            if d == 0 {
                assert(forall|j: int| 0 < j < name@.len() ==> name@[j] != '.');
                assert(spec_extension(p@) is None);
                None
            } else {
                assert(1 <= d < name@.len() && name@[d as int] == '.');
                Some(name.substring_char(d + 1, nlen).to_owned())
            }
        },
        None => {
            assert(forall|j: int| 0 <= j < name@.len() ==> name@[j] != '.');
            assert(spec_extension(p@) is None);
            None
        },
    }
}

/// The character for one decimal digit.
pub open spec fn spec_digit(d: nat) -> char {
    if d == 0 {
        '0'
    } else if d == 1 {
        '1'
    } else if d == 2 {
        '2'
    } else if d == 3 {
        '3'
    } else if d == 4 {
        '4'
    } else if d == 5 {
        '5'
    } else if d == 6 {
        '6'
    } else if d == 7 {
        '7'
    } else if d == 8 {
        '8'
    } else {
        '9'
    }
}

/// Decimal rendering of a natural number, most significant digit first.
pub open spec fn spec_dec(n: nat) -> Seq<char>
    decreases n,
{
    if n < 10 {
        seq![spec_digit(n)]
    } else {
        spec_dec(n / 10).push(spec_digit(n % 10))
    }
}

fn push_digit(out: &mut String, d: u64)
    requires
        d < 10,
    ensures
        final(out)@ == old(out)@.push(spec_digit(d as nat)),
{
    proof {
        reveal_strlit("0");
        reveal_strlit("1");
        reveal_strlit("2");
        reveal_strlit("3");
        reveal_strlit("4");
        reveal_strlit("5");
        reveal_strlit("6");
        reveal_strlit("7");
        reveal_strlit("8");
        reveal_strlit("9");
    }
    if d == 0 {
        out.append("0");
    } else if d == 1 {
        out.append("1");
    } else if d == 2 {
        out.append("2");
    } else if d == 3 {
        out.append("3");
    } else if d == 4 {
        out.append("4");
    } else if d == 5 {
        out.append("5");
    } else if d == 6 {
        out.append("6");
    } else if d == 7 {
        out.append("7");
    } else if d == 8 {
        out.append("8");
    } else {
        out.append("9");
    }
    assert(out@ =~= old(out)@.push(spec_digit(d as nat)));
}

/// Append the decimal rendering of `n` to `out`.
pub fn append_dec(out: &mut String, n: u64)
    ensures
        final(out)@ == old(out)@ + spec_dec(n as nat),
    decreases n,
{
    if n < 10 {
        push_digit(out, n);
        assert(out@ =~= old(out)@ + spec_dec(n as nat));
    } else {
        append_dec(out, n / 10);
        push_digit(out, n % 10);
        assert(out@ =~= old(out)@ + spec_dec(n as nat));
    }
}

/// Decimal rendering padded to at least two digits.
pub open spec fn spec_pad2(n: nat) -> Seq<char> {
    if n < 10 {
        seq!['0'] + spec_dec(n)
    } else {
        spec_dec(n)
    }
}

/// Decimal rendering padded to at least three digits.
pub open spec fn spec_pad3(n: nat) -> Seq<char> {
    if n < 10 {
        seq!['0', '0'] + spec_dec(n)
    } else if n < 100 {
        seq!['0'] + spec_dec(n)
    } else {
        spec_dec(n)
    }
}

/// Append `n` padded to at least two digits.
pub fn append_dec_pad2(out: &mut String, n: u64)
    ensures
        final(out)@ == old(out)@ + spec_pad2(n as nat),
{
    proof {
        reveal_strlit("0");
    }
    if n < 10 {
        out.append("0");
    }
    append_dec(out, n);
    assert(out@ =~= old(out)@ + spec_pad2(n as nat));
}

/// Append `n` padded to at least three digits.
pub fn append_dec_pad3(out: &mut String, n: u64)
    ensures
        final(out)@ == old(out)@ + spec_pad3(n as nat),
{
    proof {
        reveal_strlit("0");
        reveal_strlit("00");
    }
    if n < 10 {
        out.append("00");
    } else if n < 100 {
        out.append("0");
    }
    append_dec(out, n);
    assert(out@ =~= old(out)@ + spec_pad3(n as nat));
}

/// Decimal rendering of `n` as a fresh string.
pub fn u64_to_string(n: u64) -> (r: String)
    ensures
        r@ == spec_dec(n as nat),
{
    let mut out = String::new();
    append_dec(&mut out, n);
    assert(out@ =~= spec_dec(n as nat));
    out
}

/// Leftmost-first replacement of the two-character pattern `ab` by `rep`.
pub open spec fn spec_replace_pair(s: Seq<char>, a: char, b: char, rep: Seq<char>) -> Seq<char>
    decreases s.len(),
{
    if s.len() < 2 {
        s
    } else if s[0] == a && s[1] == b {
        rep + spec_replace_pair(s.skip(2), a, b, rep)
    } else {
        seq![s[0]] + spec_replace_pair(s.skip(1), a, b, rep)
    }
}

/// Replacement of every occurrence of the character `c` by `rep`.
pub open spec fn spec_replace_one(s: Seq<char>, c: char, rep: Seq<char>) -> Seq<char>
    decreases s.len(),
{
    if s.len() == 0 {
        s
    } else if s[0] == c {
        rep + spec_replace_one(s.skip(1), c, rep)
    } else {
        seq![s[0]] + spec_replace_one(s.skip(1), c, rep)
    }
}

/// Replace every occurrence of the adjacent pair `ab` by `rep`, scanning left to right.
pub fn replace_pair(s: &str, a: char, b: char, rep: &str) -> (r: String)
    ensures
        r@ == spec_replace_pair(s@, a, b, rep@),
{
    let len = s.unicode_len();
    let mut out = String::new();
    let mut i: usize = 0;
    assert(s@.skip(0) =~= s@);
    while i < len
        invariant
            len == s@.len(),
            i <= len,
            spec_replace_pair(s@, a, b, rep@) == out@ + spec_replace_pair(
                s@.skip(i as int),
                a,
                b,
                rep@,
            ),
        decreases len - i,
    {
        let ghost rest = s@.skip(i as int);
        assert(rest[0] == s@[i as int]);
        if i + 1 < len && s.get_char(i) == a && s.get_char(i + 1) == b {
            assert(rest[1] == s@[i + 1]);
            out.append(rep);
            assert(rest.skip(2) =~= s@.skip(i + 2));
            i = i + 2;
        } else {
            let piece = s.substring_char(i, i + 1);
            out.append(piece);
            assert(seq![rest[0]] =~= piece@);
            assert(rest.skip(1) =~= s@.skip(i + 1));
            if i + 1 >= len {
                assert(rest.len() < 2);
            }
            i = i + 1;
        }
    }
    assert(s@.skip(len as int) =~= Seq::<char>::empty());
    assert(out@ =~= spec_replace_pair(s@, a, b, rep@));
    out
}

/// Replace every occurrence of the character `c` by `rep`, scanning left to right.
pub fn replace_one(s: &str, c: char, rep: &str) -> (r: String)
    ensures
        r@ == spec_replace_one(s@, c, rep@),
{
    let len = s.unicode_len();
    let mut out = String::new();
    let mut i: usize = 0;
    assert(s@.skip(0) =~= s@);
    while i < len
        invariant
            len == s@.len(),
            i <= len,
            spec_replace_one(s@, c, rep@) == out@ + spec_replace_one(s@.skip(i as int), c, rep@),
        decreases len - i,
    {
        let ghost rest = s@.skip(i as int);
        assert(rest[0] == s@[i as int]);
        if s.get_char(i) == c {
            out.append(rep);
        } else {
            let piece = s.substring_char(i, i + 1);
            out.append(piece);
            assert(seq![rest[0]] =~= piece@);
        }
        assert(rest.skip(1) =~= s@.skip(i + 1));
        i = i + 1;
    }
    assert(s@.skip(len as int) =~= Seq::<char>::empty());
    assert(out@ =~= spec_replace_one(s@, c, rep@));
    out
}

/// `s` with leading space characters removed.
pub open spec fn spec_trim_start(s: Seq<char>) -> Seq<char>
    decreases s.len(),
{
    if s.len() > 0 && is_space(s[0]) {
        spec_trim_start(s.skip(1))
    } else {
        s
    }
}

/// `s` with trailing space characters removed.
pub open spec fn spec_trim_end(s: Seq<char>) -> Seq<char>
    decreases s.len(),
{
    if s.len() > 0 && is_space(s[s.len() - 1]) {
        spec_trim_end(s.take(s.len() - 1))
    } else {
        s
    }
}

/// `s` with leading and trailing space characters removed.
pub open spec fn spec_trim(s: Seq<char>) -> Seq<char> {
    spec_trim_end(spec_trim_start(s))
}

proof fn lemma_trim_start_skip(s: Seq<char>, i: int)
    requires
        0 <= i <= s.len(),
        forall|j: int| 0 <= j < i ==> is_space(s[j]),
    ensures
        spec_trim_start(s) == spec_trim_start(s.skip(i)),
    decreases i,
{
    if i > 0 {
        assert(s.skip(0) =~= s);
        assert(is_space(s[0]));
        assert(spec_trim_start(s) == spec_trim_start(s.skip(1)));
        lemma_trim_start_skip(s.skip(1), i - 1);
        assert(s.skip(1).skip(i - 1) =~= s.skip(i));
    } else {
        assert(s.skip(0) =~= s);
    }
}

proof fn lemma_trim_end_take(s: Seq<char>, i: int)
    requires
        0 <= i <= s.len(),
        forall|j: int| i <= j < s.len() ==> is_space(s[j]),
    ensures
        spec_trim_end(s) == spec_trim_end(s.take(i)),
    decreases s.len() - i,
{
    if i < s.len() {
        assert(is_space(s[s.len() - 1]));
        lemma_trim_end_take(s.take(s.len() - 1), i);
        assert(s.take(s.len() - 1).take(i) =~= s.take(i));
    } else {
        assert(s.take(i) =~= s);
    }
}

fn is_space_char(c: char) -> (r: bool)
    ensures
        r == is_space(c),
{
    c == ' ' || c == '\t' || c == '\n' || c == '\r' || c == '\u{0b}' || c == '\u{0c}'
}

/// Remove leading and trailing space characters.
pub fn trim(s: &str) -> (r: String)
    ensures
        r@ == spec_trim(s@),
{
    let len = s.unicode_len();
    let mut start: usize = 0;
    while start < len && is_space_char(s.get_char(start))
        invariant
            len == s@.len(),
            start <= len,
            forall|j: int| 0 <= j < start ==> is_space(s@[j]),
        decreases len - start,
    {
        start = start + 1;
    }
    proof {
        lemma_trim_start_skip(s@, start as int);
    }
    let ghost mid = s@.skip(start as int);
    assert(spec_trim_start(s@) == mid) by {
        if start < len {
            assert(mid[0] == s@[start as int]);
            assert(!is_space(mid[0]));
        }
    }
    let mut end: usize = len;
    while end > start && is_space_char(s.get_char(end - 1))
        invariant
            len == s@.len(),
            start <= end <= len,
            forall|j: int| end <= j < len ==> is_space(s@[j]),
        decreases end,
    {
        end = end - 1;
    }
    proof {
        lemma_trim_end_take(mid, end - start);
        assert(mid.take(end - start) =~= s@.subrange(start as int, end as int));
        if end > start {
            assert(mid.take(end - start)[end - start - 1] == s@[end - 1]);
        }
    }
    let piece = s.substring_char(start, end);
    let r = piece.to_owned();
    assert(r@ == spec_trim(s@)) by {
        assert(spec_trim_end(mid) == spec_trim_end(mid.take(end - start)));
        if end > start {
            assert(!is_space(mid.take(end - start)[end - start - 1]));
        }
    }
    r
}

} // verus!
