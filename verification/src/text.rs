//! Searching and cutting text, stated over sequences of characters.
//!
//! Every function here is total on every string. Positions count characters,
//! not bytes.
use vstd::prelude::*;

verus! {

/// `i` is the position of the first `c` in `s`.
pub open spec fn first_at(s: Seq<char>, c: char, i: int) -> bool {
    &&& 0 <= i < s.len()
    &&& s[i] == c
    &&& forall|j: int| 0 <= j < i ==> s[j] != c
}

/// `i` is the position of the last `c` in `s`.
pub open spec fn last_at(s: Seq<char>, c: char, i: int) -> bool {
    &&& 0 <= i < s.len()
    &&& s[i] == c
    &&& forall|j: int| i < j < s.len() ==> s[j] != c
}

/// The position of the first `c` in `s`, or the length of `s` where `s` holds no `c`.
pub open spec fn first_index(s: Seq<char>, c: char) -> int {
    if exists|i: int| first_at(s, c, i) {
        choose|i: int| first_at(s, c, i)
    } else {
        s.len() as int
    }
}

/// The position of the last `c` in `s`, or -1 where `s` holds no `c`.
pub open spec fn last_index(s: Seq<char>, c: char) -> int {
    if exists|i: int| last_at(s, c, i) {
        choose|i: int| last_at(s, c, i)
    } else {
        -1
    }
}

/// What stands before and after the first `c` of `s`, if there is one.
pub open spec fn split_once(s: Seq<char>, c: char) -> Option<(Seq<char>, Seq<char>)> {
    if s.contains(c) {
        let i = first_index(s, c);
        Some((s.take(i), s.skip(i + 1)))
    } else {
        None
    }
}

/// What follows the last `c` of `s`; all of `s` where it holds no `c`.
pub open spec fn last_segment(s: Seq<char>, c: char) -> Seq<char> {
    s.skip(last_index(s, c) + 1)
}

/// `pat` stands in `s` at position `i`.
pub open spec fn occurs_at(s: Seq<char>, pat: Seq<char>, i: int) -> bool {
    &&& 0 <= i
    &&& i + pat.len() <= s.len()
    &&& s.subrange(i, i + pat.len()) == pat
}

/// `pat` stands somewhere in `s`.
pub open spec fn contains_text(s: Seq<char>, pat: Seq<char>) -> bool {
    exists|i: int| occurs_at(s, pat, i)
}

/// `s` ends with `suffix`.
pub open spec fn ends_with(s: Seq<char>, suffix: Seq<char>) -> bool {
    suffix.len() <= s.len() && s.skip(s.len() - suffix.len()) == suffix
}

/// A line as it was cut off before a line feed: one carriage return at its end is dropped.
pub open spec fn without_carriage_return(line: Seq<char>) -> Seq<char> {
    if line.len() > 0 && line.last() == '\r' {
        line.drop_last()
    } else {
        line
    }
}

/// The lines of `s`. A line ends at a line feed, or at a carriage return directly
/// followed by one; the end of `s` closes a last line that is not empty.
pub open spec fn lines(s: Seq<char>) -> Seq<Seq<char>>
    decreases s.len(),
{
    if s.len() == 0 {
        Seq::empty()
    } else if s.contains('\n') {
        let i = first_index(s, '\n');
        if 0 <= i < s.len() {
            seq![without_carriage_return(s.take(i))] + lines(s.skip(i + 1))
        } else {
            seq![s]
        }
    } else {
        seq![s]
    }
}

/// The lines, with one line feed between each two.
pub open spec fn join_lines(ls: Seq<Seq<char>>) -> Seq<char>
    decreases ls.len(),
{
    if ls.len() == 0 {
        Seq::empty()
    } else if ls.len() == 1 {
        ls[0]
    } else {
        join_lines(ls.drop_last()) + seq!['\n'] + ls.last()
    }
}

/// The characters with Unicode's property White_Space.
pub open spec fn is_space(c: char) -> bool {
    let n = c as u32;
    ||| 0x09 <= n <= 0x0d
    ||| n == 0x20
    ||| n == 0x85
    ||| n == 0xa0
    ||| n == 0x1680
    ||| 0x2000 <= n <= 0x200a
    ||| n == 0x2028
    ||| n == 0x2029
    ||| n == 0x202f
    ||| n == 0x205f
    ||| n == 0x3000
}

/// The number of spaces that `s` begins with.
pub open spec fn leading_spaces(s: Seq<char>) -> nat
    decreases s.len(),
{
    if s.len() > 0 && is_space(s[0]) {
        1 + leading_spaces(s.drop_first())
    } else {
        0
    }
}

/// The number of spaces that `s` ends with.
pub open spec fn trailing_spaces(s: Seq<char>) -> nat
    decreases s.len(),
{
    if s.len() > 0 && is_space(s.last()) {
        1 + trailing_spaces(s.drop_last())
    } else {
        0
    }
}

/// `s` without the spaces at its two ends.
pub open spec fn trim(s: Seq<char>) -> Seq<char> {
    let a = leading_spaces(s) as int;
    if a == s.len() {
        Seq::empty()
    } else {
        s.subrange(a, s.len() - trailing_spaces(s))
    }
}

/// The ending of a file's name: what follows its last dot, where a dot stands
/// after the name's first character. The name `..` has none.
pub open spec fn extension_of(name: Seq<char>) -> Option<Seq<char>> {
    let dot = last_index(name, '.');
    if name == seq!['.', '.'] || dot <= 0 {
        None
    } else {
        Some(name.skip(dot + 1))
    }
}

/// A file's name without its ending and the dot before it.
pub open spec fn stem_of(name: Seq<char>) -> Seq<char> {
    let dot = last_index(name, '.');
    if name == seq!['.', '.'] || dot <= 0 {
        name
    } else {
        name.take(dot)
    }
}

/// The position of the first name at or after `from` that ends in `ending`;
/// the number of names where there is none.
pub open spec fn next_with_extension(names: Seq<Seq<char>>, from: int, ending: Seq<char>) -> int
    decreases names.len() - from,
{
    if from < 0 || from >= names.len() {
        names.len() as int
    } else if extension_of(names[from]) == Some(ending) {
        from
    } else {
        next_with_extension(names, from + 1, ending)
    }
}

/// What `next_with_extension` is: a position from `from` on whose name ends
/// in `ending`, with no such name between; or the number of names.
pub proof fn lemma_next_with_extension(names: Seq<Seq<char>>, from: int, ending: Seq<char>)
    requires
        0 <= from <= names.len(),
    ensures
        from <= next_with_extension(names, from, ending) <= names.len(),
        next_with_extension(names, from, ending) < names.len() ==> extension_of(
            names[next_with_extension(names, from, ending)],
        ) == Some(ending),
        forall|k: int|
            from <= k < next_with_extension(names, from, ending) ==> extension_of(
                #[trigger] names[k],
            ) != Some(ending),
    decreases names.len() - from,
{
    if from < names.len() && extension_of(names[from]) != Some(ending) {
        lemma_next_with_extension(names, from + 1, ending);
    }
}

/// A first position is the only one.
pub proof fn lemma_first_at_unique(s: Seq<char>, c: char, i: int, j: int)
    requires
        first_at(s, c, i),
        first_at(s, c, j),
    ensures
        i == j,
{
    if i < j {
        assert(s[i] != c);
    } else if j < i {
        assert(s[j] != c);
    }
}

/// A last position is the only one.
pub proof fn lemma_last_at_unique(s: Seq<char>, c: char, i: int, j: int)
    requires
        last_at(s, c, i),
        last_at(s, c, j),
    ensures
        i == j,
{
    if i < j {
        assert(s[j] != c);
    } else if j < i {
        assert(s[i] != c);
    }
}

/// What `first_index` is, by cases.
pub proof fn lemma_first_index(s: Seq<char>, c: char)
    ensures
        s.contains(c) ==> first_at(s, c, first_index(s, c)),
        !s.contains(c) ==> first_index(s, c) == s.len(),
        0 <= first_index(s, c) <= s.len(),
{
    if s.contains(c) {
        let k = choose|k: int| 0 <= k < s.len() && s[k] == c;
        lemma_first_exists(s, c, k);
    } else {
        if exists|i: int| first_at(s, c, i) {
            let i = choose|i: int| first_at(s, c, i);
            assert(s.contains(c));
        }
    }
}

proof fn lemma_first_exists(s: Seq<char>, c: char, k: int)
    requires
        0 <= k < s.len(),
        s[k] == c,
    ensures
        exists|i: int| first_at(s, c, i),
    decreases k,
{
    if forall|j: int| 0 <= j < k ==> s[j] != c {
        assert(first_at(s, c, k));
    } else {
        let j = choose|j: int| 0 <= j < k && s[j] == c;
        lemma_first_exists(s, c, j);
    }
}

/// What `last_index` is, by cases.
pub proof fn lemma_last_index(s: Seq<char>, c: char)
    ensures
        s.contains(c) ==> last_at(s, c, last_index(s, c)),
        !s.contains(c) ==> last_index(s, c) == -1,
        -1 <= last_index(s, c) < s.len(),
{
    if s.contains(c) {
        let k = choose|k: int| 0 <= k < s.len() && s[k] == c;
        lemma_last_exists(s, c, k);
    } else {
        if exists|i: int| last_at(s, c, i) {
            let i = choose|i: int| last_at(s, c, i);
            assert(s.contains(c));
        }
    }
}

proof fn lemma_last_exists(s: Seq<char>, c: char, k: int)
    requires
        0 <= k < s.len(),
        s[k] == c,
    ensures
        exists|i: int| last_at(s, c, i),
    decreases s.len() - k,
{
    if forall|j: int| k < j < s.len() ==> s[j] != c {
        assert(last_at(s, c, k));
    } else {
        let j = choose|j: int| k < j < s.len() && s[j] == c;
        lemma_last_exists(s, c, j);
    }
}

/// The lower-case form that the standard library gives a text.
pub uninterp spec fn lowercase_of(s: Seq<char>) -> Seq<char>;

/// Calls `str::to_lowercase`. Trusted: what it returns depends on the text
/// alone, not on a locale or on the machine.
#[verifier::external_body]
pub(crate) fn lowercase(s: &str) -> (r: String)
    ensures
        r@ == lowercase_of(s@),
{
    s.to_lowercase()
}

/// The characters of `s`, in a vector.
pub fn chars_of(s: &str) -> (v: Vec<char>)
    ensures
        v@ == s@,
{
    let mut v: Vec<char> = Vec::new();
    for c in it: s.chars()
        invariant
            it.seq() == s@,
            v@ == s@.take(it.index() as int),
    {
        v.push(c);
        assert(s@.take(it.index() + 1) =~= s@.take(it.index() as int).push(c));
    }
    assert(s@.take(s@.len() as int) =~= s@);
    v
}

/// The position of the first `c` at or after `from`; none where `from` lies
/// behind the end.
pub fn find_from(v: &Vec<char>, c: char, from: usize) -> (r: Option<usize>)
    ensures
        from > v.len() ==> r is None,
        from <= v.len() ==> match r {
            Some(i) => from <= i && first_at(v@.skip(from as int), c, i - from),
            None => !v@.skip(from as int).contains(c),
        },
{
    if from > v.len() {
        return None;
    }
    let mut i: usize = from;
    while i < v.len()
        invariant
            from <= i <= v.len(),
            forall|j: int| from <= j < i ==> v@[j] != c,
        decreases v.len() - i,
    {
        if v[i] == c {
            return Some(i);
        }
        i += 1;
    }
    proof {
        let tail = v@.skip(from as int);
        if tail.contains(c) {
            let k = choose|k: int| 0 <= k < tail.len() && tail[k] == c;
            assert(v@[from + k] == c);
        }
    }
    None
}

/// The position of the first `c`.
pub fn find_char(v: &Vec<char>, c: char) -> (r: Option<usize>)
    ensures
        match r {
            Some(i) => first_at(v@, c, i as int) && i == first_index(v@, c),
            None => !v@.contains(c) && first_index(v@, c) == v@.len(),
        },
        r is Some <==> v@.contains(c),
{
    let r = find_from(v, c, 0);
    proof {
        assert(v@.skip(0) =~= v@);
        lemma_first_index(v@, c);
        if let Some(i) = r {
            assert(v@.contains(c));
            lemma_first_at_unique(v@, c, i as int, first_index(v@, c));
        }
    }
    r
}

/// The position of the last `c`.
pub fn rfind_char(v: &Vec<char>, c: char) -> (r: Option<usize>)
    ensures
        match r {
            Some(i) => last_at(v@, c, i as int) && i == last_index(v@, c),
            None => !v@.contains(c) && last_index(v@, c) == -1,
        },
        r is Some <==> v@.contains(c),
{
    let mut i: usize = v.len();
    while i > 0
        invariant
            i <= v.len(),
            forall|j: int| i <= j < v.len() ==> v@[j] != c,
        decreases i,
    {
        i -= 1;
        if v[i] == c {
            proof {
                assert(last_at(v@, c, i as int));
                assert(v@.contains(c));
                lemma_last_index(v@, c);
                lemma_last_at_unique(v@, c, i as int, last_index(v@, c));
            }
            return Some(i);
        }
    }
    proof {
        lemma_last_index(v@, c);
    }
    None
}

/// Whether `pat` stands in `v` at position `at`.
pub fn matches_at(v: &Vec<char>, pat: &Vec<char>, at: usize) -> (r: bool)
    ensures
        r == occurs_at(v@, pat@, at as int),
{
    if pat.len() > v.len() || at > v.len() - pat.len() {
        return false;
    }
    let mut k: usize = 0;
    while k < pat.len()
        invariant
            k <= pat.len(),
            at + pat.len() <= v.len(),
            forall|j: int| 0 <= j < k ==> v@[at + j] == pat@[j],
        decreases pat.len() - k,
    {
        if v[at + k] != pat[k] {
            proof {
                let window = v@.subrange(at as int, at + pat.len());
                assert(window[k as int] != pat@[k as int]);
            }
            return false;
        }
        k += 1;
    }
    assert(v@.subrange(at as int, at + pat.len()) =~= pat@);
    true
}

/// Whether `pat` stands somewhere in `v`.
pub fn contains_chars(v: &Vec<char>, pat: &Vec<char>) -> (r: bool)
    ensures
        r == contains_text(v@, pat@),
{
    if pat.len() > v.len() {
        assert(forall|i: int| !occurs_at(v@, pat@, i));
        return false;
    }
    let last: usize = v.len() - pat.len();
    let mut i: usize = 0;
    loop
        invariant
            i <= last,
            last == v.len() - pat.len(),
            forall|j: int| 0 <= j < i ==> !occurs_at(v@, pat@, j),
        ensures
            i == last,
            forall|j: int| 0 <= j <= last ==> !occurs_at(v@, pat@, j),
        decreases last - i,
    {
        if matches_at(v, pat, i) {
            return true;
        }
        if i == last {
            break;
        }
        i += 1;
    }
    assert(forall|j: int| !occurs_at(v@, pat@, j));
    false
}

/// Whether `v` ends with `suffix`.
pub fn ends_with_chars(v: &Vec<char>, suffix: &Vec<char>) -> (r: bool)
    ensures
        r == ends_with(v@, suffix@),
{
    if suffix.len() > v.len() {
        return false;
    }
    let at: usize = v.len() - suffix.len();
    let r = matches_at(v, suffix, at);
    assert(v@.subrange(at as int, at + suffix.len()) =~= v@.skip(v@.len() - suffix@.len()));
    r
}

/// The texts that the ranges cut out of `s`.
pub open spec fn cut(s: Seq<char>, ranges: Seq<(usize, usize)>) -> Seq<Seq<char>> {
    Seq::new(ranges.len(), |k: int| s.subrange(ranges[k].0 as int, ranges[k].1 as int))
}

/// Every range lies within a text of `len` characters.
pub open spec fn ranges_within(ranges: Seq<(usize, usize)>, len: nat) -> bool {
    forall|k: int| 0 <= k < ranges.len() ==> (#[trigger] ranges[k]).0 <= ranges[k].1 <= len
}

/// Where each line of `v` begins and ends.
pub fn line_ranges(v: &Vec<char>) -> (r: Vec<(usize, usize)>)
    ensures
        ranges_within(r@, v@.len()),
        cut(v@, r@) == lines(v@),
{
    let mut r: Vec<(usize, usize)> = Vec::new();
    let mut pos: usize = 0;
    assert(v@.skip(0) =~= v@);
    while pos < v.len()
        invariant
            pos <= v.len(),
            ranges_within(r@, v@.len()),
            lines(v@) =~= cut(v@, r@) + lines(v@.skip(pos as int)),
        decreases v.len() - pos,
    {
        let ghost rest = v@.skip(pos as int);
        let ghost before = r@;
        match find_from(v, '\n', pos) {
            Some(i) => {
                let end: usize = if i > pos && v[i - 1] == '\r' {
                    i - 1
                } else {
                    i
                };
                proof {
                    assert(rest.contains('\n'));
                    lemma_first_index(rest, '\n');
                    lemma_first_at_unique(rest, '\n', i - pos, first_index(rest, '\n'));
                    assert(rest.take(i - pos) =~= v@.subrange(pos as int, i as int));
                    assert(rest.skip(i - pos + 1) =~= v@.skip(i + 1));
                    assert(without_carriage_return(rest.take(i - pos)) =~= v@.subrange(
                        pos as int,
                        end as int,
                    ));
                }
                r.push((pos, end));
                proof {
                    assert(cut(v@, r@) =~= cut(v@, before) + seq![v@.subrange(pos as int, end as int)]);
                }
                pos = i + 1;
            },
            None => {
                proof {
                    assert(rest =~= v@.subrange(pos as int, v@.len() as int));
                    assert(v@.skip(v@.len() as int) =~= Seq::<char>::empty());
                }
                r.push((pos, v.len()));
                proof {
                    assert(cut(v@, r@) =~= cut(v@, before) + seq![rest]);
                }
                pos = v.len();
            },
        }
    }
    proof {
        assert(v@.skip(pos as int).len() == 0);
        assert(lines(v@) =~= cut(v@, r@));
    }
    r
}

/// Whether `c` has Unicode's property White_Space.
pub fn is_space_char(c: char) -> (r: bool)
    ensures
        r == is_space(c),
{
    let n: u32 = c as u32;
    (0x09 <= n && n <= 0x0d) || n == 0x20 || n == 0x85 || n == 0xa0 || n == 0x1680 || (0x2000 <= n
        && n <= 0x200a) || n == 0x2028 || n == 0x2029 || n == 0x202f || n == 0x205f || n == 0x3000
}

/// Where `v` begins and ends once the spaces at its two ends are left out.
pub fn trim_range(v: &Vec<char>) -> (r: (usize, usize))
    ensures
        r.0 <= r.1 <= v@.len(),
        v@.subrange(r.0 as int, r.1 as int) == trim(v@),
{
    let mut a: usize = 0;
    assert(v@.skip(0) =~= v@);
    while a < v.len() && is_space_char(v[a])
        invariant
            a <= v.len(),
            leading_spaces(v@) == a + leading_spaces(v@.skip(a as int)),
        decreases v.len() - a,
    {
        assert(v@.skip(a as int).drop_first() =~= v@.skip(a + 1));
        a += 1;
    }
    if a == v.len() {
        assert(v@.subrange(a as int, a as int) =~= Seq::<char>::empty());
        return (a, a);
    }
    let mut b: usize = v.len();
    assert(v@.take(v@.len() as int) =~= v@);
    while b > 0 && is_space_char(v[b - 1])
        invariant
            a < b <= v.len(),
            !is_space(v@[a as int]),
            trailing_spaces(v@) == (v@.len() - b) + trailing_spaces(v@.take(b as int)),
        decreases b,
    {
        assert(v@.take(b as int).drop_last() =~= v@.take(b - 1));
        b -= 1;
    }
    (a, b)
}

/// `a` followed by `b`.
pub fn join2(a: &str, b: &str) -> (r: String)
    ensures
        r@ == a@ + b@,
{
    let mut r = String::from_str(a);
    r.append(b);
    r
}

/// `a`, `b` and `c` in a row.
pub fn join3(a: &str, b: &str, c: &str) -> (r: String)
    ensures
        r@ == a@ + b@ + c@,
{
    let mut r = String::from_str(a);
    r.append(b);
    r.append(c);
    r
}

/// What follows the last `c` of `s`; all of `s` where it holds no `c`.
pub fn last_part(s: &str, c: char) -> (r: String)
    ensures
        r@ == last_segment(s@, c),
{
    let chars = chars_of(s);
    let start: usize = match rfind_char(&chars, c) {
        Some(at) => {
            assert(at < chars.len());
            at + 1
        },
        None => 0,
    };
    assert(s@.subrange(start as int, chars@.len() as int) =~= last_segment(s@, c));
    String::from_str(s.substring_char(start, chars.len()))
}

/// Whether two strings hold the same characters.
pub fn same_text(a: &str, b: &str) -> (r: bool)
    ensures
        r == (a@ == b@),
{
    let x = String::from_str(a);
    let y = String::from_str(b);
    x == y
}

/// Where the ending of the name begins, if it has one.
fn extension_start(v: &Vec<char>) -> (r: Option<usize>)
    ensures
        match r {
            Some(at) => 1 <= at <= v@.len() && extension_of(v@) == Some(v@.skip(at as int)) && stem_of(
                v@,
            ) == v@.take(at - 1),
            None => extension_of(v@) is None && stem_of(v@) == v@,
        },
{
    if v.len() == 2 && v[0] == '.' && v[1] == '.' {
        assert(v@ =~= seq!['.', '.']);
        return None;
    }
    proof {
        if v@ == seq!['.', '.'] {
            assert(v@.len() == 2 && v@[0] == '.' && v@[1] == '.');
        }
    }
    match rfind_char(v, '.') {
        Some(dot) => if dot == 0 {
            None
        } else {
            Some(dot + 1)
        },
        None => None,
    }
}

/// Whether the file's name ends in `ending`.
pub fn has_extension(name: &str, ending: &str) -> (r: bool)
    ensures
        r == (extension_of(name@) == Some(ending@)),
{
    let v = chars_of(name);
    match extension_start(&v) {
        Some(at) => {
            let tail = name.substring_char(at, v.len());
            assert(name@.subrange(at as int, v@.len() as int) =~= name@.skip(at as int));
            same_text(tail, ending)
        },
        None => false,
    }
}

/// The file's name without its ending.
pub fn file_stem(name: &str) -> (r: String)
    ensures
        r@ == stem_of(name@),
{
    let v = chars_of(name);
    match extension_start(&v) {
        Some(at) => {
            assert(name@.subrange(0, at - 1) =~= name@.take(at - 1));
            String::from_str(name.substring_char(0, at - 1))
        },
        None => String::from_str(name),
    }
}

/// The position of the first name at or after `from` that ends in `ending`.
pub fn find_extension(names: &Vec<String>, from: usize, ending: &str) -> (r: usize)
    ensures
        r == next_with_extension(names.deep_view(), from as int, ending@),
        r <= names.len(),
        from <= r || r == names.len(),
{
    let mut i: usize = from;
    while i < names.len()
        invariant
            next_with_extension(names.deep_view(), from as int, ending@) == next_with_extension(
                names.deep_view(),
                i as int,
                ending@,
            ),
            from <= i,
        decreases names.len() - i,
    {
        assert(names.deep_view()[i as int] == names@[i as int]@);
        if has_extension(names[i].as_str(), ending) {
            return i;
        }
        i += 1;
    }
    names.len()
}

} // verus!
