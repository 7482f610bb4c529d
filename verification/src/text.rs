//! Line-oriented `KEY=value` text: how a block of text falls into lines, and
//! what value a line gives to a key.
use vstd::prelude::*;

verus! {

/// Whether `c` is whitespace: whether Unicode marks it `White_Space`.
pub open spec fn is_whitespace(c: char) -> bool {
    let n = c as u32;
    ||| 0x09 <= n <= 0x0D
    ||| n == 0x20
    ||| n == 0x85
    ||| n == 0xA0
    ||| n == 0x1680
    ||| 0x2000 <= n <= 0x200A
    ||| n == 0x2028
    ||| n == 0x2029
    ||| n == 0x202F
    ||| n == 0x205F
    ||| n == 0x3000
}

/// The index of the first `c` in `s`, or `s.len()` where `s` holds none.
pub open spec fn position(s: Seq<char>, c: char) -> nat
    decreases s.len(),
{
    if s.len() == 0 || s[0] == c {
        0
    } else {
        1 + position(s.drop_first(), c)
    }
}

/// What follows the first `c` in `s`; nothing where `s` holds no `c`.
pub open spec fn after(s: Seq<char>, c: char) -> Seq<char> {
    if position(s, c) < s.len() {
        s.skip(position(s, c) as int + 1)
    } else {
        Seq::empty()
    }
}

/// What stands before the first `c` in `s`; all of `s` where it holds no `c`.
pub open spec fn before(s: Seq<char>, c: char) -> Seq<char> {
    s.take(position(s, c) as int)
}

/// `s` without its leading whitespace.
pub open spec fn trim_start(s: Seq<char>) -> Seq<char>
    decreases s.len(),
{
    if s.len() > 0 && is_whitespace(s[0]) {
        trim_start(s.drop_first())
    } else {
        s
    }
}

/// `s` without its trailing whitespace.
pub open spec fn trim_end(s: Seq<char>) -> Seq<char>
    decreases s.len(),
{
    if s.len() > 0 && is_whitespace(s.last()) {
        trim_end(s.drop_last())
    } else {
        s
    }
}

/// `s` without the whitespace around it.
pub open spec fn trim(s: Seq<char>) -> Seq<char> {
    trim_end(trim_start(s))
}

/// `s` without one carriage return at its end.
pub open spec fn strip_cr(s: Seq<char>) -> Seq<char> {
    if s.len() > 0 && s.last() == '\r' {
        s.drop_last()
    } else {
        s
    }
}

/// The lines of `s`. A line ends at a line feed, or at a carriage return
/// directly followed by one; neither belongs to the line. The last line needs
/// no line ending, and an empty rest after the last line ending is no line.
pub open spec fn lines(s: Seq<char>) -> Seq<Seq<char>>
    decreases s.len(),
{
    let n = position(s, '\n');
    if s.len() == 0 {
        Seq::empty()
    } else if n >= s.len() {
        seq![s]
    } else {
        seq![strip_cr(s.take(n as int))] + lines(s.skip(n as int + 1))
    }
}

/// Whether a trimmed line is a comment.
pub open spec fn is_comment(t: Seq<char>) -> bool {
    t.len() > 0 && t[0] == '#'
}

/// Whether `t` begins with `key` and an equals sign.
pub open spec fn has_key(t: Seq<char>, key: Seq<char>) -> bool {
    (key + seq!['=']).is_prefix_of(t)
}

/// The value that one line of a configuration gives to `key`, if it gives
/// one: the line is trimmed, must be no comment and begin with `key=`; the
/// value is what follows the first equals sign, up to the first space.
pub open spec fn config_value(line: Seq<char>, key: Seq<char>) -> Option<Seq<char>> {
    let t = trim(line);
    if !is_comment(t) && has_key(t, key) {
        Some(before(after(t, '='), ' '))
    } else {
        None
    }
}

/// The value that one line gives to `key` when the line is taken as it
/// stands: it must begin with `key=`, and the value is all that follows the
/// first equals sign.
pub open spec fn raw_value(line: Seq<char>, key: Seq<char>) -> Option<Seq<char>> {
    if has_key(line, key) {
        Some(after(line, '='))
    } else {
        None
    }
}

/// The value of `key` in a configuration of the lines `ls`: that of the last
/// line which gives it one.
pub open spec fn lookup(ls: Seq<Seq<char>>, key: Seq<char>) -> Option<Seq<char>>
    decreases ls.len(),
{
    if ls.len() == 0 {
        None
    } else if config_value(ls.last(), key) is Some {
        config_value(ls.last(), key)
    } else {
        lookup(ls.drop_last(), key)
    }
}

/// As `lookup`, with each line taken as it stands.
pub open spec fn lookup_raw(ls: Seq<Seq<char>>, key: Seq<char>) -> Option<Seq<char>>
    decreases ls.len(),
{
    if ls.len() == 0 {
        None
    } else if raw_value(ls.last(), key) is Some {
        raw_value(ls.last(), key)
    } else {
        lookup_raw(ls.drop_last(), key)
    }
}

/// The parts of `chars` that the index pairs `bounds` mark out.
spec fn ranges(chars: Seq<char>, bounds: Seq<(usize, usize)>) -> Seq<Seq<char>> {
    Seq::new(bounds.len(), |k: int| chars.subrange(bounds[k].0 as int, bounds[k].1 as int))
}

/// A text cut into its lines.
pub struct TextLines<'a> {
    text: &'a str,
    chars: Vec<char>,
    bounds: Vec<(usize, usize)>,
}

impl<'a> View for TextLines<'a> {
    type V = Seq<Seq<char>>;

    closed spec fn view(&self) -> Seq<Seq<char>> {
        ranges(self.chars@, self.bounds@)
    }
}

impl<'a> TextLines<'a> {
    #[verifier::type_invariant]
    spec fn inv(self) -> bool {
        &&& self.chars@ == self.text@
        &&& forall|k: int|
            0 <= k < self.bounds.len() ==> (#[trigger] self.bounds[k]).0 <= self.bounds[k].1
                <= self.chars.len()
    }

    /// Cuts `text` into its lines.
    pub fn new(text: &'a str) -> (r: Self)
        ensures
            r@ == lines(text@),
    {
        let chars = to_chars(text);
        let n = chars.len();
        let mut bounds: Vec<(usize, usize)> = Vec::new();
        let mut start: usize = 0;
        let mut i: usize = 0;
        assert(chars@.skip(0) == chars@);
        while i < n
            invariant
                start <= i <= n == chars.len(),
                forall|j: int| start <= j < i ==> chars[j] != '\n',
                forall|k: int|
                    0 <= k < bounds.len() ==> (#[trigger] bounds[k]).0 <= bounds[k].1 <= n,
                lines(chars@) == ranges(chars@, bounds@) + lines(chars@.skip(start as int)),
            decreases n - i,
        {
            if chars[i] == '\n' {
                let end = if i > start && chars[i - 1] == '\r' {
                    i - 1
                } else {
                    i
                };
                proof {
                    let rest = chars@.skip(start as int);
                    lemma_position_is(rest, '\n', i - start);
                    assert(rest.take(i - start) == chars@.subrange(start as int, i as int));
                    assert(rest.skip(i - start + 1) == chars@.skip(i + 1));
                    assert(strip_cr(chars@.subrange(start as int, i as int)) == chars@.subrange(
                        start as int,
                        end as int,
                    ));
                }
                bounds.push((start, end));
                start = i + 1;
            }
            i += 1;
        }
        if start < n {
            proof {
                lemma_position_is(chars@.skip(start as int), '\n', n - start);
            }
            bounds.push((start, n));
        }
        TextLines { text, chars, bounds }
    }

    /// The value of `key`, by the rule of `lookup`.
    pub fn value_of(&self, key: &str) -> (r: Option<String>)
        ensures
            r.deep_view() == lookup(self@, key@),
    {
        self.find(key, false)
    }

    /// The value of `key`, by the rule of `lookup_raw`.
    pub fn raw_value_of(&self, key: &str) -> (r: Option<String>)
        ensures
            r.deep_view() == lookup_raw(self@, key@),
    {
        self.find(key, true)
    }

    /// Goes through the lines from the last to the first, up to one that
    /// gives `key` a value.
    fn find(&self, key: &str, verbatim: bool) -> (r: Option<String>)
        ensures
            r.deep_view() == (if verbatim {
                lookup_raw(self@, key@)
            } else {
                lookup(self@, key@)
            }),
    {
        proof {
            use_type_invariant(self);
        }
        let key_chars = to_chars(key);
        let mut k: usize = self.bounds.len();
        assert(self@.take(k as int) == self@);
        while k > 0
            invariant
                k <= self.bounds.len(),
                key_chars@ == key@,
                self.chars@ == self.text@,
                forall|i: int|
                    0 <= i < self.bounds.len() ==> (#[trigger] self.bounds[i]).0
                        <= self.bounds[i].1 <= self.chars.len(),
                verbatim ==> lookup_raw(self@, key@) == lookup_raw(self@.take(k as int), key@),
                !verbatim ==> lookup(self@, key@) == lookup(self@.take(k as int), key@),
            decreases k,
        {
            k -= 1;
            let (a, b) = self.bounds[k];
            assert(self@.take(k + 1).drop_last() == self@.take(k as int));
            let found = if verbatim {
                raw_value_range(&self.chars, a, b, &key_chars)
            } else {
                config_value_range(&self.chars, a, b, &key_chars)
            };
            if let Some((va, vb)) = found {
                return Some(self.text.substring_char(va, vb).to_owned());
            }
        }
        None
    }
}

/// The characters of `text`, one by one.
pub fn to_chars(text: &str) -> (v: Vec<char>)
    ensures
        v@ == text@,
{
    let mut v: Vec<char> = Vec::new();
    for c in it: text.chars()
        invariant
            it.seq() == text@,
            v@ == it.seq().take(it.index()),
    {
        v.push(c);
    }
    v
}

/// Whether two texts are equal.
pub fn same_str(a: &str, b: &str) -> (r: bool)
    ensures
        r == (a@ == b@),
{
    a.to_owned() == b.to_owned()
}

/// Whether two optional texts are both absent, or both present and equal.
pub fn same_text(a: &Option<String>, b: &Option<String>) -> (r: bool)
    ensures
        r == (a.deep_view() == b.deep_view()),
{
    match (a, b) {
        (Some(x), Some(y)) => *x == *y,
        (None, None) => true,
        _ => false,
    }
}

fn is_whitespace_char(c: char) -> (r: bool)
    ensures
        r == is_whitespace(c),
{
    let n: u32 = c as u32;
    (0x09 <= n && n <= 0x0D) || n == 0x20 || n == 0x85 || n == 0xA0 || n == 0x1680 || (0x2000 <= n
        && n <= 0x200A) || n == 0x2028 || n == 0x2029 || n == 0x202F || n == 0x205F || n == 0x3000
}

/// Finds the first `c` in `chars[a..b]`.
fn find_char(chars: &Vec<char>, a: usize, b: usize, c: char) -> (r: usize)
    requires
        a <= b <= chars.len(),
    ensures
        r == a + position(chars@.subrange(a as int, b as int), c),
        a <= r <= b,
{
    let ghost s = chars@.subrange(a as int, b as int);
    let mut i: usize = a;
    while i < b && chars[i] != c
        invariant
            a <= i <= b <= chars.len(),
            s == chars@.subrange(a as int, b as int),
            forall|j: int| 0 <= j < i - a ==> s[j] != c,
        decreases b - i,
    {
        i += 1;
    }
    proof {
        lemma_position_is(s, c, i - a);
    }
    i
}

/// Narrows `chars[a..b]` to what `trim` leaves of it.
fn trim_range(chars: &Vec<char>, a: usize, b: usize) -> (r: (usize, usize))
    requires
        a <= b <= chars.len(),
    ensures
        a <= r.0 <= r.1 <= b,
        chars@.subrange(r.0 as int, r.1 as int) == trim(chars@.subrange(a as int, b as int)),
{
    let mut ta: usize = a;
    while ta < b && is_whitespace_char(chars[ta])
        invariant
            a <= ta <= b <= chars.len(),
            trim_start(chars@.subrange(a as int, b as int)) == trim_start(
                chars@.subrange(ta as int, b as int),
            ),
        decreases b - ta,
    {
        assert(chars@.subrange(ta as int, b as int).drop_first() == chars@.subrange(
            ta + 1,
            b as int,
        ));
        ta += 1;
    }
    let mut tb: usize = b;
    while tb > ta && is_whitespace_char(chars[tb - 1])
        invariant
            ta <= tb <= b <= chars.len(),
            trim_end(chars@.subrange(ta as int, b as int)) == trim_end(
                chars@.subrange(ta as int, tb as int),
            ),
        decreases tb - ta,
    {
        assert(chars@.subrange(ta as int, tb as int).drop_last() == chars@.subrange(
            ta as int,
            tb - 1,
        ));
        tb -= 1;
    }
    (ta, tb)
}

/// Whether `chars[a..b]` begins with `key` and an equals sign.
fn range_has_key(chars: &Vec<char>, a: usize, b: usize, key: &Vec<char>) -> (r: bool)
    requires
        a <= b <= chars.len(),
    ensures
        r == has_key(chars@.subrange(a as int, b as int), key@),
{
    let ghost t = chars@.subrange(a as int, b as int);
    let ghost p = key@ + seq!['='];
    let klen = key.len();
    if b - a <= klen {
        return false;
    }
    let mut j: usize = 0;
    while j < klen
        invariant
            a <= b <= chars.len(),
            klen == key.len(),
            klen < b - a,
            j <= klen,
            t == chars@.subrange(a as int, b as int),
            p == key@ + seq!['='],
            forall|i: int| 0 <= i < j ==> t[i] == key[i],
        decreases klen - j,
    {
        if chars[a + j] != key[j] {
            assert(t.subrange(0, p.len() as int)[j as int] != p[j as int]);
            return false;
        }
        j += 1;
    }
    if chars[a + klen] == '=' {
        true
    } else {
        assert(t.subrange(0, p.len() as int)[klen as int] != p[klen as int]);
        false
    }
}

/// Where in the line `chars[a..b]` the value stands that the line gives to
/// `key`, by the rule of `config_value`.
fn config_value_range(chars: &Vec<char>, a: usize, b: usize, key: &Vec<char>) -> (r: Option<
    (usize, usize),
>)
    requires
        a <= b <= chars.len(),
    ensures
        match r {
            Some((va, vb)) => a <= va <= vb <= b && config_value(
                chars@.subrange(a as int, b as int),
                key@,
            ) == Some(chars@.subrange(va as int, vb as int)),
            None => config_value(chars@.subrange(a as int, b as int), key@) is None,
        },
{
    let (ta, tb) = trim_range(chars, a, b);
    let ghost t = chars@.subrange(ta as int, tb as int);
    if ta < tb && chars[ta] == '#' {
        return None;
    }
    if !range_has_key(chars, ta, tb, key) {
        return None;
    }
    let eq = find_char(chars, ta, tb, '=');
    proof {
        lemma_has_key_holds_equals(t, key@);
    }
    let va = eq + 1;
    let vb = find_char(chars, va, tb, ' ');
    assert(after(t, '=') == chars@.subrange(va as int, tb as int));
    Some((va, vb))
}

/// Where in the line `chars[a..b]` the value stands that the line gives to
/// `key`, by the rule of `raw_value`.
fn raw_value_range(chars: &Vec<char>, a: usize, b: usize, key: &Vec<char>) -> (r: Option<
    (usize, usize),
>)
    requires
        a <= b <= chars.len(),
    ensures
        match r {
            Some((va, vb)) => a <= va <= vb <= b && raw_value(
                chars@.subrange(a as int, b as int),
                key@,
            ) == Some(chars@.subrange(va as int, vb as int)),
            None => raw_value(chars@.subrange(a as int, b as int), key@) is None,
        },
{
    let ghost t = chars@.subrange(a as int, b as int);
    if !range_has_key(chars, a, b, key) {
        return None;
    }
    let eq = find_char(chars, a, b, '=');
    proof {
        lemma_has_key_holds_equals(t, key@);
    }
    Some((eq + 1, b))
}

/// `position` finds a `c`, and none stands before it.
proof fn lemma_position(s: Seq<char>, c: char)
    ensures
        position(s, c) <= s.len(),
        forall|j: int| 0 <= j < position(s, c) ==> s[j] != c,
        position(s, c) < s.len() ==> s[position(s, c) as int] == c,
    decreases s.len(),
{
    if s.len() == 0 || s[0] == c {
    } else {
        let t = s.drop_first();
        lemma_position(t, c);
        assert forall|j: int| 0 <= j < position(s, c) implies s[j] != c by {
            if j > 0 {
                assert(s[j] == t[j - 1]);
            }
        }
    }
}

/// An index with no `c` before it, which holds a `c` or is the length, is
/// what `position` gives.
proof fn lemma_position_is(s: Seq<char>, c: char, k: int)
    requires
        0 <= k <= s.len(),
        forall|j: int| 0 <= j < k ==> s[j] != c,
        k < s.len() ==> s[k] == c,
    ensures
        position(s, c) == k,
    decreases s.len(),
{
    if s.len() == 0 || s[0] == c {
    } else {
        let t = s.drop_first();
        assert forall|j: int| 0 <= j < k - 1 implies t[j] != c by {
            assert(t[j] == s[j + 1]);
        }
        lemma_position_is(t, c, k - 1);
    }
}

/// A line that begins with a key and an equals sign holds an equals sign.
proof fn lemma_has_key_holds_equals(t: Seq<char>, key: Seq<char>)
    requires
        has_key(t, key),
    ensures
        position(t, '=') < t.len(),
{
    lemma_position(t, '=');
    let p = key + seq!['='];
    assert(t.subrange(0, p.len() as int)[key.len() as int] == p[key.len() as int]);
}

/// What `trim_start` leaves does not begin with whitespace.
proof fn lemma_trim_start_begins(s: Seq<char>)
    ensures
        trim_start(s).len() > 0 ==> !is_whitespace(trim_start(s)[0]),
    decreases s.len(),
{
    if s.len() > 0 && is_whitespace(s[0]) {
        lemma_trim_start_begins(s.drop_first());
    }
}

/// What `trim_end` leaves does not end with whitespace.
proof fn lemma_trim_end_ends(s: Seq<char>)
    ensures
        trim_end(s).len() > 0 ==> !is_whitespace(trim_end(s).last()),
    decreases s.len(),
{
    if s.len() > 0 && is_whitespace(s.last()) {
        lemma_trim_end_ends(s.drop_last());
    }
}

/// What `trim_end` leaves of a text is the text's beginning.
proof fn lemma_trim_end_is_prefix(s: Seq<char>)
    ensures
        trim_end(s).len() <= s.len(),
        trim_end(s) == s.take(trim_end(s).len() as int),
    decreases s.len(),
{
    if s.len() > 0 && is_whitespace(s.last()) {
        lemma_trim_end_is_prefix(s.drop_last());
    }
}

/// `trim_end` stops at a character that is no whitespace.
proof fn lemma_trim_end_stops(head: Seq<char>, tail: Seq<char>)
    requires
        head.len() > 0,
        !is_whitespace(head.last()),
    ensures
        trim_end(head + tail) == head + trim_end(tail),
    decreases tail.len(),
{
    if tail.len() > 0 && is_whitespace(tail.last()) {
        assert((head + tail).drop_last() == head + tail.drop_last());
        lemma_trim_end_stops(head, tail.drop_last());
    }
}

/// What `trim` leaves of a text neither begins nor ends with whitespace.
pub proof fn trim_leaves_no_whitespace_around(s: Seq<char>)
    ensures
        trim(s).len() > 0 ==> !is_whitespace(trim(s)[0]) && !is_whitespace(trim(s).last()),
{
    let t = trim_start(s);
    lemma_trim_start_begins(s);
    lemma_trim_end_ends(t);
    lemma_trim_end_is_prefix(t);
}

/// No line of a text holds a line feed.
pub proof fn lines_hold_no_line_feed(s: Seq<char>)
    ensures
        forall|i: int, j: int|
            0 <= i < lines(s).len() && 0 <= j < lines(s)[i].len() ==> lines(s)[i][j] != '\n',
    decreases s.len(),
{
    let n = position(s, '\n');
    lemma_position(s, '\n');
    if n < s.len() {
        let first = strip_cr(s.take(n as int));
        let rest = lines(s.skip(n as int + 1));
        lines_hold_no_line_feed(s.skip(n as int + 1));
        assert forall|i: int, j: int|
            0 <= i < lines(s).len() && 0 <= j < lines(s)[i].len() implies lines(s)[i][j]
            != '\n' by {
            if i == 0 {
                assert(first[j] == s[j]);
            } else {
                assert(lines(s)[i] == rest[i - 1]);
            }
        }
    }
}

/// The value that a line of a configuration gives to a key holds no space.
pub proof fn config_value_holds_no_space(line: Seq<char>, key: Seq<char>)
    ensures
        config_value(line, key) matches Some(v) ==> forall|j: int|
            0 <= j < v.len() ==> v[j] != ' ',
{
    lemma_position(after(trim(line), '='), ' ');
}

/// A line more at the end of a configuration decides the value of a key
/// where it gives it one, and else leaves the value as it was.
pub proof fn last_line_wins(ls: Seq<Seq<char>>, line: Seq<char>, key: Seq<char>)
    ensures
        lookup(ls.push(line), key) == (if config_value(line, key) is Some {
            config_value(line, key)
        } else {
            lookup(ls, key)
        }),
        lookup_raw(ls.push(line), key) == (if raw_value(line, key) is Some {
            raw_value(line, key)
        } else {
            lookup_raw(ls, key)
        }),
{
    assert(ls.push(line).drop_last() == ls);
}

/// Lines that are empty or comments once they are trimmed give no key a
/// value.
pub proof fn comments_give_no_value(ls: Seq<Seq<char>>, key: Seq<char>)
    requires
        forall|i: int| 0 <= i < ls.len() ==> trim(ls[i]).len() == 0 || is_comment(trim(ls[i])),
    ensures
        lookup(ls, key) is None,
    decreases ls.len(),
{
    if ls.len() > 0 {
        comments_give_no_value(ls.drop_last(), key);
    }
}

/// A text of one line, which is `key`, an equals sign, a value without
/// whitespace and then nothing, or a space and anything, gives `key` that
/// value and nothing but it. The key begins with a character that is neither
/// whitespace nor `#`, and holds no equals sign.
pub proof fn single_line_gives_value(key: Seq<char>, value: Seq<char>, tail: Seq<char>)
    requires
        key.len() > 0,
        !is_whitespace(key[0]),
        key[0] != '#',
        forall|i: int| 0 <= i < key.len() ==> key[i] != '=' && key[i] != '\n',
        forall|i: int| 0 <= i < value.len() ==> !is_whitespace(value[i]),
        tail.len() == 0 || tail[0] == ' ',
        forall|i: int| 0 <= i < tail.len() ==> tail[i] != '\n',
    ensures
        lookup(lines(key + seq!['='] + value + tail), key) == Some(value),
{
    let head = key + seq!['='] + value;
    let line = head + tail;
    lemma_position_is(line, '\n', line.len() as int);
    lemma_trim_end_stops(head, tail);
    lemma_trim_end_is_prefix(tail);
    let rest = trim_end(tail);
    let t = head + rest;
    lemma_position_is(t, '=', key.len() as int);
    assert(after(t, '=') == value + rest);
    lemma_position_is(value + rest, ' ', value.len() as int);
}

/// A text of one line, which is `key`, an equals sign and a value, gives
/// `key` that value as it stands, whatever the value holds but a line feed.
/// The key holds no equals sign.
pub proof fn single_line_gives_raw_value(key: Seq<char>, value: Seq<char>)
    requires
        forall|i: int| 0 <= i < key.len() ==> key[i] != '=' && key[i] != '\n',
        forall|i: int| 0 <= i < value.len() ==> value[i] != '\n',
    ensures
        lookup_raw(lines(key + seq!['='] + value), key) == Some(value),
{
    let line = key + seq!['='] + value;
    lemma_position_is(line, '\n', line.len() as int);
    lemma_position_is(line, '=', key.len() as int);
}

} // verus!
