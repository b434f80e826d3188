//! Text as the host reads it from `adb` and writes it to `adb`: white space,
//! lines, words and decimal numbers, over sequences of characters.
use vstd::prelude::*;
use vstd::string::*;

verus! {

/// The characters that Unicode gives the property `White_Space`.
pub open spec fn white(c: char) -> bool {
    ||| '\u{9}' <= c <= '\u{d}'
    ||| c == '\u{20}'
    ||| c == '\u{85}'
    ||| c == '\u{a0}'
    ||| c == '\u{1680}'
    ||| '\u{2000}' <= c <= '\u{200a}'
    ||| c == '\u{2028}'
    ||| c == '\u{2029}'
    ||| c == '\u{202f}'
    ||| c == '\u{205f}'
    ||| c == '\u{3000}'
}

/// `s` without the white space at its front.
pub open spec fn trim_front(s: Seq<char>) -> Seq<char>
    decreases s.len(),
{
    if s.len() > 0 && white(s[0]) {
        trim_front(s.skip(1))
    } else {
        s
    }
}

/// `s` without the white space at its back.
pub open spec fn trim_back(s: Seq<char>) -> Seq<char>
    decreases s.len(),
{
    if s.len() > 0 && white(s.last()) {
        trim_back(s.drop_last())
    } else {
        s
    }
}

/// `s` without the white space at either end.
pub open spec fn trimmed(s: Seq<char>) -> Seq<char> {
    trim_back(trim_front(s))
}

/// How many characters of `s` come before its first white space.
pub open spec fn word_len(s: Seq<char>) -> nat
    decreases s.len(),
{
    if s.len() == 0 || white(s[0]) {
        0
    } else {
        1 + word_len(s.skip(1))
    }
}

/// A word is no longer than the text it starts.
pub proof fn lemma_word_len(s: Seq<char>)
    ensures
        word_len(s) <= s.len(),
    decreases s.len(),
{
    if s.len() > 0 && !white(s[0]) {
        lemma_word_len(s.skip(1));
    }
}

/// The longest runs of characters without white space, in order.
pub open spec fn words_of(s: Seq<char>) -> Seq<Seq<char>>
    decreases s.len(),
{
    if s.len() == 0 {
        seq![]
    } else if white(s[0]) {
        words_of(s.skip(1))
    } else {
        proof {
            lemma_word_len(s);
        }
        seq![s.take(word_len(s) as int)] + words_of(s.skip(word_len(s) as int))
    }
}

/// How many characters of `s` come before its first line feed.
pub open spec fn line_len(s: Seq<char>) -> nat
    decreases s.len(),
{
    if s.len() == 0 || s[0] == '\n' {
        0
    } else {
        1 + line_len(s.skip(1))
    }
}

/// A line reaches to the first line feed, or to the end of the text.
pub proof fn lemma_line_len(s: Seq<char>)
    ensures
        line_len(s) <= s.len(),
        line_len(s) < s.len() ==> s[line_len(s) as int] == '\n',
        forall|i: int| 0 <= i < line_len(s) ==> s[i] != '\n',
    decreases s.len(),
{
    if s.len() > 0 && s[0] != '\n' {
        lemma_line_len(s.skip(1));
        assert forall|i: int| 0 <= i < line_len(s) implies s[i] != '\n' by {
            if i > 0 {
                assert(s.skip(1)[i - 1] == s[i]);
            }
        }
    }
}

/// `s` without the carriage return at its back, if it ends in one.
pub open spec fn without_return(s: Seq<char>) -> Seq<char> {
    if s.len() > 0 && s.last() == '\r' {
        s.drop_last()
    } else {
        s
    }
}

/// The lines of `s`. A line ends at a line feed, or at a carriage return and a
/// line feed; neither belongs to the line. The last line needs no ending.
pub open spec fn lines_of(s: Seq<char>) -> Seq<Seq<char>>
    decreases s.len(),
{
    if s.len() == 0 {
        seq![]
    } else if line_len(s) >= s.len() {
        seq![s]
    } else {
        seq![without_return(s.take(line_len(s) as int))] + lines_of(
            s.skip(line_len(s) as int + 1),
        )
    }
}

/// `part` stands in `s` at position `i`.
pub open spec fn found_at(s: Seq<char>, part: Seq<char>, i: int) -> bool {
    0 <= i && i + part.len() <= s.len() && s.subrange(i, i + part.len()) == part
}

/// `part` stands somewhere in `s`.
pub open spec fn occurs(s: Seq<char>, part: Seq<char>) -> bool {
    exists|i: int| found_at(s, part, i)
}

/// The digit that stands for `d`.
pub open spec fn digit(d: nat) -> char {
    if d == 0 {
        '0'
    } else if d == 1 {
        '1'
    } else if d == 2 {
        '2'
    } else if d == 3 {
        '3'
    } else if d == 4 {
        '4'
    } else if d == 5 {
        '5'
    } else if d == 6 {
        '6'
    } else if d == 7 {
        '7'
    } else if d == 8 {
        '8'
    } else {
        '9'
    }
}

/// `n` in decimal notation, without leading zeros.
pub open spec fn decimal(n: nat) -> Seq<char>
    decreases n,
{
    if n < 10 {
        seq![digit(n)]
    } else {
        decimal(n / 10).push(digit(n % 10))
    }
}

/// `n` in decimal notation, with a minus sign in front if it is negative.
pub open spec fn signed_decimal(n: int) -> Seq<char> {
    if n < 0 {
        seq!['-'] + decimal((-n) as nat)
    } else {
        decimal(n as nat)
    }
}

/// The texts that a list of strings holds.
pub open spec fn texts(v: Seq<String>) -> Seq<Seq<char>> {
    Seq::new(v.len(), |i: int| v[i]@)
}

/// Whether `c` is white space.
pub fn is_white(c: char) -> (yes: bool)
    ensures
        yes == white(c),
{
    ('\u{9}' <= c && c <= '\u{d}') || c == '\u{20}' || c == '\u{85}' || c == '\u{a0}' || c
        == '\u{1680}' || ('\u{2000}' <= c && c <= '\u{200a}') || c == '\u{2028}' || c == '\u{2029}'
        || c == '\u{202f}' || c == '\u{205f}' || c == '\u{3000}'
}

/// The characters of `s`, for access by position.
pub fn chars_of(s: &str) -> (cs: Vec<char>)
    ensures
        cs@ == s@,
{
    let mut cs: Vec<char> = Vec::new();
    for c in it: s.chars()
        invariant
            it.seq() == s@,
            cs@ == s@.take(it.index() as int),
    {
        cs.push(c);
    }
    assert(s@.take(s@.len() as int) == s@);
    cs
}

/// `s` without the white space at either end.
pub fn trim(s: &str) -> (t: String)
    ensures
        t@ == trimmed(s@),
{
    let cs: Vec<char> = chars_of(s);
    let mut from: usize = 0;
    assert(cs@.skip(0) == cs@);
    while from < cs.len() && is_white(cs[from])
        invariant
            from <= cs.len(),
            trim_front(cs@.skip(from as int)) == trim_front(cs@),
        decreases cs.len() - from,
    {
        assert(cs@.skip(from as int).skip(1) == cs@.skip(from + 1));
        from = from + 1;
    }
    let ghost tail = cs@.skip(from as int);
    assert(trim_front(cs@) == tail);
    let mut to: usize = cs.len();
    assert(cs@.subrange(from as int, to as int) == tail);
    while from < to && is_white(cs[to - 1])
        invariant
            from <= to <= cs.len(),
            trim_back(cs@.subrange(from as int, to as int)) == trim_back(tail),
        decreases to,
    {
        assert(cs@.subrange(from as int, to as int).drop_last() == cs@.subrange(
            from as int,
            to - 1,
        ));
        to = to - 1;
    }
    s.substring_char(from, to).to_owned()
}

/// The words of `s`.
pub fn words(s: &str) -> (ws: Vec<String>)
    ensures
        texts(ws@) == words_of(s@),
{
    let cs: Vec<char> = chars_of(s);
    let mut ws: Vec<String> = Vec::new();
    let mut from: usize = 0;
    assert(cs@.skip(0) == cs@);
    while from < cs.len()
        invariant
            cs@ == s@,
            from <= cs.len(),
            texts(ws@) + words_of(cs@.skip(from as int)) == words_of(cs@),
        decreases cs.len() - from,
    {
        let ghost rest = cs@.skip(from as int);
        if is_white(cs[from]) {
            assert(rest.skip(1) == cs@.skip(from + 1));
            from = from + 1;
        } else {
            let mut to: usize = from;
            assert(rest.skip(0) == rest);
            while to < cs.len() && !is_white(cs[to])
                invariant
                    from <= to <= cs.len(),
                    rest == cs@.skip(from as int),
                    word_len(rest) == to - from + word_len(rest.skip(to - from)),
                decreases cs.len() - to,
            {
                assert(rest.skip(to - from).skip(1) == rest.skip(to + 1 - from));
                to = to + 1;
            }
            let word: String = s.substring_char(from, to).to_owned();
            assert(word@ == rest.take(to - from));
            assert(rest.skip(to - from) == cs@.skip(to as int));
            let ghost before = ws@;
            ws.push(word);
            assert(texts(ws@) == texts(before) + seq![word@]);
            from = to;
        }
    }
    assert(words_of(cs@.skip(from as int)) == Seq::<Seq<char>>::empty());
    ws
}

/// The lines of `s`.
pub fn lines(s: &str) -> (ls: Vec<String>)
    ensures
        texts(ls@) == lines_of(s@),
{
    let cs: Vec<char> = chars_of(s);
    let mut ls: Vec<String> = Vec::new();
    let mut from: usize = 0;
    assert(cs@.skip(0) == cs@);
    while from < cs.len()
        invariant
            cs@ == s@,
            from <= cs.len(),
            texts(ls@) + lines_of(cs@.skip(from as int)) == lines_of(cs@),
        decreases cs.len() - from,
    {
        let ghost rest = cs@.skip(from as int);
        let mut to: usize = from;
        assert(rest.skip(0) == rest);
        while to < cs.len() && cs[to] != '\n'
            invariant
                from <= to <= cs.len(),
                rest == cs@.skip(from as int),
                line_len(rest) == to - from + line_len(rest.skip(to - from)),
            decreases cs.len() - to,
        {
            assert(rest.skip(to - from).skip(1) == rest.skip(to + 1 - from));
            to = to + 1;
        }
        let ghost before = ls@;
        if to == cs.len() {
            let line: String = s.substring_char(from, to).to_owned();
            assert(line@ == rest);
            ls.push(line);
            assert(texts(ls@) == texts(before) + seq![line@]);
            assert(lines_of(cs@.skip(to as int)) == Seq::<Seq<char>>::empty());
            from = to;
        } else {
            let stop: usize = if from < to && cs[to - 1] == '\r' {
                to - 1
            } else {
                to
            };
            let line: String = s.substring_char(from, stop).to_owned();
            assert(line@ == without_return(rest.take(to - from)));
            assert(rest.skip(to - from + 1) == cs@.skip(to + 1));
            ls.push(line);
            assert(texts(ls@) == texts(before) + seq![line@]);
            from = to + 1;
        }
    }
    assert(lines_of(cs@.skip(from as int)) == Seq::<Seq<char>>::empty());
    ls
}

/// Whether `part` stands at position `at` of `cs`.
fn stands_at(cs: &Vec<char>, part: &Vec<char>, at: usize) -> (yes: bool)
    requires
        at + part.len() <= cs.len(),
    ensures
        yes == found_at(cs@, part@, at as int),
{
    let mut i: usize = 0;
    while i < part.len()
        invariant
            i <= part.len(),
            at + part.len() <= cs.len(),
            forall|j: int| 0 <= j < i ==> cs[at + j] == part[j],
        decreases part.len() - i,
    {
        if cs[at + i] != part[i] {
            assert(cs@.subrange(at as int, at + part.len())[i as int] != part@[i as int]);
            return false;
        }
        i = i + 1;
    }
    assert(cs@.subrange(at as int, at + part.len()) == part@);
    true
}

/// Whether `part` stands somewhere in `s`.
pub fn contains(s: &str, part: &str) -> (yes: bool)
    ensures
        yes == occurs(s@, part@),
{
    let cs: Vec<char> = chars_of(s);
    let ps: Vec<char> = chars_of(part);
    if ps.len() > cs.len() {
        return false;
    }
    let last: usize = cs.len() - ps.len();
    let mut at: usize = 0;
    loop
        invariant
            cs@ == s@,
            ps@ == part@,
            last + ps.len() == cs.len(),
            at <= last,
            forall|i: int| 0 <= i < at ==> !found_at(s@, part@, i),
        decreases last - at,
    {
        if stands_at(&cs, &ps, at) {
            return true;
        }
        if at == last {
            return false;
        }
        at = at + 1;
    }
}

/// The digit that stands for `d`, as text.
fn digit_text(d: u64) -> (t: &'static str)
    requires
        d < 10,
    ensures
        t@ == seq![digit(d as nat)],
{
    proof {
        reveal_strlit("0");
        reveal_strlit("1");
        reveal_strlit("2");
        reveal_strlit("3");
        reveal_strlit("4");
        reveal_strlit("5");
        reveal_strlit("6");
        reveal_strlit("7");
        reveal_strlit("8");
        reveal_strlit("9");
    }
    if d == 0 {
        "0"
    } else if d == 1 {
        "1"
    } else if d == 2 {
        "2"
    } else if d == 3 {
        "3"
    } else if d == 4 {
        "4"
    } else if d == 5 {
        "5"
    } else if d == 6 {
        "6"
    } else if d == 7 {
        "7"
    } else if d == 8 {
        "8"
    } else {
        "9"
    }
}

/// `n` in decimal notation.
pub fn number(n: u64) -> (t: String)
    ensures
        t@ == decimal(n as nat),
    decreases n,
{
    let front: String = if n < 10 {
        String::new()
    } else {
        number(n / 10)
    };
    let all: String = front.concat(digit_text(n % 10));
    assert(all@ == decimal(n as nat));
    all
}

/// `n` in decimal notation, with its sign if it is negative.
pub fn signed_number(n: i32) -> (t: String)
    ensures
        t@ == signed_decimal(n as int),
{
    if n < 0 {
        proof {
            reveal_strlit("-");
        }
        let sign: String = "-".to_owned();
        let all: String = sign.concat(number((-(n as i64)) as u64).as_str());
        assert(all@ == signed_decimal(n as int));
        all
    } else {
        number(n as u64)
    }
}

/// The texts that a list of string slices holds.
pub open spec fn slices(v: Seq<&str>) -> Seq<Seq<char>> {
    Seq::new(v.len(), |i: int| v[i]@)
}

/// The parts, each as a string of its own.
pub fn owned(parts: &[&str]) -> (all: Vec<String>)
    ensures
        texts(all@) == slices(parts@),
{
    let mut all: Vec<String> = Vec::new();
    let mut i: usize = 0;
    while i < parts.len()
        invariant
            i <= parts.len(),
            texts(all@) == slices(parts@).take(i as int),
        decreases parts.len() - i,
    {
        let ghost before = all@;
        all.push(parts[i].to_owned());
        assert(texts(all@) == texts(before).push(parts[i as int]@));
        assert(slices(parts@).take(i + 1) == slices(parts@).take(i as int).push(parts[i as int]@));
        i = i + 1;
    }
    assert(slices(parts@).take(i as int) == slices(parts@));
    all
}

/// What stands in a piece of a text stands in the text.
proof fn lemma_piece(s: Seq<char>, from: int, to: int, part: Seq<char>)
    requires
        0 <= from <= to <= s.len(),
        occurs(s.subrange(from, to), part),
    ensures
        occurs(s, part),
{
    let piece = s.subrange(from, to);
    let i = choose|i: int| found_at(piece, part, i);
    assert(s.subrange(from + i, from + i + part.len()) == piece.subrange(i, i + part.len()));
    assert(found_at(s, part, from + i));
}

/// A text that holds no line break stands in `s` if and only if it stands in one
/// of the lines of `s`.
pub proof fn law_found_in_a_line(s: Seq<char>, part: Seq<char>)
    requires
        part.len() > 0,
        forall|i: int| 0 <= i < part.len() ==> part[i] != '\n' && part[i] != '\r',
    ensures
        occurs(s, part) <==> exists|i: int|
            0 <= i < lines_of(s).len() && occurs(#[trigger] lines_of(s)[i], part),
    decreases s.len(),
{
    let n = line_len(s) as int;
    lemma_line_len(s);
    if s.len() == 0 {
        assert(!occurs(s, part));
    } else if n >= s.len() {
        assert(lines_of(s)[0] == s);
    } else {
        let whole = s.take(n);
        let line = without_return(whole);
        let rest = s.skip(n + 1);
        law_found_in_a_line(rest, part);
        assert(lines_of(s) == seq![line] + lines_of(rest));
        if occurs(s, part) {
            let i = choose|i: int| found_at(s, part, i);
            let found = s.subrange(i, i + part.len());
            if i <= n < i + part.len() {
                assert(found[n - i] == '\n');
            }
            if i > n {
                assert(rest.subrange(i - n - 1, i - n - 1 + part.len()) == found);
                assert(found_at(rest, part, i - n - 1));
                let k = choose|k: int|
                    0 <= k < lines_of(rest).len() && occurs(#[trigger] lines_of(rest)[k], part);
                assert(lines_of(s)[k + 1] == lines_of(rest)[k]);
            } else {
                if line != whole && i + part.len() == n {
                    assert(found[part.len() - 1] == whole.last());
                }
                assert(line.subrange(i, i + part.len()) == found);
                assert(found_at(line, part, i));
                assert(lines_of(s)[0] == line);
            }
        }
        if exists|k: int| 0 <= k < lines_of(s).len() && occurs(#[trigger] lines_of(s)[k], part) {
            let k = choose|k: int|
                0 <= k < lines_of(s).len() && occurs(#[trigger] lines_of(s)[k], part);
            if k == 0 {
                assert(line == s.subrange(0, line.len() as int));
                lemma_piece(s, 0, line.len() as int, part);
            } else {
                assert(lines_of(rest)[k - 1] == lines_of(s)[k]);
                assert(rest == s.subrange(n + 1, s.len() as int));
                lemma_piece(s, n + 1, s.len() as int, part);
            }
        }
    }
}

/// Different numbers are written differently.
pub proof fn law_decimal_is_unambiguous(a: nat, b: nat)
    requires
        decimal(a) == decimal(b),
    ensures
        a == b,
    decreases a + b,
{
    assert(decimal(a).last() == digit(a % 10));
    assert(decimal(b).last() == digit(b % 10));
    if a >= 10 && b >= 10 {
        assert(decimal(a).drop_last() == decimal(a / 10));
        assert(decimal(b).drop_last() == decimal(b / 10));
        law_decimal_is_unambiguous(a / 10, b / 10);
    } else {
        lemma_decimal_len(a);
        lemma_decimal_len(b);
    }
}

/// Numbers below ten have one digit, the others more.
proof fn lemma_decimal_len(n: nat)
    ensures
        decimal(n).len() >= 1,
        n >= 10 ==> decimal(n).len() >= 2,
    decreases n,
{
    if n >= 10 {
        lemma_decimal_len(n / 10);
    }
}

/// A text of white space alone.
pub open spec fn blank(s: Seq<char>) -> bool {
    forall|i: int| 0 <= i < s.len() ==> white(#[trigger] s[i])
}

/// A text without white space that is not empty.
pub open spec fn solid(s: Seq<char>) -> bool {
    s.len() > 0 && forall|i: int| 0 <= i < s.len() ==> !white(#[trigger] s[i])
}

/// A text that stays on one line.
pub open spec fn one_line(s: Seq<char>) -> bool {
    forall|i: int| 0 <= i < s.len() ==> #[trigger] s[i] != '\n'
}

/// White space in front is taken off.
proof fn lemma_trim_front(front: Seq<char>, rest: Seq<char>)
    requires
        blank(front),
        rest.len() == 0 || !white(rest[0]),
    ensures
        trim_front(front + rest) == rest,
    decreases front.len(),
{
    if front.len() > 0 {
        assert(white(front[0]));
        assert((front + rest).skip(1) == front.skip(1) + rest);
        assert forall|i: int| 0 <= i < front.skip(1).len() implies white(
            #[trigger] front.skip(1)[i],
        ) by {
            assert(white(front[i + 1]));
        }
        lemma_trim_front(front.skip(1), rest);
    } else {
        assert(front + rest == rest);
    }
}

/// White space at the back is taken off.
proof fn lemma_trim_back(rest: Seq<char>, back: Seq<char>)
    requires
        blank(back),
        rest.len() == 0 || !white(rest.last()),
    ensures
        trim_back(rest + back) == rest,
    decreases back.len(),
{
    if back.len() > 0 {
        assert(white(back[back.len() - 1]));
        assert((rest + back).drop_last() == rest + back.drop_last());
        assert forall|i: int| 0 <= i < back.drop_last().len() implies white(
            #[trigger] back.drop_last()[i],
        ) by {
            assert(white(back[i]));
        }
        lemma_trim_back(rest, back.drop_last());
    } else {
        assert(rest + back == rest);
    }
}

/// Trimming takes off all the white space at both ends and nothing else: what
/// starts and ends with another character comes out of any white space around it
/// as it is.
pub proof fn law_trim_keeps_the_core(front: Seq<char>, core: Seq<char>, back: Seq<char>)
    requires
        blank(front),
        blank(back),
        core.len() > 0,
        !white(core[0]),
        !white(core.last()),
    ensures
        trimmed(front + core + back) == core,
        trimmed(front) == Seq::<char>::empty(),
{
    let none: Seq<char> = seq![];
    assert(front + core + back == front + (core + back));
    lemma_trim_front(front, core + back);
    lemma_trim_back(core, back);
    assert(front + none == front);
    lemma_trim_front(front, none);
}

/// A word reaches to the white space behind it.
proof fn lemma_word_reaches(word: Seq<char>, rest: Seq<char>)
    requires
        forall|i: int| 0 <= i < word.len() ==> !white(#[trigger] word[i]),
        rest.len() == 0 || white(rest[0]),
    ensures
        word_len(word + rest) == word.len(),
    decreases word.len(),
{
    if word.len() > 0 {
        assert(!white(word[0]));
        assert((word + rest).skip(1) == word.skip(1) + rest);
        assert forall|i: int| 0 <= i < word.skip(1).len() implies !white(
            #[trigger] word.skip(1)[i],
        ) by {
            assert(!white(word[i + 1]));
        }
        lemma_word_reaches(word.skip(1), rest);
    } else {
        assert(word + rest == rest);
    }
}

/// White space in front of a text adds no word.
proof fn lemma_words_behind(front: Seq<char>, rest: Seq<char>)
    requires
        blank(front),
    ensures
        words_of(front + rest) == words_of(rest),
    decreases front.len(),
{
    if front.len() > 0 {
        assert(white(front[0]));
        assert((front + rest).skip(1) == front.skip(1) + rest);
        assert forall|i: int| 0 <= i < front.skip(1).len() implies white(
            #[trigger] front.skip(1)[i],
        ) by {
            assert(white(front[i + 1]));
        }
        lemma_words_behind(front.skip(1), rest);
    } else {
        assert(front + rest == rest);
    }
}

/// Words are what white space separates, in order: white space holds none, and a
/// run of other characters is a word of its own, whatever stands around it.
pub proof fn law_words_are_separated(front: Seq<char>, word: Seq<char>, rest: Seq<char>)
    requires
        blank(front),
        solid(word),
        rest.len() == 0 || white(rest[0]),
    ensures
        words_of(front) == Seq::<Seq<char>>::empty(),
        words_of(front + word + rest) == seq![word] + words_of(rest),
{
    let none: Seq<char> = seq![];
    lemma_words_behind(front, none);
    assert(front + none == front);
    assert(words_of(none) == Seq::<Seq<char>>::empty());
    assert(front + word + rest == front + (word + rest));
    lemma_words_behind(front, word + rest);
    lemma_word_reaches(word, rest);
    assert(!white(word[0]));
    assert((word + rest).take(word.len() as int) == word);
    assert((word + rest).skip(word.len() as int) == rest);
}

/// A line reaches to the line feed behind it.
proof fn lemma_line_reaches(line: Seq<char>, rest: Seq<char>)
    requires
        one_line(line),
        rest.len() == 0 || rest[0] == '\n',
    ensures
        line_len(line + rest) == line.len(),
    decreases line.len(),
{
    if line.len() > 0 {
        assert(line[0] != '\n');
        assert((line + rest).skip(1) == line.skip(1) + rest);
        assert forall|i: int| 0 <= i < line.skip(1).len() implies #[trigger] line.skip(1)[i]
            != '\n' by {
            assert(line[i + 1] != '\n');
        }
        lemma_line_reaches(line.skip(1), rest);
    } else {
        assert(line + rest == rest);
    }
}

/// Lines are what line breaks end, in order: a line feed, or a carriage return and
/// a line feed, ends a line and does not belong to it. What follows the last
/// line break is a line too, unless it is empty.
pub proof fn law_lines_are_ended(line: Seq<char>, rest: Seq<char>)
    requires
        one_line(line),
    ensures
        lines_of(line + seq!['\r', '\n'] + rest) == seq![line] + lines_of(rest),
        line.len() == 0 || line.last() != '\r' ==> lines_of(line + seq!['\n'] + rest) == seq![
            line,
        ] + lines_of(rest),
        line.len() > 0 ==> lines_of(line) == seq![line],
        line.len() == 0 ==> lines_of(line) == Seq::<Seq<char>>::empty(),
{
    let none: Seq<char> = seq![];
    assert(line + none == line);
    lemma_line_reaches(line, none);

    let returned = line.push('\r');
    assert forall|i: int| 0 <= i < returned.len() implies #[trigger] returned[i] != '\n' by {
        if i < line.len() {
            assert(line[i] != '\n');
        }
    }
    let whole = line + seq!['\r', '\n'] + rest;
    assert(whole == returned + (seq!['\n'] + rest));
    lemma_line_reaches(returned, seq!['\n'] + rest);
    assert(whole.take(returned.len() as int) == returned);
    assert(whole.skip(returned.len() as int + 1) == rest);
    assert(without_return(returned) == line);

    let plain = line + seq!['\n'] + rest;
    assert(plain == line + (seq!['\n'] + rest));
    lemma_line_reaches(line, seq!['\n'] + rest);
    assert(plain.take(line.len() as int) == line);
    assert(plain.skip(line.len() as int + 1) == rest);
}

/// Lines that are ended are read one after the other: behind a line feed the next
/// line starts, whatever came before.
pub proof fn law_lines_add_up(above: Seq<char>, below: Seq<char>)
    requires
        above.len() == 0 || above.last() == '\n',
    ensures
        lines_of(above + below) == lines_of(above) + lines_of(below),
    decreases above.len(),
{
    if above.len() == 0 {
        assert(above + below == below);
    } else {
        lemma_line_len(above);
        let n = line_len(above) as int;
        if n >= above.len() {
            assert(above[above.len() - 1] != '\n');
        }
        let line = above.take(n);
        let rest = above.skip(n + 1);
        assert forall|i: int| 0 <= i < line.len() implies #[trigger] line[i] != '\n' by {
            assert(above[i] != '\n');
        }
        assert(above + below == line + (seq!['\n'] + rest + below));
        lemma_line_reaches(line, seq!['\n'] + rest + below);
        assert((above + below).take(n) == line);
        assert((above + below).skip(n + 1) == rest + below);
        if rest.len() > 0 {
            assert(rest.last() == above.last());
        }
        law_lines_add_up(rest, below);
    }
}

/// A part stands in a text if and only if the text is that part with something, or
/// nothing, around it.
pub proof fn law_part_is_surrounded(s: Seq<char>, part: Seq<char>)
    ensures
        occurs(s, part) <==> exists|a: Seq<char>, b: Seq<char>| s == #[trigger] (a + part + b),
{
    if occurs(s, part) {
        let i = choose|i: int| found_at(s, part, i);
        let a = s.take(i);
        let b = s.skip(i + part.len());
        assert(s =~= a + part + b) by {
            assert(s.subrange(i, i + part.len()) == part);
            assert forall|k: int| 0 <= k < s.len() implies s[k] == (a + part + b)[k] by {
                if i <= k < i + part.len() {
                    assert(s.subrange(i, i + part.len())[k - i] == s[k]);
                }
            }
        }
    }
    if exists|a: Seq<char>, b: Seq<char>| s == #[trigger] (a + part + b) {
        let (a, b) = choose|a: Seq<char>, b: Seq<char>| s == #[trigger] (a + part + b);
        assert(s.subrange(a.len() as int, a.len() as int + part.len()) == part);
        assert(found_at(s, part, a.len() as int));
    }
}

/// A text of decimal digits that is not empty.
pub open spec fn all_digits(s: Seq<char>) -> bool {
    s.len() > 0 && forall|i: int| 0 <= i < s.len() ==> '0' <= #[trigger] s[i] <= '9'
}

/// The number that a text of decimal digits stands for.
pub open spec fn value(s: Seq<char>) -> nat
    decreases s.len(),
{
    if s.len() == 0 {
        0
    } else {
        10 * value(s.drop_last()) + (s.last() as nat - '0' as nat) as nat
    }
}

/// `s` is the decimal notation of `n`: digits that stand for `n`, of which the
/// first is no zero unless it is the only one.
pub open spec fn writes(s: Seq<char>, n: nat) -> bool {
    &&& all_digits(s)
    &&& value(s) == n
    &&& s.len() > 1 ==> s[0] != '0'
}

/// A number that is written can be read back.
pub proof fn law_decimal_reads_back(n: nat)
    ensures
        writes(decimal(n), n),
    decreases n,
{
    let s = decimal(n);
    if n >= 10 {
        law_decimal_reads_back(n / 10);
        assert(s.drop_last() == decimal(n / 10));
        assert(n / 10 > 0);
        if decimal(n / 10).len() == 1 && decimal(n / 10)[0] == '0' {
            reveal_with_fuel(value, 2);
            assert(value(decimal(n / 10)) == 0);
        }
        assert(s[0] == decimal(n / 10)[0]);
    } else {
        reveal_with_fuel(value, 2);
        assert(s.drop_last() == Seq::<char>::empty());
    }
}

/// A number with a sign that is written can be read back: a minus sign stands in
/// front exactly if the number is negative.
pub proof fn law_signed_decimal_reads_back(n: int)
    ensures
        n >= 0 ==> writes(signed_decimal(n), n as nat),
        n < 0 ==> signed_decimal(n).len() > 1 && signed_decimal(n)[0] == '-' && writes(
            signed_decimal(n).skip(1),
            (-n) as nat,
        ),
{
    if n < 0 {
        law_decimal_reads_back((-n) as nat);
        assert(signed_decimal(n).skip(1) == decimal((-n) as nat));
    } else {
        law_decimal_reads_back(n as nat);
    }
}

/// The texts of strings are the strings' own, one for one.
pub proof fn law_texts_are_kept(v: Seq<String>, w: Seq<&str>, i: int)
    ensures
        texts(v).len() == v.len(),
        0 <= i < v.len() ==> texts(v)[i] == v[i]@,
        slices(w).len() == w.len(),
        0 <= i < w.len() ==> slices(w)[i] == w[i]@,
{
}

} // verus!
